//! Languages by file extension.

use vstd::prelude::*;
use crate::text::{extension_of, lowercase, lowercase_of, path_extension};

verus! {

/// The language of a file extension, given in lowercase and without its
/// dot; nothing for an extension that is not in the table.
pub open spec fn language_of(extension: Seq<char>) -> Option<Seq<char>> {
    if extension == "js"@ {
        Some("javascript"@)
    } else if extension == "jsx"@ {
        Some("javascriptreact"@)
    } else if extension == "ts"@ {
        Some("typescript"@)
    } else if extension == "tsx"@ {
        Some("typescriptreact"@)
    } else if extension == "c"@ || extension == "h"@ {
        Some("c"@)
    } else if extension == "cpp"@ || extension == "hpp"@ {
        Some("cpp"@)
    } else if extension == "html"@ {
        Some("html"@)
    } else if extension == "css"@ {
        Some("css"@)
    } else if extension == "scss"@ {
        Some("scss"@)
    } else if extension == "sass"@ {
        Some("sass"@)
    } else if extension == "py"@ {
        Some("python"@)
    } else if extension == "rs"@ {
        Some("rust"@)
    } else if extension == "go"@ {
        Some("go"@)
    } else if extension == "java"@ {
        Some("java"@)
    } else if extension == "php"@ {
        Some("php"@)
    } else if extension == "json"@ {
        Some("json"@)
    } else if extension == "md"@ {
        Some("markdown"@)
    } else if extension == "xml"@ {
        Some("xml"@)
    } else if extension == "yaml"@ || extension == "yml"@ {
        Some("yaml"@)
    } else {
        None
    }
}

fn language(name: &str) -> (r: Option<String>)
    ensures
        r.deep_view() == Some(name@),
{
    Some(name.to_owned())
}

/// Looks an extension up in the table. The extension is taken as it is:
/// the table's entries are in lowercase.
pub fn lookup_language(extension: &str) -> (r: Option<String>)
    ensures
        r.deep_view() == language_of(extension@),
{
    if extension.eq("js") {
        language("javascript")
    } else if extension.eq("jsx") {
        language("javascriptreact")
    } else if extension.eq("ts") {
        language("typescript")
    } else if extension.eq("tsx") {
        language("typescriptreact")
    } else if extension.eq("c") || extension.eq("h") {
        language("c")
    } else if extension.eq("cpp") || extension.eq("hpp") {
        language("cpp")
    } else if extension.eq("html") {
        language("html")
    } else if extension.eq("css") {
        language("css")
    } else if extension.eq("scss") {
        language("scss")
    } else if extension.eq("sass") {
        language("sass")
    } else if extension.eq("py") {
        language("python")
    } else if extension.eq("rs") {
        language("rust")
    } else if extension.eq("go") {
        language("go")
    } else if extension.eq("java") {
        language("java")
    } else if extension.eq("php") {
        language("php")
    } else if extension.eq("json") {
        language("json")
    } else if extension.eq("md") {
        language("markdown")
    } else if extension.eq("xml") {
        language("xml")
    } else if extension.eq("yaml") || extension.eq("yml") {
        language("yaml")
    } else {
        None
    }
}

/// The language of a file extension in any case of letters: the extension
/// is put in lowercase and looked up.
pub fn language_id_for_extension(extension: &str) -> (r: Option<String>)
    ensures
        r.deep_view() == language_of(lowercase_of(extension@)),
{
    let lower = lowercase(extension);
    lookup_language(lower.as_str())
}

/// The language that a path stands for: the language of its extension in
/// lowercase, or none for a path without an extension.
pub open spec fn language_of_path(path: Seq<char>) -> Option<Seq<char>> {
    match extension_of(path) {
        Some(extension) => language_of(lowercase_of(extension)),
        None => None,
    }
}

/// The language of a file, by the extension of its path. A path without an
/// extension has none, and so has one whose extension is not in the table.
pub fn get_language_id_from_path(path: &str) -> (r: Option<String>)
    ensures
        r.deep_view() == language_of_path(path@),
{
    match path_extension(path) {
        Some(extension) => language_id_for_extension(extension.as_str()),
        None => None,
    }
}

} // verus!
