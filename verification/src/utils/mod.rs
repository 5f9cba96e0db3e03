//! Small helpers of the editor: naming new files, finding a project's
//! root, telling binary files from text.

use vstd::prelude::*;
use crate::text::{decimal, decimal_text, extension_of, lowercase, lowercase_of, path_extension};

verus! {

/// The `number`-th name for a file that has none yet.
pub open spec fn untitled_name(number: nat) -> Seq<char> {
    "Untitled-"@ + decimal_text(number) + ".txt"@
}

/// One more than the highest number that is tried for a new file's name.
pub const UNTITLED_LIMIT: u32 = 1000;

fn numbered_name(number: u32) -> (r: String)
    ensures
        r@ == untitled_name(number as nat),
{
    let digits = decimal(number);
    "Untitled-".to_owned().concat(digits.as_str()).concat(".txt")
}

fn holds(existing: &[String], name: &str) -> (r: bool)
    ensures
        r == existing.deep_view().contains(name@),
{
    let ghost names = existing.deep_view();
    let mut i: usize = 0;
    while i < existing.len()
        invariant
            i <= existing.len(),
            names == existing.deep_view(),
            forall|j: int| 0 <= j < i ==> names[j] != name@,
        decreases existing.len() - i,
    {
        if existing[i].as_str().eq(name) {
            assert(names[i as int] == name@);
            return true;
        }
        i += 1;
    }
    false
}

/// A name for a new file that none of the `existing` ones has: the
/// numbered name with the least number from 1 that is free, or the name
/// without a number where every number below the limit is taken.
pub fn get_untitled_filename(existing: &[String]) -> (r: String)
    ensures
        ({
            let names = existing.deep_view();
            ||| exists|number: nat|
                {
                    &&& 1 <= number < UNTITLED_LIMIT
                    &&& r@ == untitled_name(number)
                    &&& !names.contains(untitled_name(number))
                    &&& forall|lower: nat|
                        1 <= lower < number ==> names.contains(#[trigger] untitled_name(lower))
                }
            ||| {
                &&& r@ == "Untitled.txt"@
                &&& forall|number: nat|
                    1 <= number < UNTITLED_LIMIT ==> names.contains(
                        #[trigger] untitled_name(number),
                    )
            }
        }),
{
    let ghost names = existing.deep_view();
    let mut number: u32 = 1;
    while number < UNTITLED_LIMIT
        invariant
            1 <= number <= UNTITLED_LIMIT,
            names == existing.deep_view(),
            forall|lower: nat| 1 <= lower < number ==> names.contains(#[trigger] untitled_name(lower)),
        decreases UNTITLED_LIMIT - number,
    {
        let name = numbered_name(number);
        if !holds(existing, name.as_str()) {
            return name;
        }
        number += 1;
    }
    "Untitled.txt".to_owned()
}

/// The names whose presence in a directory marks it as a project's root.
pub open spec fn marker_names() -> Seq<Seq<char>> {
    seq![
        ".git"@,
        "package.json"@,
        "Cargo.toml"@,
        "go.mod"@,
        "pom.xml"@,
        ".sln"@,
        "requirements.txt"@,
    ]
}

/// The names whose presence in a directory marks it as a project's root,
/// in the order in which they are looked for.
pub fn project_markers() -> (r: Vec<String>)
    ensures
        r.deep_view() == marker_names(),
{
    let mut r: Vec<String> = Vec::new();
    r.push(".git".to_owned());
    r.push("package.json".to_owned());
    r.push("Cargo.toml".to_owned());
    r.push("go.mod".to_owned());
    r.push("pom.xml".to_owned());
    r.push(".sln".to_owned());
    r.push("requirements.txt".to_owned());
    assert(r.deep_view() =~= marker_names());
    r
}

/// A directory on the way from a path up to the root of the filesystem,
/// and whether one of the project markers was found in it.
#[derive(Clone, Debug, PartialEq, Eq)]
pub struct DirProbe {
    pub path: String,
    pub has_marker: bool,
}

/// A probed directory with its path as a sequence of characters.
pub struct DirProbeView {
    pub path: Seq<char>,
    pub has_marker: bool,
}

impl DeepView for DirProbe {
    type V = DirProbeView;

    open spec fn deep_view(&self) -> DirProbeView {
        DirProbeView { path: self.path@, has_marker: self.has_marker }
    }
}

/// The first of `probes` that has a marker, if any has.
pub open spec fn first_marked(probes: Seq<DirProbeView>) -> Option<Seq<char>>
    decreases probes.len(),
{
    if probes.len() == 0 {
        None
    } else if probes[0].has_marker {
        Some(probes[0].path)
    } else {
        first_marked(probes.drop_first())
    }
}

/// The root of the project that `start_path` belongs to. `ancestors` are
/// the directories from `start_path` upwards, the nearest first, each with
/// the answer whether it holds a project marker. The root is the nearest
/// of them that does; where none does, it is `start_path` itself.
pub fn find_project_root(start_path: &str, ancestors: &[DirProbe]) -> (r: Option<String>)
    ensures
        r.deep_view() == Some(
            match first_marked(ancestors.deep_view()) {
                Some(root) => root,
                None => start_path@,
            },
        ),
{
    let ghost probes = ancestors.deep_view();
    let mut i: usize = 0;
    proof {
        assert(probes.skip(0) =~= probes);
    }
    while i < ancestors.len()
        invariant
            i <= ancestors.len(),
            probes == ancestors.deep_view(),
            first_marked(probes) == first_marked(probes.skip(i as int)),
        decreases ancestors.len() - i,
    {
        proof {
            assert(probes.skip(i as int)[0] == ancestors[i as int].deep_view());
            assert(probes.skip(i as int).drop_first() =~= probes.skip(i + 1));
        }
        if ancestors[i].has_marker {
            return Some(ancestors[i].path.clone());
        }
        i += 1;
    }
    proof {
        assert(probes.skip(i as int).len() == 0);
    }
    Some(start_path.to_owned())
}

/// Whether an extension, given in lowercase and without its dot, is one of
/// a binary format.
pub open spec fn binary_extension(extension: Seq<char>) -> bool {
    ||| extension == "exe"@
    ||| extension == "dll"@
    ||| extension == "obj"@
    ||| extension == "bin"@
    ||| extension == "png"@
    ||| extension == "jpg"@
    ||| extension == "jpeg"@
    ||| extension == "gif"@
    ||| extension == "zip"@
    ||| extension == "tar"@
    ||| extension == "gz"@
    ||| extension == "7z"@
    ||| extension == "rar"@
    ||| extension == "pdf"@
    ||| extension == "doc"@
    ||| extension == "docx"@
    ||| extension == "xls"@
    ||| extension == "xlsx"@
}

/// Whether `extension`, taken as it is, is one of a binary format.
pub fn is_binary_extension(extension: &str) -> (r: bool)
    ensures
        r == binary_extension(extension@),
{
    extension.eq("exe") || extension.eq("dll") || extension.eq("obj") || extension.eq("bin")
        || extension.eq("png") || extension.eq("jpg") || extension.eq("jpeg") || extension.eq(
        "gif",
    ) || extension.eq("zip") || extension.eq("tar") || extension.eq("gz") || extension.eq("7z")
        || extension.eq("rar") || extension.eq("pdf") || extension.eq("doc") || extension.eq(
        "docx",
    ) || extension.eq("xls") || extension.eq("xlsx")
}

/// Whether the path's extension, in any case of letters, is one of a
/// binary format. A path without an extension has none.
pub fn has_binary_extension(path: &str) -> (r: bool)
    ensures
        r == match extension_of(path@) {
            Some(extension) => binary_extension(lowercase_of(extension)),
            None => false,
        },
{
    match path_extension(path) {
        Some(extension) => {
            let lower = lowercase(extension.as_str());
            is_binary_extension(lower.as_str())
        },
        None => false,
    }
}

/// Whether one of the bytes is zero: the sign by which the beginning of a
/// file is taken for binary.
pub fn contains_null_byte(bytes: &[u8]) -> (r: bool)
    ensures
        r == bytes@.contains(0u8),
{
    let mut i: usize = 0;
    while i < bytes.len()
        invariant
            i <= bytes.len(),
            forall|j: int| 0 <= j < i ==> bytes@[j] != 0u8,
        decreases bytes.len() - i,
    {
        if bytes[i] == 0 {
            return true;
        }
        i += 1;
    }
    false
}

} // verus!
