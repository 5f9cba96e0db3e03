//! Syntax highlighting as the editor asks for it.

use vstd::prelude::*;
use crate::editor::syntax::{get_language_id_from_path, language_of_path};

verus! {

/// One highlighted stretch of a line.
#[derive(Clone, Debug, PartialEq, Eq)]
pub struct Token {
    pub line: usize,
    pub start_char: usize,
    pub end_char: usize,
    pub token_type: String,
}

/// The highlighting of a file: its language and its tokens.
#[derive(Clone, Debug, PartialEq, Eq)]
pub struct SyntaxHighlightingResult {
    pub language_id: String,
    pub tokens: Vec<Token>,
}

/// The language that a file is highlighted as when its path gives `found`:
/// the language found, or plain text.
pub open spec fn highlighting_language(found: Option<Seq<char>>) -> Seq<char> {
    match found {
        Some(language_id) => language_id,
        None => "plaintext"@,
    }
}

/// The highlighting of a file whose language was looked up as `found`. No
/// tokens are produced yet.
pub fn highlighting_for(found: Option<String>) -> (r: SyntaxHighlightingResult)
    ensures
        r.language_id@ == highlighting_language(found.deep_view()),
        r.tokens@.len() == 0,
{
    let language_id = match found {
        Some(language_id) => language_id,
        None => "plaintext".to_owned(),
    };
    SyntaxHighlightingResult { language_id, tokens: Vec::new() }
}

/// The highlighting of a file. Its language is the one that its path's
/// extension stands for, or plain text; the content is not read yet and no
/// tokens are produced.
#[allow(unused_variables)]
pub fn get_syntax_highlighting(file_path: &str, content: &str) -> (r: Result<
    SyntaxHighlightingResult,
    String,
>)
    ensures
        r is Ok,
        r->Ok_0.tokens@.len() == 0,
        r->Ok_0.language_id@ == highlighting_language(language_of_path(file_path@)),
{
    Ok(highlighting_for(get_language_id_from_path(file_path)))
}

} // verus!
