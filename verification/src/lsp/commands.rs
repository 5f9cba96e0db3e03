//! What the editor asks of a running language server.
//!
//! The answers are fixed samples per language; a request for a language
//! without a running server is an error and never an empty answer.

use vstd::prelude::*;
use crate::lsp::{
    Diagnostic, DiagnosticSeverity, DiagnosticView, LanguageServerManager, LspError, LspErrorView,
};

verus! {

/// One proposal to complete the text at the cursor.
#[derive(Clone, Debug, PartialEq, Eq)]
pub struct CompletionItem {
    pub label: String,
    pub kind: u32,
    pub detail: Option<String>,
    pub documentation: Option<String>,
    pub insert_text: Option<String>,
}

/// A completion item with its texts as sequences of characters.
pub struct CompletionItemView {
    pub label: Seq<char>,
    pub kind: u32,
    pub detail: Option<Seq<char>>,
    pub documentation: Option<Seq<char>>,
    pub insert_text: Option<Seq<char>>,
}

impl DeepView for CompletionItem {
    type V = CompletionItemView;

    open spec fn deep_view(&self) -> CompletionItemView {
        CompletionItemView {
            label: self.label@,
            kind: self.kind,
            detail: self.detail.deep_view(),
            documentation: self.documentation.deep_view(),
            insert_text: self.insert_text.deep_view(),
        }
    }
}

/// A cursor position: line and character, both counted from zero.
#[derive(Clone, Copy, Debug, PartialEq, Eq, Structural)]
pub struct Position {
    pub line: u32,
    pub character: u32,
}

/// The kind of a completion that names a method.
pub const KIND_METHOD: u32 = 1;

/// The kind of a completion that inserts a snippet.
pub const KIND_SNIPPET: u32 = 14;

/// A completion with all its texts present.
pub open spec fn completion(
    label: Seq<char>,
    kind: u32,
    detail: Seq<char>,
    documentation: Seq<char>,
    insert_text: Seq<char>,
) -> CompletionItemView {
    CompletionItemView {
        label,
        kind,
        detail: Some(detail),
        documentation: Some(documentation),
        insert_text: Some(insert_text),
    }
}

/// The completions offered for a language, in the order in which they are
/// shown.
pub open spec fn completions_for(language_id: Seq<char>) -> Seq<CompletionItemView> {
    if language_id == "typescript"@ || language_id == "javascript"@ {
        seq![
            completion(
                "console.log"@,
                KIND_METHOD,
                "console.log(message: any): void"@,
                "Logs a message to the console"@,
                "console.log($1)$0"@,
            ),
            completion(
                "function"@,
                KIND_SNIPPET,
                "Function Declaration"@,
                "Creates a new function"@,
                "function ${1:name}(${2:params}) {\n\t${0}\n}"@,
            ),
        ]
    } else if language_id == "python"@ {
        seq![
            completion(
                "def"@,
                KIND_SNIPPET,
                "Function Definition"@,
                "Define a new function"@,
                "def ${1:name}(${2:params}):\n\t${0}"@,
            ),
            completion(
                "print"@,
                KIND_METHOD,
                "print(*args, sep=' ', end='\n')"@,
                "Print objects to the text stream file"@,
                "print($1)$0"@,
            ),
        ]
    } else if language_id == "rust"@ {
        seq![
            completion(
                "fn"@,
                KIND_SNIPPET,
                "Function Definition"@,
                "Define a new function"@,
                "fn ${1:name}(${2:params}) -> ${3:ReturnType} {\n\t${0}\n}"@,
            ),
            completion(
                "println!"@,
                KIND_METHOD,
                "println!(args)"@,
                "Print to the standard output"@,
                "println!(\"$1\")$0"@,
            ),
        ]
    } else {
        Seq::empty()
    }
}

fn item(label: &str, kind: u32, detail: &str, documentation: &str, insert_text: &str) -> (r:
    CompletionItem)
    ensures
        r.deep_view() == completion(label@, kind, detail@, documentation@, insert_text@),
{
    CompletionItem {
        label: label.to_owned(),
        kind,
        detail: Some(detail.to_owned()),
        documentation: Some(documentation.to_owned()),
        insert_text: Some(insert_text.to_owned()),
    }
}

fn pair(first: CompletionItem, second: CompletionItem) -> (r: Vec<CompletionItem>)
    ensures
        r.deep_view() == seq![first.deep_view(), second.deep_view()],
{
    let mut r: Vec<CompletionItem> = Vec::new();
    r.push(first);
    r.push(second);
    assert(r.deep_view() =~= seq![first.deep_view(), second.deep_view()]);
    r
}

fn sample_completions(language_id: &str) -> (r: Vec<CompletionItem>)
    ensures
        r.deep_view() == completions_for(language_id@),
{
    if language_id.eq("typescript") || language_id.eq("javascript") {
        pair(
            item(
                "console.log",
                KIND_METHOD,
                "console.log(message: any): void",
                "Logs a message to the console",
                "console.log($1)$0",
            ),
            item(
                "function",
                KIND_SNIPPET,
                "Function Declaration",
                "Creates a new function",
                "function ${1:name}(${2:params}) {\n\t${0}\n}",
            ),
        )
    } else if language_id.eq("python") {
        pair(
            item(
                "def",
                KIND_SNIPPET,
                "Function Definition",
                "Define a new function",
                "def ${1:name}(${2:params}):\n\t${0}",
            ),
            item(
                "print",
                KIND_METHOD,
                "print(*args, sep=' ', end='\n')",
                "Print objects to the text stream file",
                "print($1)$0",
            ),
        )
    } else if language_id.eq("rust") {
        pair(
            item(
                "fn",
                KIND_SNIPPET,
                "Function Definition",
                "Define a new function",
                "fn ${1:name}(${2:params}) -> ${3:ReturnType} {\n\t${0}\n}",
            ),
            item(
                "println!",
                KIND_METHOD,
                "println!(args)",
                "Print to the standard output",
                "println!(\"$1\")$0",
            ),
        )
    } else {
        let r: Vec<CompletionItem> = Vec::new();
        assert(r.deep_view() =~= Seq::<CompletionItemView>::empty());
        r
    }
}

/// The completions for a position in a file of `language_id`. They are
/// given only while a server is running for the language. The file and the
/// position do not yet influence the answer.
#[allow(unused_variables)]
pub fn get_completions<H>(
    manager: &LanguageServerManager<H>,
    language_id: &str,
    file_path: &str,
    position: Position,
) -> (r: Result<Vec<CompletionItem>, LspError>)
    ensures
        match r {
            Ok(items) => manager@.contains_key(language_id@) && items.deep_view()
                == completions_for(language_id@),
            Err(e) => !manager@.contains_key(language_id@) && e.deep_view()
                == LspErrorView::NotRunning(language_id@),
        },
{
    match manager.get_root_uri(language_id) {
        Some(_) => Ok(sample_completions(language_id)),
        None => Err(LspError::NotRunning(language_id.to_owned())),
    }
}

/// The diagnostics reported for a language: one error and one warning, both
/// with the language as their source.
pub open spec fn diagnostics_for(language_id: Seq<char>) -> Seq<DiagnosticView> {
    seq![
        DiagnosticView {
            line: 10,
            column: 5,
            end_line: 10,
            end_column: 15,
            severity: DiagnosticSeverity::Error,
            code: Some("E0001"@),
            source: Some(language_id),
            message: "Undefined variable 'someVar'"@,
        },
        DiagnosticView {
            line: 15,
            column: 10,
            end_line: 15,
            end_column: 20,
            severity: DiagnosticSeverity::Warning,
            code: Some("W0001"@),
            source: Some(language_id),
            message: "Unused variable"@,
        },
    ]
}

/// The diagnostics for a file of `language_id`. They are given only while a
/// server is running for the language. The file does not yet influence the
/// answer.
#[allow(unused_variables)]
pub fn get_diagnostics<H>(manager: &LanguageServerManager<H>, language_id: &str, file_path: &str) -> (r:
    Result<Vec<Diagnostic>, LspError>)
    ensures
        match r {
            Ok(found) => manager@.contains_key(language_id@) && found.deep_view()
                == diagnostics_for(language_id@),
            Err(e) => !manager@.contains_key(language_id@) && e.deep_view()
                == LspErrorView::NotRunning(language_id@),
        },
{
    match manager.get_root_uri(language_id) {
        Some(_) => {
            let mut found: Vec<Diagnostic> = Vec::new();
            found.push(
                Diagnostic {
                    line: 10,
                    column: 5,
                    end_line: 10,
                    end_column: 15,
                    severity: DiagnosticSeverity::Error,
                    code: Some("E0001".to_owned()),
                    source: Some(language_id.to_owned()),
                    message: "Undefined variable 'someVar'".to_owned(),
                },
            );
            found.push(
                Diagnostic {
                    line: 15,
                    column: 10,
                    end_line: 15,
                    end_column: 20,
                    severity: DiagnosticSeverity::Warning,
                    code: Some("W0001".to_owned()),
                    source: Some(language_id.to_owned()),
                    message: "Unused variable".to_owned(),
                },
            );
            assert(found.deep_view() =~= diagnostics_for(language_id@));
            Ok(found)
        },
        None => Err(LspError::NotRunning(language_id.to_owned())),
    }
}

} // verus!
