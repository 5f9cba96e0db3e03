use turkcode::editor::commands::{get_syntax_highlighting, highlighting_for};
use turkcode::editor::syntax::{get_language_id_from_path, language_id_for_extension, lookup_language};
use turkcode::editor::{Document, DocumentManager};

#[test]
fn new_document_is_version_one_and_clean() {
    let document = Document::new(Some("/p/a.rs".to_string()), "rust", "fn main() {}");
    assert_eq!(
        document,
        Document {
            path: Some("/p/a.rs".to_string()),
            language_id: "rust".to_string(),
            version: 1,
            content: "fn main() {}".to_string(),
            dirty: false,
        }
    );
}

#[test]
fn new_document_may_have_no_path() {
    let document = Document::new(None, "plaintext", "");
    assert_eq!(document.path, None);
    assert_eq!(document.content, "");
    assert_eq!(document.version, 1);
}

#[test]
fn update_raises_the_version_and_marks_unsaved() {
    let mut document = Document::new(None, "rust", "a");
    document.update_content("b");
    assert_eq!(document.content, "b");
    assert_eq!(document.version, 2);
    assert!(document.dirty);
    document.update_content("b");
    assert_eq!(document.version, 3);
    assert_eq!(document.language_id, "rust");
}

#[test]
fn save_clears_only_the_dirty_flag() {
    let mut document = Document::new(Some("/p/a".to_string()), "rust", "a");
    document.update_content("b");
    document.save();
    assert!(!document.dirty);
    assert_eq!(document.version, 2);
    assert_eq!(document.content, "b");
    assert_eq!(document.path, Some("/p/a".to_string()));
}

#[test]
fn duplicate_is_equal() {
    let mut document = Document::new(Some("/p/a".to_string()), "go", "package main");
    document.update_content("package x");
    assert_eq!(document.duplicate(), document);
}

#[test]
fn opened_document_can_be_read() {
    let mut manager = DocumentManager::new();
    assert_eq!(manager.open_document("file:///a.rs", Some("/a.rs".to_string()), "rust", "x"), Ok(()));
    assert_eq!(
        manager.get_document("file:///a.rs"),
        Some(Document::new(Some("/a.rs".to_string()), "rust", "x"))
    );
    assert_eq!(manager.get_document("file:///b.rs"), None);
}

#[test]
fn opening_again_replaces_the_document() {
    let mut manager = DocumentManager::new();
    let _ = manager.open_document("u", None, "rust", "x");
    let _ = manager.update_document("u", "y");
    assert_eq!(manager.open_document("u", None, "go", "z"), Ok(()));
    assert_eq!(manager.get_document("u"), Some(Document::new(None, "go", "z")));
}

#[test]
fn update_of_an_open_document() {
    let mut manager = DocumentManager::new();
    let _ = manager.open_document("u", Some("/u".to_string()), "rust", "x");
    let _ = manager.open_document("v", None, "go", "v");
    assert_eq!(manager.update_document("u", "y"), Ok(()));
    let document = manager.get_document("u").unwrap();
    assert_eq!(document.content, "y");
    assert_eq!(document.version, 2);
    assert!(document.dirty);
    assert_eq!(document.path, Some("/u".to_string()));
    assert_eq!(document.language_id, "rust");
    assert_eq!(manager.get_document("v"), Some(Document::new(None, "go", "v")));
}

#[test]
fn update_of_an_unknown_document_fails() {
    let mut manager = DocumentManager::new();
    assert_eq!(
        manager.update_document("file:///a.rs", "y"),
        Err("Document not found: file:///a.rs".to_string())
    );
    assert_eq!(manager.get_document("file:///a.rs"), None);
}

#[test]
fn close_of_an_open_document() {
    let mut manager = DocumentManager::new();
    let _ = manager.open_document("u", None, "rust", "x");
    let _ = manager.open_document("v", None, "go", "v");
    assert_eq!(manager.close_document("u"), Ok(()));
    assert_eq!(manager.get_document("u"), None);
    assert!(manager.get_document("v").is_some());
}

#[test]
fn close_of_an_unknown_document_fails() {
    let mut manager = DocumentManager::new();
    assert_eq!(manager.close_document("u"), Err("Document not found: u".to_string()));
    let _ = manager.open_document("u", None, "rust", "x");
    assert_eq!(manager.close_document("u"), Ok(()));
    assert_eq!(manager.close_document("u"), Err("Document not found: u".to_string()));
}

#[test]
fn table_of_extensions() {
    let table = [
        ("js", "javascript"),
        ("jsx", "javascriptreact"),
        ("ts", "typescript"),
        ("tsx", "typescriptreact"),
        ("c", "c"),
        ("cpp", "cpp"),
        ("h", "c"),
        ("hpp", "cpp"),
        ("html", "html"),
        ("css", "css"),
        ("scss", "scss"),
        ("sass", "sass"),
        ("py", "python"),
        ("rs", "rust"),
        ("go", "go"),
        ("java", "java"),
        ("php", "php"),
        ("json", "json"),
        ("md", "markdown"),
        ("xml", "xml"),
        ("yaml", "yaml"),
        ("yml", "yaml"),
    ];
    for (extension, language_id) in table {
        assert_eq!(lookup_language(extension), Some(language_id.to_string()));
    }
}

#[test]
fn lookup_takes_the_extension_as_it_is() {
    assert_eq!(lookup_language("RS"), None);
    assert_eq!(lookup_language(".rs"), None);
    assert_eq!(lookup_language(""), None);
    assert_eq!(lookup_language("txt"), None);
}

#[test]
fn extension_is_looked_up_in_lowercase() {
    assert_eq!(language_id_for_extension("RS"), Some("rust".to_string()));
    assert_eq!(language_id_for_extension("Yml"), Some("yaml".to_string()));
    assert_eq!(language_id_for_extension("py"), Some("python".to_string()));
    assert_eq!(language_id_for_extension("TXT"), None);
}

#[test]
fn language_of_a_path() {
    assert_eq!(get_language_id_from_path("src/main.rs"), Some("rust".to_string()));
    assert_eq!(get_language_id_from_path("/p/Index.HTML"), Some("html".to_string()));
    assert_eq!(get_language_id_from_path("a.test.tsx"), Some("typescriptreact".to_string()));
    assert_eq!(get_language_id_from_path("README.md"), Some("markdown".to_string()));
}

#[test]
fn path_without_a_known_extension_has_no_language() {
    assert_eq!(get_language_id_from_path("Makefile"), None);
    assert_eq!(get_language_id_from_path(".rs"), None);
    assert_eq!(get_language_id_from_path("dir.rs/file"), None);
    assert_eq!(get_language_id_from_path("notes.txt"), None);
    assert_eq!(get_language_id_from_path("main.rs."), None);
    assert_eq!(get_language_id_from_path(""), None);
}

#[test]
fn highlighting_names_the_language() {
    let result = get_syntax_highlighting("src/lib.rs", "fn f() {}").unwrap();
    assert_eq!(result.language_id, "rust");
    assert!(result.tokens.is_empty());
}

#[test]
fn highlighting_falls_back_to_plain_text() {
    let result = get_syntax_highlighting("LICENSE", "text").unwrap();
    assert_eq!(result.language_id, "plaintext");
    assert!(result.tokens.is_empty());
    assert_eq!(highlighting_for(None).language_id, "plaintext");
    assert_eq!(highlighting_for(Some("go".to_string())).language_id, "go");
}
