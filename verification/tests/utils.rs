use turkcode::utils::{
    contains_null_byte, find_project_root, get_untitled_filename, has_binary_extension,
    is_binary_extension, project_markers, DirProbe,
};

fn probe(path: &str, has_marker: bool) -> DirProbe {
    DirProbe { path: path.to_string(), has_marker }
}

#[test]
fn first_untitled_name() {
    assert_eq!(get_untitled_filename(&[]), "Untitled-1.txt");
    assert_eq!(get_untitled_filename(&["notes.txt".to_string()]), "Untitled-1.txt");
}

#[test]
fn least_free_number_is_taken() {
    let existing = vec![
        "Untitled-1.txt".to_string(),
        "Untitled-2.txt".to_string(),
        "Untitled-4.txt".to_string(),
    ];
    assert_eq!(get_untitled_filename(&existing), "Untitled-3.txt");
    assert_eq!(get_untitled_filename(&existing[1..]), "Untitled-1.txt");
}

#[test]
fn numbers_are_written_in_decimal() {
    let nine: Vec<String> = (1..10).map(|i| format!("Untitled-{}.txt", i)).collect();
    assert_eq!(get_untitled_filename(&nine), "Untitled-10.txt");
    let many: Vec<String> = (1..100).map(|i| format!("Untitled-{}.txt", i)).collect();
    assert_eq!(get_untitled_filename(&many), "Untitled-100.txt");
    let most: Vec<String> = (1..999).map(|i| format!("Untitled-{}.txt", i)).collect();
    assert_eq!(get_untitled_filename(&most), "Untitled-999.txt");
}

#[test]
fn padded_numbers_are_other_names() {
    let existing = vec!["Untitled-01.txt".to_string(), "untitled-1.txt".to_string()];
    assert_eq!(get_untitled_filename(&existing), "Untitled-1.txt");
}

#[test]
fn name_without_a_number_when_all_are_taken() {
    let all: Vec<String> = (1..1000).map(|i| format!("Untitled-{}.txt", i)).collect();
    assert_eq!(get_untitled_filename(&all), "Untitled.txt");
    let mut more = all.clone();
    more.push("Untitled.txt".to_string());
    more.push("Untitled-1000.txt".to_string());
    assert_eq!(get_untitled_filename(&more), "Untitled.txt");
}

#[test]
fn markers_of_a_project_root() {
    assert_eq!(
        project_markers(),
        vec![".git", "package.json", "Cargo.toml", "go.mod", "pom.xml", ".sln", "requirements.txt"]
    );
}

#[test]
fn nearest_marked_directory_is_the_root() {
    let ancestors = vec![
        probe("/a/b/c", false),
        probe("/a/b", true),
        probe("/a", true),
        probe("/", false),
    ];
    assert_eq!(find_project_root("/a/b/c", &ancestors), Some("/a/b".to_string()));
}

#[test]
fn start_directory_can_be_the_root() {
    let ancestors = vec![probe("/a/b", true), probe("/a", false), probe("/", false)];
    assert_eq!(find_project_root("/a/b", &ancestors), Some("/a/b".to_string()));
}

#[test]
fn start_directory_is_the_root_where_nothing_is_marked() {
    let ancestors = vec![probe("/a/b", false), probe("/a", false), probe("/", false)];
    assert_eq!(find_project_root("/a/b", &ancestors), Some("/a/b".to_string()));
    assert_eq!(find_project_root("/a/b", &[]), Some("/a/b".to_string()));
}

#[test]
fn filesystem_root_can_be_the_project_root() {
    let ancestors = vec![probe("/a", false), probe("/", true)];
    assert_eq!(find_project_root("/a", &ancestors), Some("/".to_string()));
}

#[test]
fn binary_extensions() {
    let binary = [
        "exe", "dll", "obj", "bin", "png", "jpg", "jpeg", "gif", "zip", "tar", "gz", "7z", "rar",
        "pdf", "doc", "docx", "xls", "xlsx",
    ];
    for extension in binary {
        assert!(is_binary_extension(extension));
    }
    for extension in ["txt", "rs", "", "PNG", "svg", "exe ", "tar.gz"] {
        assert!(!is_binary_extension(extension));
    }
}

#[test]
fn binary_by_the_extension_of_the_path() {
    assert!(has_binary_extension("/p/image.png"));
    assert!(has_binary_extension("/p/IMAGE.PNG"));
    assert!(has_binary_extension("archive.tar.gz"));
    assert!(has_binary_extension("Report.Docx"));
    assert!(!has_binary_extension("/p/main.rs"));
    assert!(!has_binary_extension("/p/png"));
    assert!(!has_binary_extension(".png"));
    assert!(!has_binary_extension("image.png/readme"));
    assert!(!has_binary_extension(""));
}

#[test]
fn null_byte_marks_binary_content() {
    assert!(contains_null_byte(&[0]));
    assert!(contains_null_byte(&[1, 2, 0, 3]));
    assert!(contains_null_byte(&[1, 2, 3, 0]));
    assert!(!contains_null_byte(&[]));
    assert!(!contains_null_byte(b"plain text\n"));
    assert!(!contains_null_byte(&[255, 1, 128]));
}
