use turkcode::fs::commands::check_listable;
use turkcode::fs::watcher::ModTime;
use turkcode::fs::FileInfo;

#[test]
fn file_information_from_metadata() {
    let info = FileInfo::from_path(
        "/home/me/notes.txt",
        false,
        1234,
        Some(ModTime { secs: 1431648000, nanos: 0 }),
    );
    assert_eq!(
        info,
        FileInfo {
            name: "notes.txt".to_string(),
            path: "/home/me/notes.txt".to_string(),
            is_dir: false,
            size: 1234,
            modified: Some("2015-05-15T00:00:00+00:00".to_string()),
        }
    );
}

#[test]
fn directory_information() {
    let info = FileInfo::from_path("/home/me/src/", true, 4096, None);
    assert_eq!(info.name, "src");
    assert_eq!(info.path, "/home/me/src/");
    assert!(info.is_dir);
    assert_eq!(info.size, 4096);
    assert_eq!(info.modified, None);
}

#[test]
fn path_without_a_last_component_is_shown_as_a_dot() {
    assert_eq!(FileInfo::from_path("/", true, 0, None).name, ".");
    assert_eq!(FileInfo::from_path("..", true, 0, None).name, ".");
    assert_eq!(FileInfo::from_path("a/..", true, 0, None).name, ".");
    assert_eq!(FileInfo::from_path("", false, 0, None).name, ".");
}

#[test]
fn modification_time_is_written_in_utc() {
    let epoch = FileInfo::from_path("a", false, 0, Some(ModTime { secs: 0, nanos: 0 }));
    assert_eq!(epoch.modified, Some("1970-01-01T00:00:00+00:00".to_string()));
    let before = FileInfo::from_path("a", false, 0, Some(ModTime { secs: -1, nanos: 0 }));
    assert_eq!(before.modified, Some("1969-12-31T23:59:59+00:00".to_string()));
    let later = FileInfo::from_path("a", false, 0, Some(ModTime { secs: 1751366096, nanos: 0 }));
    assert_eq!(later.modified, Some("2025-07-01T10:34:56+00:00".to_string()));
}

#[test]
fn fractions_of_a_second_are_written_as_far_as_they_go() {
    let millis = FileInfo::from_path("a", false, 0, Some(ModTime { secs: 0, nanos: 500_000_000 }));
    assert_eq!(millis.modified, Some("1970-01-01T00:00:00.500+00:00".to_string()));
    let micros = FileInfo::from_path("a", false, 0, Some(ModTime { secs: 0, nanos: 1_000 }));
    assert_eq!(micros.modified, Some("1970-01-01T00:00:00.000001+00:00".to_string()));
    let nanos = FileInfo::from_path("a", false, 0, Some(ModTime { secs: 0, nanos: 1 }));
    assert_eq!(nanos.modified, Some("1970-01-01T00:00:00.000000001+00:00".to_string()));
}

#[test]
fn moment_out_of_the_calendar_has_no_text() {
    let far = FileInfo::from_path("a", false, 0, Some(ModTime { secs: i64::MAX, nanos: 0 }));
    assert_eq!(far.modified, None);
    let odd = FileInfo::from_path("a", false, 0, Some(ModTime { secs: 0, nanos: 2_000_000_000 }));
    assert_eq!(odd.modified, None);
}

#[test]
fn described_file_keeps_what_it_is_given() {
    let info = FileInfo::describe("/p/a", Some("a".to_string()), false, 7, Some("then".to_string()));
    assert_eq!(
        info,
        FileInfo {
            name: "a".to_string(),
            path: "/p/a".to_string(),
            is_dir: false,
            size: 7,
            modified: Some("then".to_string()),
        }
    );
    assert_eq!(FileInfo::describe("/", None, true, 0, None).name, ".");
}

#[test]
fn existing_directory_can_be_listed() {
    assert_eq!(check_listable("/home/me", true, true), Ok(()));
}

#[test]
fn missing_path_cannot_be_listed() {
    assert_eq!(
        check_listable("/home/nobody", false, false),
        Err("Path does not exist: /home/nobody".to_string())
    );
    assert_eq!(
        check_listable("/home/nobody", false, true),
        Err("Path does not exist: /home/nobody".to_string())
    );
}

#[test]
fn file_cannot_be_listed() {
    assert_eq!(
        check_listable("/home/me/a.txt", true, false),
        Err("Path is not a directory: /home/me/a.txt".to_string())
    );
}
