use turkcode::git::commands::{commit, commit_at};
use turkcode::git::{
    get_branches, get_commits, get_repo_status, BranchInfo, CommitInfo, FileStatus, StatusEntry,
};

fn first_commit() -> CommitInfo {
    CommitInfo {
        hash: "abcdef1234567890abcdef1234567890abcdef12".to_string(),
        short_hash: "abcdef1".to_string(),
        author: "John Doe <john@example.com>".to_string(),
        date: "2025-06-28T12:34:56Z".to_string(),
        message: "Fix bug in file processing".to_string(),
    }
}

fn second_commit() -> CommitInfo {
    CommitInfo {
        hash: "1234567890abcdef1234567890abcdef12345678".to_string(),
        short_hash: "1234567".to_string(),
        author: "Jane Smith <jane@example.com>".to_string(),
        date: "2025-06-27T15:45:23Z".to_string(),
        message: "Add new feature".to_string(),
    }
}

#[test]
fn status_of_a_repository() {
    assert_eq!(
        get_repo_status(true),
        Ok(vec![
            StatusEntry { path: "src/main.rs".to_string(), status: FileStatus::Modified },
            StatusEntry { path: "docs/README.md".to_string(), status: FileStatus::Modified },
            StatusEntry { path: "new_file.txt".to_string(), status: FileStatus::Untracked },
        ])
    );
}

#[test]
fn branches_of_a_repository() {
    assert_eq!(
        get_branches(true),
        Ok(vec![
            BranchInfo {
                name: "main".to_string(),
                is_current: true,
                is_remote: false,
                remote: None,
            },
            BranchInfo {
                name: "develop".to_string(),
                is_current: false,
                is_remote: false,
                remote: None,
            },
            BranchInfo {
                name: "origin/main".to_string(),
                is_current: false,
                is_remote: true,
                remote: Some("origin".to_string()),
            },
        ])
    );
}

#[test]
fn commits_up_to_the_limit() {
    assert_eq!(get_commits(true, 0), Ok(Vec::new()));
    assert_eq!(get_commits(true, 1), Ok(vec![first_commit()]));
    assert_eq!(get_commits(true, 2), Ok(vec![first_commit(), second_commit()]));
    assert_eq!(get_commits(true, 3), Ok(vec![first_commit(), second_commit()]));
    assert_eq!(get_commits(true, usize::MAX), Ok(vec![first_commit(), second_commit()]));
}

#[test]
fn directory_without_a_repository_is_refused() {
    assert_eq!(get_repo_status(false), Err("Not a Git repository".to_string()));
    assert_eq!(get_branches(false), Err("Not a Git repository".to_string()));
    assert_eq!(get_commits(false, 5), Err("Not a Git repository".to_string()));
    assert_eq!(get_commits(false, 0), Err("Not a Git repository".to_string()));
}

#[test]
fn commit_is_recorded_with_its_message_and_date() {
    assert_eq!(
        commit_at("Add tests".to_string(), "2025-07-01T08:00:00+00:00".to_string()),
        CommitInfo {
            hash: "0000000000000000000000000000000000000000".to_string(),
            short_hash: "0000000".to_string(),
            author: "Current User <user@example.com>".to_string(),
            date: "2025-07-01T08:00:00+00:00".to_string(),
            message: "Add tests".to_string(),
        }
    );
}

#[test]
fn commit_made_now_is_dated_in_utc() {
    let info = commit("/p", "Add tests".to_string()).unwrap();
    assert_eq!(info.message, "Add tests");
    assert_eq!(info.hash, "0000000000000000000000000000000000000000");
    assert_eq!(info.short_hash, "0000000");
    assert_eq!(info.author, "Current User <user@example.com>");
    assert!(info.date.ends_with("+00:00"));
    assert_eq!(&info.date[4..5], "-");
    assert_eq!(&info.date[10..11], "T");
}
