//! The state of a project's Git repository, as far as the editor shows it.
//!
//! The answers are fixed samples. Whether a directory is a repository is
//! found out by the caller, who looks for its `.git` directory.

pub mod commands;

use vstd::prelude::*;

verus! {

/// What has happened to a file since the last commit.
#[derive(Clone, Copy, Debug, PartialEq, Eq, Structural)]
pub enum FileStatus {
    Modified,
    Added,
    Deleted,
    Renamed,
    Copied,
    Untracked,
    Ignored,
    Conflicted,
}

/// A file and its status.
#[derive(Clone, Debug, PartialEq, Eq)]
pub struct StatusEntry {
    pub path: String,
    pub status: FileStatus,
}

/// A status entry with its path as a sequence of characters.
pub struct StatusEntryView {
    pub path: Seq<char>,
    pub status: FileStatus,
}

impl DeepView for StatusEntry {
    type V = StatusEntryView;

    open spec fn deep_view(&self) -> StatusEntryView {
        StatusEntryView { path: self.path@, status: self.status }
    }
}

/// A branch of the repository.
#[derive(Clone, Debug, PartialEq, Eq)]
pub struct BranchInfo {
    pub name: String,
    pub is_current: bool,
    pub is_remote: bool,
    pub remote: Option<String>,
}

/// A branch with its texts as sequences of characters.
pub struct BranchInfoView {
    pub name: Seq<char>,
    pub is_current: bool,
    pub is_remote: bool,
    pub remote: Option<Seq<char>>,
}

impl DeepView for BranchInfo {
    type V = BranchInfoView;

    open spec fn deep_view(&self) -> BranchInfoView {
        BranchInfoView {
            name: self.name@,
            is_current: self.is_current,
            is_remote: self.is_remote,
            remote: self.remote.deep_view(),
        }
    }
}

/// A commit of the repository.
#[derive(Clone, Debug, PartialEq, Eq)]
pub struct CommitInfo {
    pub hash: String,
    pub short_hash: String,
    pub author: String,
    pub date: String,
    pub message: String,
}

/// A commit with its texts as sequences of characters.
pub struct CommitInfoView {
    pub hash: Seq<char>,
    pub short_hash: Seq<char>,
    pub author: Seq<char>,
    pub date: Seq<char>,
    pub message: Seq<char>,
}

impl DeepView for CommitInfo {
    type V = CommitInfoView;

    open spec fn deep_view(&self) -> CommitInfoView {
        CommitInfoView {
            hash: self.hash@,
            short_hash: self.short_hash@,
            author: self.author@,
            date: self.date@,
            message: self.message@,
        }
    }
}

/// The message for a request about a directory that is no repository.
pub open spec fn not_a_repository() -> Seq<char> {
    "Not a Git repository"@
}

fn refuse<T>() -> (r: Result<T, String>)
    ensures
        r is Err,
        r->Err_0@ == not_a_repository(),
{
    Err("Not a Git repository".to_owned())
}

/// The status that is reported for a repository.
pub open spec fn sample_status() -> Seq<StatusEntryView> {
    seq![
        StatusEntryView { path: "src/main.rs"@, status: FileStatus::Modified },
        StatusEntryView { path: "docs/README.md"@, status: FileStatus::Modified },
        StatusEntryView { path: "new_file.txt"@, status: FileStatus::Untracked },
    ]
}

/// The status of the files of a repository. Fails for a directory that is
/// none.
pub fn get_repo_status(is_repo: bool) -> (r: Result<Vec<StatusEntry>, String>)
    ensures
        match r {
            Ok(entries) => is_repo && entries.deep_view() == sample_status(),
            Err(message) => !is_repo && message@ == not_a_repository(),
        },
{
    if !is_repo {
        return refuse();
    }
    let mut entries: Vec<StatusEntry> = Vec::new();
    entries.push(StatusEntry { path: "src/main.rs".to_owned(), status: FileStatus::Modified });
    entries.push(StatusEntry { path: "docs/README.md".to_owned(), status: FileStatus::Modified });
    entries.push(StatusEntry { path: "new_file.txt".to_owned(), status: FileStatus::Untracked });
    assert(entries.deep_view() =~= sample_status());
    Ok(entries)
}

/// The branches that are reported for a repository.
pub open spec fn sample_branches() -> Seq<BranchInfoView> {
    seq![
        BranchInfoView { name: "main"@, is_current: true, is_remote: false, remote: None },
        BranchInfoView { name: "develop"@, is_current: false, is_remote: false, remote: None },
        BranchInfoView {
            name: "origin/main"@,
            is_current: false,
            is_remote: true,
            remote: Some("origin"@),
        },
    ]
}

/// The branches of a repository. Fails for a directory that is none.
pub fn get_branches(is_repo: bool) -> (r: Result<Vec<BranchInfo>, String>)
    ensures
        match r {
            Ok(branches) => is_repo && branches.deep_view() == sample_branches(),
            Err(message) => !is_repo && message@ == not_a_repository(),
        },
{
    if !is_repo {
        return refuse();
    }
    let mut branches: Vec<BranchInfo> = Vec::new();
    branches.push(
        BranchInfo { name: "main".to_owned(), is_current: true, is_remote: false, remote: None },
    );
    branches.push(
        BranchInfo {
            name: "develop".to_owned(),
            is_current: false,
            is_remote: false,
            remote: None,
        },
    );
    branches.push(
        BranchInfo {
            name: "origin/main".to_owned(),
            is_current: false,
            is_remote: true,
            remote: Some("origin".to_owned()),
        },
    );
    assert(branches.deep_view() =~= sample_branches());
    Ok(branches)
}

/// The commits that are reported for a repository, the newest first.
pub open spec fn sample_commits() -> Seq<CommitInfoView> {
    seq![
        CommitInfoView {
            hash: "abcdef1234567890abcdef1234567890abcdef12"@,
            short_hash: "abcdef1"@,
            author: "John Doe <john@example.com>"@,
            date: "2025-06-28T12:34:56Z"@,
            message: "Fix bug in file processing"@,
        },
        CommitInfoView {
            hash: "1234567890abcdef1234567890abcdef12345678"@,
            short_hash: "1234567"@,
            author: "Jane Smith <jane@example.com>"@,
            date: "2025-06-27T15:45:23Z"@,
            message: "Add new feature"@,
        },
    ]
}

/// The first `limit` of `commits`, or all of them where there are fewer.
pub open spec fn newest(commits: Seq<CommitInfoView>, limit: usize) -> Seq<CommitInfoView> {
    if limit < commits.len() {
        commits.take(limit as int)
    } else {
        commits
    }
}

/// The newest commits of a repository, at most `limit` of them. Fails for
/// a directory that is no repository.
pub fn get_commits(is_repo: bool, limit: usize) -> (r: Result<Vec<CommitInfo>, String>)
    ensures
        match r {
            Ok(commits) => is_repo && commits.deep_view() == newest(sample_commits(), limit),
            Err(message) => !is_repo && message@ == not_a_repository(),
        },
{
    if !is_repo {
        return refuse();
    }
    let mut commits: Vec<CommitInfo> = Vec::new();
    commits.push(
        CommitInfo {
            hash: "abcdef1234567890abcdef1234567890abcdef12".to_owned(),
            short_hash: "abcdef1".to_owned(),
            author: "John Doe <john@example.com>".to_owned(),
            date: "2025-06-28T12:34:56Z".to_owned(),
            message: "Fix bug in file processing".to_owned(),
        },
    );
    commits.push(
        CommitInfo {
            hash: "1234567890abcdef1234567890abcdef12345678".to_owned(),
            short_hash: "1234567".to_owned(),
            author: "Jane Smith <jane@example.com>".to_owned(),
            date: "2025-06-27T15:45:23Z".to_owned(),
            message: "Add new feature".to_owned(),
        },
    );
    assert(commits.deep_view() =~= sample_commits());
    if limit < commits.len() {
        let ghost all = commits.deep_view();
        commits.truncate(limit);
        assert(commits.deep_view() =~= all.take(limit as int));
    }
    Ok(commits)
}

} // verus!
