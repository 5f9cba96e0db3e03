//! Files as the editor sees them: what is known of one file, and change
//! detection for watched paths. Reading the disk is the caller's part.

pub mod changes;
pub mod commands;
pub mod watcher;

use vstd::prelude::*;
use crate::fs::watcher::ModTime;
use crate::text::{file_name_of, path_file_name};

verus! {

/// What the editor shows of a file or directory.
#[derive(Clone, Debug, PartialEq, Eq)]
pub struct FileInfo {
    pub name: String,
    pub path: String,
    pub is_dir: bool,
    pub size: u64,
    pub modified: Option<String>,
}

/// A file's information with its texts as sequences of characters.
pub struct FileInfoView {
    pub name: Seq<char>,
    pub path: Seq<char>,
    pub is_dir: bool,
    pub size: u64,
    pub modified: Option<Seq<char>>,
}

impl DeepView for FileInfo {
    type V = FileInfoView;

    open spec fn deep_view(&self) -> FileInfoView {
        FileInfoView {
            name: self.name@,
            path: self.path@,
            is_dir: self.is_dir,
            size: self.size,
            modified: self.modified.deep_view(),
        }
    }
}

/// A moment written as RFC 3339 prescribes, in UTC; nothing for a moment
/// that the calendar used does not reach.
pub uninterp spec fn rfc3339_of(secs: i64, nanos: u32) -> Option<Seq<char>>;

/// chrono's `DateTime::to_rfc3339`, on the moment that
/// `DateTime::from_timestamp` makes of seconds and nanoseconds since the
/// Unix epoch. The contract gives the text a name and says nothing more of
/// it; there is none where `from_timestamp` finds the moment out of range.
#[verifier::external_body]
fn rfc3339(secs: i64, nanos: u32) -> (r: Option<String>)
    ensures
        r.deep_view() == rfc3339_of(secs, nanos),
{
    match chrono::DateTime::from_timestamp(secs, nanos) {
        Some(moment) => Some(moment.to_rfc3339()),
        None => None,
    }
}

/// The name under which a path is shown when `file_name` is its last
/// component: that component, or a dot for a path without one.
pub open spec fn shown_name(file_name: Option<Seq<char>>) -> Seq<char> {
    match file_name {
        Some(name) => name,
        None => "."@,
    }
}

impl FileInfo {
    /// The information on a path whose last component is `file_name` and
    /// whose modification time is written as `modified`.
    pub fn describe(
        path: &str,
        file_name: Option<String>,
        is_dir: bool,
        size: u64,
        modified: Option<String>,
    ) -> (r: Self)
        ensures
            r.deep_view() == (FileInfoView {
                name: shown_name(file_name.deep_view()),
                path: path@,
                is_dir,
                size,
                modified: modified.deep_view(),
            }),
    {
        let name = match file_name {
            Some(name) => name,
            None => ".".to_owned(),
        };
        FileInfo { name, path: path.to_owned(), is_dir, size, modified }
    }

    /// The information on `path`, from what its metadata says: whether it
    /// is a directory, its size, and its modification time where that
    /// could be read. The name is the path's last component, or a dot; the
    /// time is written as RFC 3339 prescribes.
    pub fn from_path(path: &str, is_dir: bool, size: u64, modified: Option<ModTime>) -> (r: Self)
        ensures
            r.deep_view() == (FileInfoView {
                name: shown_name(file_name_of(path@)),
                path: path@,
                is_dir,
                size,
                modified: match modified {
                    Some(time) => rfc3339_of(time.secs, time.nanos),
                    None => None,
                },
            }),
    {
        let written = match modified {
            Some(time) => rfc3339(time.secs, time.nanos),
            None => None,
        };
        FileInfo::describe(path, path_file_name(path), is_dir, size, written)
    }
}

} // verus!
