//! Changes to a repository as the editor asks for them.

use vstd::prelude::*;
use crate::git::{CommitInfo, CommitInfoView};

verus! {

/// chrono's `Utc::now` and `DateTime::to_rfc3339`: the present moment as
/// text. The result depends on the clock, so the contract says nothing of
/// it.
#[verifier::external_body]
fn now_rfc3339() -> (r: String) {
    chrono::Utc::now().to_rfc3339()
}

/// The commit that is reported for a commit made at `date` with `message`.
pub open spec fn recorded_commit(message: Seq<char>, date: Seq<char>) -> CommitInfoView {
    CommitInfoView {
        hash: "0000000000000000000000000000000000000000"@,
        short_hash: "0000000"@,
        author: "Current User <user@example.com>"@,
        date,
        message,
    }
}

/// Records a commit that was made at `date`.
pub fn commit_at(message: String, date: String) -> (r: CommitInfo)
    ensures
        r.deep_view() == recorded_commit(message@, date@),
{
    CommitInfo {
        hash: "0000000000000000000000000000000000000000".to_owned(),
        short_hash: "0000000".to_owned(),
        author: "Current User <user@example.com>".to_owned(),
        date,
        message,
    }
}

/// Records a commit that is made now, in the repository at `path`. The
/// repository is not touched yet.
#[allow(unused_variables)]
pub fn commit(path: &str, message: String) -> (r: Result<CommitInfo, String>)
    ensures
        r is Ok,
        r->Ok_0.deep_view() == recorded_commit(message@, r->Ok_0.date@),
{
    Ok(commit_at(message, now_rfc3339()))
}

} // verus!
