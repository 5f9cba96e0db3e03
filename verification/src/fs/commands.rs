//! Listing a directory as the editor asks for it.

use vstd::prelude::*;

verus! {

/// The answer to a request to list `path`, from what the disk says of it:
/// nothing stands against it, or the message of what does.
pub open spec fn listing_refusal(path: Seq<char>, exists: bool, is_dir: bool) -> Option<Seq<char>> {
    if !exists {
        Some("Path does not exist: "@ + path)
    } else if !is_dir {
        Some("Path is not a directory: "@ + path)
    } else {
        None
    }
}

/// Decides whether `path` can be listed: it has to exist and to be a
/// directory.
pub fn check_listable(path: &str, exists: bool, is_dir: bool) -> (r: Result<(), String>)
    ensures
        match r {
            Ok(_) => listing_refusal(path@, exists, is_dir) is None,
            Err(message) => listing_refusal(path@, exists, is_dir) == Some(message@),
        },
{
    if !exists {
        Err("Path does not exist: ".to_owned().concat(path))
    } else if !is_dir {
        Err("Path is not a directory: ".to_owned().concat(path))
    } else {
        Ok(())
    }
}

} // verus!
