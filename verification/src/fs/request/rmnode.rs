//! Removing a node.
use vstd::prelude::*;

use crate::db::entity::FsAddressRow;
use crate::fs::request::{DBFSErr, Errno};
use crate::text::same_text;

verus! {

/// Removing refuses a directory that has an address, or a file that has none.
pub open spec fn removal_refused(is_dir: bool, addr: Option<FsAddressRow>) -> bool {
    (is_dir && addr is Some) || (!is_dir && addr is None)
}

/// Removing refuses (`EPERM`) a directory that has an address or a file
/// that has none: a directory is a node without an address.
pub fn removal_allowed<E>(is_dir: bool, addr: &Option<FsAddressRow>) -> (r: Result<(), DBFSErr<E>>)
    ensures
        r == if removal_refused(is_dir, *addr) {
            Err::<(), DBFSErr<E>>(DBFSErr(Errno::EPERM, None))
        } else {
            Ok::<(), DBFSErr<E>>(())
        },
{
    if (is_dir && addr.is_some()) || (!is_dir && addr.is_none()) {
        Err(DBFSErr(Errno::EPERM, None))
    } else {
        Ok(())
    }
}

/// What is left to do once a node is deleted.
#[derive(Debug, Clone, Copy, PartialEq, Eq, Structural)]
pub enum RemovalFollowUp {
    /// Nothing: the removal is complete.
    Done,
    /// The node held a note, whose removal is not supported.
    NoteContent,
}

/// After deleting a node: a node that held a note leaves its note behind,
/// which is not supported; any other removal is complete.
pub fn removal_follow_up(addr: &Option<FsAddressRow>) -> (r: RemovalFollowUp)
    ensures
        r == if addr matches Some(a) && a.address_for@ == "note"@ {
            RemovalFollowUp::NoteContent
        } else {
            RemovalFollowUp::Done
        },
{
    match addr {
        Some(a) => if same_text(a.address_for.as_str(), "note") {
            RemovalFollowUp::NoteContent
        } else {
            RemovalFollowUp::Done
        },
        None => RemovalFollowUp::Done,
    }
}

} // verus!
