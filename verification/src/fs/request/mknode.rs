//! What a new node and its address are made of.
use vstd::prelude::*;

use crate::db::entity::FsAddressRow;
use crate::fs::request::{DBFSErr, Errno};

verus! {

/// The stored fields of a node about to be made; the store fills in the rest.
#[derive(Debug)]
pub struct FsNodeDraft {
    pub name: String,
    pub parent_node_key: Option<i64>,
    pub user_id: i64,
    pub group_id: i64,
    pub permission_flags: i64,
}

/// The stored fields of a file address about to be made.
#[derive(Debug)]
pub struct FsAddressDraft {
    pub node_key: i64,
    pub address_for: String,
}

impl FsAddressDraft {
    /// The row the store would hold for this draft: the columns it does not
    /// set are empty.
    pub open spec fn stored_row(self) -> FsAddressRow {
        FsAddressRow {
            node_key: self.node_key,
            address_for: self.address_for,
            raw_file_data: None,
            note_key: None,
            symlink_path: None,
        }
    }
}

/// A new node named `name` under the node `parent`, owned by `user_id` and
/// `group_id`, with permission bits `perm`.
pub fn new_node(parent: u64, name: String, user_id: u32, group_id: u32, perm: u32) -> (r: FsNodeDraft)
    ensures
        r.name == name,
        r.parent_node_key == Some(parent as i64),
        r.user_id == user_id as i64,
        r.group_id == group_id as i64,
        r.permission_flags == perm as i64,
{
    FsNodeDraft {
        name,
        parent_node_key: Some(parent as i64),
        user_id: user_id as i64,
        group_id: group_id as i64,
        permission_flags: perm as i64,
    }
}

/// The address a new node gets: a directory none, a file an `unset_file`
/// address of its own.
pub fn new_node_address(node_key: i64, is_dir: bool) -> (r: Option<FsAddressDraft>)
    ensures
        is_dir ==> r is None,
        !is_dir ==> (r matches Some(a) && a.node_key == node_key && a.address_for@ == "unset_file"@),
{
    if is_dir {
        None
    } else {
        Some(FsAddressDraft { node_key, address_for: "unset_file".to_owned() })
    }
}

/// The key the store gave a saved node; none given is `EIO`.
pub fn saved_node_key<E>(key: Option<i64>) -> (r: Result<i64, DBFSErr<E>>)
    ensures
        r == match key {
            Some(k) => Ok::<i64, DBFSErr<E>>(k),
            None => Err::<i64, DBFSErr<E>>(DBFSErr(Errno::EIO, None)),
        },
{
    match key {
        Some(k) => Ok(k),
        None => Err(DBFSErr(Errno::EIO, None)),
    }
}

} // verus!
