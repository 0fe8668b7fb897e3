//! Applying a change of attributes to a node.
use vstd::prelude::*;

use crate::db::entity::{FsNodeRow, Timestamp};
use crate::fs::request::util::{AttrPatch, TimeOrNow};

verus! {

/// The time a given time stands for, `now` standing for the time of the change.
pub open spec fn resolve_time(t: TimeOrNow, now: Timestamp) -> Timestamp {
    match t {
        TimeOrNow::SpecificTime(t) => t,
        TimeOrNow::Now => now,
    }
}

fn resolve_time_exec(t: &TimeOrNow, now: &Timestamp) -> (r: Timestamp)
    ensures
        r == resolve_time(*t, *now),
{
    match t {
        TimeOrNow::SpecificTime(t) => *t,
        TimeOrNow::Now => *now,
    }
}

/// The node after a change of attributes, `now` being the time of the
/// change: a set size, access or modification time, permission, owner,
/// group or flags replaces the stored one; a set change time replaces both
/// the creation time and the time of the last node change; the file handle
/// and the other times are not stored; everything else stays.
pub fn apply_attr_patch(node: FsNodeRow, patch: &AttrPatch, now: Timestamp) -> (r: FsNodeRow)
    ensures
        r.key == node.key,
        r.id == node.id,
        r.name == node.name,
        r.hard_link_amount == node.hard_link_amount,
        r.parent_node_key == node.parent_node_key,
        r.size == match patch.size {
            Some(s) => Some(s as i64),
            None => node.size,
        },
        r.creation_time == match patch.ctime {
            Some(t) => t,
            None => node.creation_time,
        },
        r.last_acess == match patch.atime {
            Some(t) => Some(resolve_time(t, now)),
            None => node.last_acess,
        },
        r.last_modf == match patch.mtime {
            Some(t) => Some(resolve_time(t, now)),
            None => node.last_modf,
        },
        r.last_node_change == match patch.ctime {
            Some(t) => Some(t),
            None => node.last_node_change,
        },
        r.permission_flags == match patch.perm {
            Some(p) => p as i64,
            None => node.permission_flags,
        },
        r.user_id == match patch.uid {
            Some(u) => u as i64,
            None => node.user_id,
        },
        r.group_id == match patch.gid {
            Some(g) => g as i64,
            None => node.group_id,
        },
        r.bsd_flags == match patch.flags {
            Some(f) => f as i64,
            None => node.bsd_flags,
        },
{
    let mut node = node;
    if let Some(size) = patch.size {
        node.size = Some(size as i64);
    }
    if let Some(ctime) = &patch.ctime {
        node.creation_time = *ctime;
    }
    if let Some(atime) = &patch.atime {
        node.last_acess = Some(resolve_time_exec(atime, &now));
    }
    if let Some(mtime) = &patch.mtime {
        node.last_modf = Some(resolve_time_exec(mtime, &now));
    }
    if let Some(ctime) = &patch.ctime {
        node.last_node_change = Some(*ctime);
    }
    if let Some(perm) = patch.perm {
        node.permission_flags = perm as i64;
    }
    if let Some(uid) = patch.uid {
        node.user_id = uid as i64;
    }
    if let Some(gid) = patch.gid {
        node.group_id = gid as i64;
    }
    if let Some(flags) = patch.flags {
        node.bsd_flags = flags as i64;
    }
    node
}

} // verus!
