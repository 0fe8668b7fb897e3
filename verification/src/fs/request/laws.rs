//! Properties that hold across the request decisions.
use vstd::prelude::*;

use crate::db::entity::FsAddressRow;
use crate::fs::request::mknode::FsAddressDraft;
use crate::fs::request::rmnode::removal_refused;
use crate::db::entity::{FsNodeRow, Timestamp};
use crate::fs::request::setattr::resolve_time;
use crate::fs::request::util::{
    node_attr, time_or_epoch, TimeOrNow, DIR_SIZE,
    address_kind, filetype_of, generation_bump_step, generation_inserted_result,
    generation_lookup_step, generation_saved_result, FsFiletype, GenerationBump, GenerationStep,
};
use crate::fs::request::DBFSErr;

verus! {

/// A directory is a node without an address: a node reads back as a
/// directory exactly when it has no address.
pub proof fn lemma_directory_iff_no_address(addr: Option<FsAddressRow>)
    ensures
        (filetype_of(address_kind(addr)) == Some(FsFiletype::Dir)) <==> addr is None,
{
}

/// A file made by the filesystem gets an `unset_file` address, which names
/// no kind of file: whatever else its address row holds, such a node does
/// not read back (its attributes are an I/O error) until its address is
/// given another kind.
pub proof fn lemma_new_file_kind_unreadable(addr: FsAddressRow)
    requires
        addr.address_for@ == "unset_file"@,
    ensures
        filetype_of(address_kind(Some(addr))) is None,
{
    reveal_strlit("unset_file");
    reveal_strlit("raw_file");
    reveal_strlit("note");
    reveal_strlit("symlink");
    assert("unset_file"@.len() == 10 && "raw_file"@.len() == 8);
    assert("note"@.len() == 4 && "symlink"@.len() == 7);
}

/// The store refuses the address a new file is given: an `unset_file` row
/// passes none of the `fs_adress` row rules, whatever node it is for.
pub proof fn lemma_new_file_address_refused(draft: FsAddressDraft)
    requires
        draft.address_for@ == "unset_file"@,
    ensures
        !draft.stored_row().admitted(),
{
    reveal_strlit("unset_file");
    reveal_strlit("raw_file");
    reveal_strlit("note");
    reveal_strlit("symlink");
    assert("unset_file"@.len() == 10 && "raw_file"@.len() == 8);
    assert("note"@.len() == 4 && "symlink"@.len() == 7);
}

/// Every address row the store admits reads back as a file: its kind names
/// a file kind, and never a directory.
pub proof fn lemma_admitted_address_reads_back(addr: FsAddressRow)
    requires
        addr.admitted(),
    ensures
        filetype_of(address_kind(Some(addr))) matches Some(kind) && kind != FsFiletype::Dir,
{
}

/// Removing a node as a directory is allowed exactly for the nodes that
/// read back as directories; removing it as a file exactly for the others.
pub proof fn lemma_removal_matches_kind(is_dir: bool, addr: Option<FsAddressRow>)
    ensures
        !removal_refused(is_dir, addr) <==> (is_dir == (filetype_of(
            address_kind(addr),
        ) == Some(FsFiletype::Dir))),
{
}

/// The generation row of node `k` in a generation table, if it has one.
pub open spec fn generation_row(table: Map<i64, i64>, k: i64) -> Option<i64> {
    if table.dom().contains(k) {
        Some(table[k])
    } else {
        None
    }
}

/// Reading node `k`'s generation against `table`, where the store gives an
/// inserted row the generation `d`: the table afterwards and the answer.
pub open spec fn generation_read<E>(table: Map<i64, i64>, k: i64, d: i64) -> (
    Map<i64, i64>,
    Result<u64, DBFSErr<E>>,
) {
    match generation_lookup_step::<E>(Ok(generation_row(table, k))) {
        GenerationStep::Known(x) => (table, Ok(x)),
        GenerationStep::Insert => (table.insert(k, d), generation_inserted_result::<E>(Ok(d))),
        GenerationStep::Failed(e) => (table, Err(e)),
    }
}

/// Giving node `k` a new generation against `table`, where the store
/// reports back what it saved and gives an inserted row the generation `d`:
/// the table afterwards and the answer.
pub open spec fn generation_renewed<E>(table: Map<i64, i64>, k: i64, d: i64) -> (
    Map<i64, i64>,
    Result<u64, DBFSErr<E>>,
) {
    match generation_bump_step::<E>(Ok(generation_row(table, k))) {
        GenerationBump::Save(n) => (table.insert(k, n), generation_saved_result::<E>(Ok(Some(n)))),
        GenerationBump::Insert => (table.insert(k, d), generation_inserted_result::<E>(Ok(d))),
        GenerationBump::Failed(e) => (table, Err(e)),
    }
}

/// A generation reads back as it was given out. When the store answers
/// every query, reading a node's generation succeeds, and reading it again
/// changes nothing and answers the same; giving the node a new generation
/// answers one more than the stored one (or the inserted row's generation),
/// and a read afterwards answers that same value. The stored generation is
/// below `i64::MAX`, where one more would not fit.
pub proof fn lemma_generation_reads_back<E>(table: Map<i64, i64>, k: i64, d: i64)
    requires
        generation_row(table, k) matches Some(g) ==> g < i64::MAX,
    ensures
        generation_read::<E>(table, k, d).1 is Ok,
        generation_read::<E>(generation_read::<E>(table, k, d).0, k, d) == generation_read::<E>(
            table,
            k,
            d,
        ),
        generation_renewed::<E>(table, k, d).1 == match generation_row(table, k) {
            Some(g) => Ok::<u64, DBFSErr<E>>((g + 1) as u64),
            None => Ok::<u64, DBFSErr<E>>(d as u64),
        },
        generation_read::<E>(generation_renewed::<E>(table, k, d).0, k, d) == (
            generation_renewed::<E>(table, k, d).0,
            generation_renewed::<E>(table, k, d).1,
        ),
{
}

/// The kind of file a node reads as is the kind its address names, and
/// different address kinds name different file kinds: no address is a
/// directory, `raw_file` a raw file, `note` a note file, `symlink` a link.
pub proof fn lemma_filetype_follows_address(kind: Option<Seq<char>>)
    ensures
        filetype_of(kind) == Some(FsFiletype::Dir) <==> (kind is None),
        filetype_of(kind) == Some(FsFiletype::RawFile) <==> kind == Some("raw_file"@),
        filetype_of(kind) == Some(FsFiletype::NoteFile) <==> kind == Some("note"@),
        filetype_of(kind) == Some(FsFiletype::Symlink) <==> kind == Some("symlink"@),
{
    reveal_strlit("raw_file");
    reveal_strlit("note");
    reveal_strlit("symlink");
    assert("raw_file"@.len() == 8 && "note"@.len() == 4 && "symlink"@.len() == 7);
}

/// What a node reads back as keeps what the node holds: the kind it is read
/// as, its key as the inode number, its stored size (a directory's size
/// when none is stored), its stored times (the epoch for an unset one), its
/// creation time, and its permission bits, link count, owner, group and
/// flags cut to the widths of the attributes.
pub proof fn lemma_attributes_follow_node(node: FsNodeRow, kind: FsFiletype)
    ensures
        node_attr(node, kind).kind == kind,
        node_attr(node, kind).ino == node.key as u64,
        node.size matches Some(s) ==> node_attr(node, kind).size == s as u64,
        node.size is None ==> node_attr(node, kind).size == DIR_SIZE,
        node.last_acess matches Some(t) ==> node_attr(node, kind).atime == t,
        node.last_modf matches Some(t) ==> node_attr(node, kind).mtime == t,
        node.last_node_change matches Some(t) ==> node_attr(node, kind).ctime == t,
        node.last_acess is None ==> node_attr(node, kind).atime == (Timestamp { secs: 0, nanos: 0 }),
        node.last_modf is None ==> node_attr(node, kind).mtime == (Timestamp { secs: 0, nanos: 0 }),
        node.last_node_change is None ==> node_attr(node, kind).ctime == (Timestamp { secs: 0, nanos: 0 }),
        node_attr(node, kind).crtime == node.creation_time,
        node_attr(node, kind).perm == node.permission_flags as u16,
        node_attr(node, kind).nlink == node.hard_link_amount as u32,
        node_attr(node, kind).uid == node.user_id as u32,
        node_attr(node, kind).gid == node.group_id as u32,
        node_attr(node, kind).flags == node.bsd_flags as u32,
{
}

/// A time given for a change of attributes is kept as given, to the
/// nanosecond; only `now` stands for the time of the change. An unset time
/// reads as the epoch, a set one as itself.
pub proof fn lemma_given_times_are_kept(t: Timestamp, now: Timestamp)
    ensures
        resolve_time(TimeOrNow::SpecificTime(t), now) == t,
        resolve_time(TimeOrNow::Now, now) == now,
        time_or_epoch(Some(t)) == t,
        time_or_epoch(None) == (Timestamp { secs: 0, nanos: 0 }),
{
}

} // verus!
