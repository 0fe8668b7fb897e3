//! What a node reads back as, how a change of attributes is applied, what a
//! new node is made of, and the node generation counter.
use vstd::prelude::*;

use crate::db::entity::{FsAddressRow, FsNodeRow, ShardRow, Timestamp};
use crate::fs::request::{store_failure, DBFSErr, Errno};
use crate::text::same_text;

verus! {

/// The size a node without a stored size (a directory) reports.
pub const DIR_SIZE: u64 = 0x1000;

/// The name of the root shard that removed entries go to.
pub open spec fn trash_shard_name() -> Seq<char> {
    "Trash"@
}

/// The kind of file a node is, by what its address holds.
#[derive(Debug, Clone, Copy, PartialEq, Eq, Structural)]
pub enum FsFiletype {
    Dir,
    RawFile,
    NoteFile,
    Symlink,
}

/// The kind named by an address kind: no address is a directory; `raw_file`,
/// `note` and `symlink` name the file kinds; any other text names none.
pub open spec fn filetype_of(value: Option<Seq<char>>) -> Option<FsFiletype> {
    match value {
        None => Some(FsFiletype::Dir),
        Some(v) => if v == "raw_file"@ {
            Some(FsFiletype::RawFile)
        } else if v == "note"@ {
            Some(FsFiletype::NoteFile)
        } else if v == "symlink"@ {
            Some(FsFiletype::Symlink)
        } else {
            None
        },
    }
}

impl FsFiletype {
    /// Reads the kind of a node from the kind of its address (none: a directory).
    pub fn parse(value: Option<&str>) -> (r: Result<FsFiletype, ()>)
        ensures
            match filetype_of(
                match value {
                    Some(v) => Some(v@),
                    None => None,
                },
            ) {
                Some(kind) => r == Ok::<FsFiletype, ()>(kind),
                None => r == Err::<FsFiletype, ()>(()),
            },
    {
        match value {
            None => Ok(FsFiletype::Dir),
            Some(v) => if same_text(v, "raw_file") {
                Ok(FsFiletype::RawFile)
            } else if same_text(v, "note") {
                Ok(FsFiletype::NoteFile)
            } else if same_text(v, "symlink") {
                Ok(FsFiletype::Symlink)
            } else {
                Err(())
            },
        }
    }
}

/// A time given for a change of attributes: a given point, or the time of
/// the change.
#[derive(Debug)]
pub enum TimeOrNow {
    SpecificTime(Timestamp),
    Now,
}

/// A change of attributes: each field that is set replaces the node's value.
#[derive(Debug)]
pub struct AttrPatch {
    pub perm: Option<u32>,
    pub uid: Option<u32>,
    pub gid: Option<u32>,
    pub size: Option<u64>,
    pub atime: Option<TimeOrNow>,
    pub mtime: Option<TimeOrNow>,
    pub ctime: Option<Timestamp>,
    pub fh: Option<u64>,
    pub crtime: Option<Timestamp>,
    pub chgtime: Option<Timestamp>,
    pub bkuptime: Option<Timestamp>,
    pub flags: Option<u32>,
}

/// The attributes a node reads back as (its block count follows from `size`).
#[derive(Debug)]
pub struct NodeAttr {
    pub ino: u64,
    pub size: u64,
    pub atime: Timestamp,
    pub mtime: Timestamp,
    pub ctime: Timestamp,
    pub crtime: Timestamp,
    pub kind: FsFiletype,
    pub perm: u16,
    pub nlink: u32,
    pub uid: u32,
    pub gid: u32,
    pub rdev: u32,
    pub blksize: u32,
    pub flags: u32,
}

/// A time that may be unset; unset reads as the epoch.
pub open spec fn time_or_epoch(t: Option<Timestamp>) -> Timestamp {
    match t {
        Some(t) => t,
        None => Timestamp { secs: 0, nanos: 0 },
    }
}

/// The attributes of `node` read as a file of kind `kind`: the key as the
/// inode number, the stored size or `DIR_SIZE`, unset times as the epoch,
/// and the stored numbers cut to the widths of the attributes.
pub open spec fn node_attr(node: FsNodeRow, kind: FsFiletype) -> NodeAttr {
    NodeAttr {
        ino: node.key as u64,
        size: match node.size {
            Some(s) => s as u64,
            None => DIR_SIZE,
        },
        atime: time_or_epoch(node.last_acess),
        mtime: time_or_epoch(node.last_modf),
        ctime: time_or_epoch(node.last_node_change),
        crtime: node.creation_time,
        kind,
        perm: node.permission_flags as u16,
        nlink: node.hard_link_amount as u32,
        uid: node.user_id as u32,
        gid: node.group_id as u32,
        rdev: 0,
        blksize: 4096,
        flags: node.bsd_flags as u32,
    }
}

/// The kind text of an address, if there is one.
pub open spec fn address_kind(addr: Option<FsAddressRow>) -> Option<Seq<char>> {
    match addr {
        Some(a) => Some(a.address_for@),
        None => None,
    }
}

fn time_or_epoch_exec(t: &Option<Timestamp>) -> (r: Timestamp)
    ensures
        r == time_or_epoch(*t),
{
    match t {
        Some(t) => *t,
        None => Timestamp::epoch(),
    }
}

/// What a node reads back as, its kind taken from its address; an address
/// of a kind no file has is `EIO`.
pub fn fs_node_to_attr<E>(node: &FsNodeRow, addr: Option<FsAddressRow>) -> (r: Result<NodeAttr, DBFSErr<E>>)
    ensures
        match filetype_of(address_kind(addr)) {
            Some(kind) => r == Ok::<NodeAttr, DBFSErr<E>>(node_attr(*node, kind)),
            None => r == Err::<NodeAttr, DBFSErr<E>>(DBFSErr(Errno::EIO, None)),
        },
{
    let kind = match FsFiletype::parse(
        match &addr {
            Some(a) => Some(a.address_for.as_str()),
            None => None,
        },
    ) {
        Ok(kind) => kind,
        Err(()) => return Err(DBFSErr(Errno::EIO, None)),
    };
    let size = match node.size {
        Some(s) => s as u64,
        None => DIR_SIZE,
    };
    Ok(NodeAttr {
        ino: node.key as u64,
        size,
        atime: time_or_epoch_exec(&node.last_acess),
        mtime: time_or_epoch_exec(&node.last_modf),
        ctime: time_or_epoch_exec(&node.last_node_change),
        crtime: node.creation_time,
        kind,
        perm: node.permission_flags as u16,
        nlink: node.hard_link_amount as u32,
        uid: node.user_id as u32,
        gid: node.group_id as u32,
        rdev: 0,
        blksize: 4096,
        flags: node.bsd_flags as u32,
    })
}

/// What a node reads back as once its address was looked up: a store
/// failure is `EIO` with its cause.
pub fn node_attr_with_address<E>(node: &FsNodeRow, found: Result<Option<FsAddressRow>, E>) -> (r:
    Result<NodeAttr, DBFSErr<E>>)
    ensures
        match found {
            Err(e) => r == Err::<NodeAttr, DBFSErr<E>>(DBFSErr(Errno::EIO, Some(e))),
            Ok(addr) => match filetype_of(address_kind(addr)) {
                Some(kind) => r == Ok::<NodeAttr, DBFSErr<E>>(node_attr(*node, kind)),
                None => r == Err::<NodeAttr, DBFSErr<E>>(DBFSErr(Errno::EIO, None)),
            },
        },
{
    match found {
        Err(e) => Err(store_failure(e)),
        Ok(addr) => fs_node_to_attr(node, addr),
    }
}

/// The next step of reading a node's generation.
#[derive(Debug)]
pub enum GenerationStep<E> {
    /// The node has this generation.
    Known(u64),
    /// The node has no generation row yet: insert one.
    Insert,
    /// The store failed.
    Failed(DBFSErr<E>),
}

/// The step `generation_lookup` takes on what the store answered.
pub open spec fn generation_lookup_step<E>(found: Result<Option<i64>, E>) -> GenerationStep<E> {
    match found {
        Err(e) => GenerationStep::Failed(DBFSErr(Errno::EIO, Some(e))),
        Ok(None) => GenerationStep::<E>::Insert,
        Ok(Some(g)) => GenerationStep::<E>::Known(g as u64),
    }
}

/// The generation of a node, from the generation its row holds: no row
/// means one is to be inserted; a store failure is `EIO`.
pub fn generation_lookup<E>(found: Result<Option<i64>, E>) -> (r: GenerationStep<E>)
    ensures
        r == generation_lookup_step(found),
{
    match found {
        Err(e) => GenerationStep::Failed(store_failure(e)),
        Ok(None) => GenerationStep::Insert,
        Ok(Some(g)) => GenerationStep::Known(g as u64),
    }
}

/// What `generation_inserted` answers for the store's reply to an insert.
pub open spec fn generation_inserted_result<E>(inserted: Result<i64, E>) -> Result<u64, DBFSErr<E>> {
    match inserted {
        Err(e) => Err::<u64, DBFSErr<E>>(DBFSErr(Errno::EIO, Some(e))),
        Ok(g) => Ok::<u64, DBFSErr<E>>(g as u64),
    }
}

/// The generation of a freshly inserted generation row.
pub fn generation_inserted<E>(inserted: Result<i64, E>) -> (r: Result<u64, DBFSErr<E>>)
    ensures
        r == generation_inserted_result(inserted),
{
    match inserted {
        Err(e) => Err(store_failure(e)),
        Ok(g) => Ok(g as u64),
    }
}

/// The next step of giving a node a new generation.
#[derive(Debug)]
pub enum GenerationBump<E> {
    /// Store this generation in the node's row.
    Save(i64),
    /// The node has no generation row yet: insert one.
    Insert,
    /// The store failed.
    Failed(DBFSErr<E>),
}

/// The step `generation_bump` takes on what the store answered.
pub open spec fn generation_bump_step<E>(found: Result<Option<i64>, E>) -> GenerationBump<E> {
    match found {
        Err(e) => GenerationBump::Failed(DBFSErr(Errno::EIO, Some(e))),
        Ok(None) => GenerationBump::<E>::Insert,
        Ok(Some(g)) => GenerationBump::<E>::Save((g + 1) as i64),
    }
}

/// A new generation for a node: one more than the stored one; no row means
/// one is to be inserted; a store failure is `EIO`.
pub fn generation_bump<E>(found: Result<Option<i64>, E>) -> (r: GenerationBump<E>)
    requires
        found matches Ok(Some(g)) ==> g < i64::MAX,
    ensures
        r == generation_bump_step(found),
{
    match found {
        Err(e) => GenerationBump::Failed(store_failure(e)),
        Ok(None) => GenerationBump::Insert,
        Ok(Some(g)) => GenerationBump::Save(g + 1),
    }
}

/// What `generation_saved` answers for the store's reply to a save.
pub open spec fn generation_saved_result<E>(saved: Result<Option<i64>, E>) -> Result<u64, DBFSErr<E>> {
    match saved {
        Err(e) => Err::<u64, DBFSErr<E>>(DBFSErr(Errno::EIO, Some(e))),
        Ok(None) => Err::<u64, DBFSErr<E>>(DBFSErr(Errno::EIO, None)),
        Ok(Some(g)) => Ok::<u64, DBFSErr<E>>(g as u64),
    }
}

/// The generation the store reports after saving: a store failure is `EIO`
/// with its cause, no generation reported is `EIO`.
pub fn generation_saved<E>(saved: Result<Option<i64>, E>) -> (r: Result<u64, DBFSErr<E>>)
    ensures
        r == generation_saved_result(saved),
{
    match saved {
        Err(e) => Err(store_failure(e)),
        Ok(None) => Err(DBFSErr(Errno::EIO, None)),
        Ok(Some(g)) => Ok(g as u64),
    }
}

/// The next step of finding the trash shard.
#[derive(Debug)]
pub enum TrashShardStep<E> {
    /// The trash shard exists.
    Found(ShardRow),
    /// There is none: make a root shard with this name.
    Create(String),
    /// The store failed.
    Failed(E),
}

/// The trash shard is the root shard named `Trash`: the one found, or a new
/// one of that name.
pub fn trash_shard_step<E>(found: Result<Option<ShardRow>, E>) -> (r: TrashShardStep<E>)
    ensures
        match found {
            Err(e) => r == TrashShardStep::<E>::Failed(e),
            Ok(Some(shard)) => r == TrashShardStep::<E>::Found(shard),
            Ok(None) => r matches TrashShardStep::Create(name) && name@ == trash_shard_name(),
        },
{
    match found {
        Err(e) => TrashShardStep::Failed(e),
        Ok(Some(shard)) => TrashShardStep::Found(shard),
        Ok(None) => TrashShardStep::Create("Trash".to_owned()),
    }
}

/// The name the trash shard is looked up and made by.
pub fn trash_shard_name_text() -> (r: String)
    ensures
        r@ == trash_shard_name(),
{
    "Trash".to_owned()
}

} // verus!
