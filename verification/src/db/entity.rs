//! The rows of the store's tables, as plain values.
use vstd::prelude::*;

verus! {

/// A point in time, UTC: whole seconds since 1970-01-01T00:00:00 and the
/// nanoseconds past that second.
#[derive(Debug, Clone, Copy, PartialEq, Eq, Structural)]
pub struct Timestamp {
    pub secs: i64,
    pub nanos: u32,
}

impl Timestamp {
    /// 1970-01-01T00:00:00, the default date-time of the store.
    pub fn epoch() -> (t: Timestamp)
        ensures
            t.secs == 0,
            t.nanos == 0,
    {
        Timestamp { secs: 0, nanos: 0 }
    }
}

/// A row of the `note` table.
#[derive(Debug)]
pub struct NoteRow {
    pub key: i64,
    pub id: String,
    pub content: String,
    /// `filesystem` or `shard`: which kind of address names the note.
    pub address_type: String,
}

/// A row of the `facets` table.
#[derive(Debug)]
pub struct FacetRow {
    pub key: i64,
    pub id: String,
    pub header_field_name: String,
    /// `in_note` or `shard`: which kind of address names the facet.
    pub facet_address_type: String,
}

/// A row of the `fs_node` table: a directory or a file of the mounted tree.
#[derive(Debug)]
pub struct FsNodeRow {
    pub key: i64,
    pub id: String,
    pub name: String,
    pub size: Option<i64>,
    pub creation_time: Timestamp,
    pub last_acess: Option<Timestamp>,
    pub last_modf: Option<Timestamp>,
    pub last_node_change: Option<Timestamp>,
    pub permission_flags: i64,
    pub hard_link_amount: i64,
    pub user_id: i64,
    pub group_id: i64,
    pub bsd_flags: i64,
    pub parent_node_key: Option<i64>,
}

/// A row of the `fs_adress` table: what a file node holds.
#[derive(Debug)]
pub struct FsAddressRow {
    pub node_key: i64,
    /// `unset_file`, `raw_file`, `note` or `symlink`.
    pub address_for: String,
    pub raw_file_data: Option<Vec<u8>>,
    pub note_key: Option<i64>,
    pub symlink_path: Option<String>,
}

impl FsAddressRow {
    /// The store's rule for a row of `fs_adress`: a `raw_file` holds file
    /// data and neither a note key nor a link text, a `note` a note key and
    /// neither of the others, a `symlink` a link text and neither of the
    /// others. No other kind passes, `unset_file` included.
    pub open spec fn admitted(self) -> bool {
        ||| self.address_for@ == "raw_file"@ && self.note_key is None && self.symlink_path is None
            && self.raw_file_data is Some
        ||| self.address_for@ == "note"@ && self.note_key is Some && self.symlink_path is None
            && self.raw_file_data is None
        ||| self.address_for@ == "symlink"@ && self.note_key is None && self.symlink_path is Some
            && self.raw_file_data is None
    }
}

/// A row of the `shard_address` table: a named entry of a shard.
#[derive(Debug)]
pub struct ShardAddressRow {
    pub shard_key: Option<i64>,
    pub name: String,
    /// `facet` or `note`, as the owner lookup reads it (the store's row rule
    /// spells them `Facet` and `Note`).
    pub address_for: String,
    pub facet_key: Option<i64>,
    pub note_key: Option<i64>,
}

impl ShardAddressRow {
    /// The store's rule for a row of `shard_address`: kind `Facet` with a
    /// facet key and no note key, or kind `Note` with a note key and no
    /// facet key (the rule spells the kinds capitalised).
    pub open spec fn admitted(self) -> bool {
        ||| self.address_for@ == "Facet"@ && self.facet_key is Some && self.note_key is None
        ||| self.address_for@ == "Note"@ && self.note_key is Some && self.facet_key is None
    }
}

/// A row of the `in_note_address` table: a facet placed inside a note.
#[derive(Debug)]
pub struct InNoteAddressRow {
    pub note_key: i64,
    pub col_start: Option<i64>,
    pub line_start: i64,
    pub col_width: Option<i64>,
    pub lines_amount: i64,
    pub facet_key: i64,
}

/// A row of the `shard` table.
#[derive(Debug)]
pub struct ShardRow {
    pub key: i64,
    pub name: String,
    pub parent_shard_key: Option<i64>,
}

} // verus!
