//! The owner of an address (a note, a facet, or a file node), and which
//! address row it is named by.
use vstd::prelude::*;

use crate::db::entity::{FacetRow, FsNodeRow, NoteRow};
use crate::fs::address::address_path::AddressPath;
use crate::fs::address::AddressError;
use crate::text::same_text;

verus! {

/// What an address leads to.
#[derive(Debug)]
pub enum AddressOwner {
    Note(NoteRow),
    Facet(FacetRow),
    RawFile(FsNodeRow, Vec<u8>),
    UnsetFile(FsNodeRow),
    Symlink(FsNodeRow, AddressPath),
}

/// Which address row to fetch.
#[derive(Debug, Clone, Copy, PartialEq, Eq, Structural)]
pub enum AddressQuery {
    /// The filesystem address naming the note with this key.
    FsAddressByNoteKey(i64),
    /// The shard address naming the note with this key.
    ShardAddressByNoteKey(i64),
    /// The in-note address placing the facet with this key.
    InNoteAddressByFacetKey(i64),
    /// The shard address naming the facet with this key.
    ShardAddressByFacetKey(i64),
    /// The filesystem address of the node with this key.
    FsAddressByNodeKey(i64),
}

/// The address row of a note, by the note's address type (`filesystem` or
/// `shard`); none for another type.
pub open spec fn note_address_lookup(key: i64, address_type: Seq<char>) -> Option<AddressQuery> {
    if address_type == "filesystem"@ {
        Some(AddressQuery::FsAddressByNoteKey(key))
    } else if address_type == "shard"@ {
        Some(AddressQuery::ShardAddressByNoteKey(key))
    } else {
        None
    }
}

/// The address row of a facet, by the facet's address type (`in_note` or
/// `shard`); none for another type.
pub open spec fn facet_address_lookup(key: i64, address_type: Seq<char>) -> Option<AddressQuery> {
    if address_type == "in_note"@ {
        Some(AddressQuery::InNoteAddressByFacetKey(key))
    } else if address_type == "shard"@ {
        Some(AddressQuery::ShardAddressByFacetKey(key))
    } else {
        None
    }
}

/// `r` is the query `q`, or, when there is none, the error naming `kind`.
pub open spec fn query_or_unknown(
    q: Option<AddressQuery>,
    kind: Seq<char>,
    r: Result<AddressQuery, AddressError>,
) -> bool {
    match q {
        Some(q) => r == Ok::<AddressQuery, AddressError>(q),
        None => r matches Err(AddressError::UnknownAddressFor(k)) && k@ == kind,
    }
}

/// The address query of a note by its address type.
fn note_query(key: i64, address_type: &String) -> (r: Result<AddressQuery, AddressError>)
    ensures
        query_or_unknown(note_address_lookup(key, address_type@), address_type@, r),
{
    let t = address_type.as_str();
    if same_text(t, "filesystem") {
        Ok(AddressQuery::FsAddressByNoteKey(key))
    } else if same_text(t, "shard") {
        Ok(AddressQuery::ShardAddressByNoteKey(key))
    } else {
        Err(AddressError::UnknownAddressFor(address_type.clone()))
    }
}

/// The address query of a facet by its address type.
fn facet_query(key: i64, address_type: &String) -> (r: Result<AddressQuery, AddressError>)
    ensures
        query_or_unknown(facet_address_lookup(key, address_type@), address_type@, r),
{
    let t = address_type.as_str();
    if same_text(t, "in_note") {
        Ok(AddressQuery::InNoteAddressByFacetKey(key))
    } else if same_text(t, "shard") {
        Ok(AddressQuery::ShardAddressByFacetKey(key))
    } else {
        Err(AddressError::UnknownAddressFor(address_type.clone()))
    }
}

impl AddressOwner {
    /// The address row this owner is named by, or none when its type is unknown.
    pub open spec fn address_lookup(self) -> Option<AddressQuery> {
        match self {
            AddressOwner::Note(n) => note_address_lookup(n.key, n.address_type@),
            AddressOwner::Facet(f) => facet_address_lookup(f.key, f.facet_address_type@),
            AddressOwner::RawFile(node, _) => Some(AddressQuery::FsAddressByNodeKey(node.key)),
            AddressOwner::UnsetFile(node) => Some(AddressQuery::FsAddressByNodeKey(node.key)),
            AddressOwner::Symlink(node, _) => Some(AddressQuery::FsAddressByNodeKey(node.key)),
        }
    }

    /// The type text an unknown owner type is reported by.
    pub open spec fn type_text(self) -> Seq<char> {
        match self {
            AddressOwner::Note(n) => n.address_type@,
            AddressOwner::Facet(f) => f.facet_address_type@,
            _ => Seq::<char>::empty(),
        }
    }

    /// Which address row names this owner: a note's by its address type, a
    /// facet's by its address type, a file node's by the node key.
    pub fn address_query(&self) -> (r: Result<AddressQuery, AddressError>)
        ensures
            query_or_unknown(self.address_lookup(), self.type_text(), r),
    {
        match self {
            AddressOwner::Note(n) => note_query(n.key, &n.address_type),
            AddressOwner::Facet(f) => facet_query(f.key, &f.facet_address_type),
            AddressOwner::RawFile(node, _) => Ok(AddressQuery::FsAddressByNodeKey(node.key)),
            AddressOwner::UnsetFile(node) => Ok(AddressQuery::FsAddressByNodeKey(node.key)),
            AddressOwner::Symlink(node, _) => Ok(AddressQuery::FsAddressByNodeKey(node.key)),
        }
    }
}

/// The note an in-note path is placed in: the owner its address part leads
/// to, when that owner is a note; any other owner, or none, places nothing.
pub fn in_note_owner_key(owner: &Option<AddressOwner>) -> (r: Option<i64>)
    ensures
        r == match owner {
            Some(AddressOwner::Note(n)) => Some(n.key),
            _ => None::<i64>,
        },
{
    match owner {
        Some(AddressOwner::Note(n)) => Some(n.key),
        _ => None,
    }
}

/// The row a raw path finds among notes and facets: its kind (`note` or
/// `facet`), key and address type.
#[derive(Debug)]
pub struct NoteOrFacet {
    pub kind: String,
    pub key: i64,
    pub address_type: String,
}

impl NoteOrFacet {
    /// The address row of the found note or facet, as its owner would name it.
    pub open spec fn address_lookup(self) -> Option<AddressQuery> {
        if self.kind@ == "note"@ {
            note_address_lookup(self.key, self.address_type@)
        } else if self.kind@ == "facet"@ {
            facet_address_lookup(self.key, self.address_type@)
        } else {
            None
        }
    }

    /// Which address row a raw path resolves to: for a note by its address
    /// type (`filesystem`, `shard`), for a facet by its address type
    /// (`in_note`, `shard`); anything else is an error naming the type.
    pub fn address_query(&self) -> (r: Result<AddressQuery, AddressError>)
        ensures
            query_or_unknown(self.address_lookup(), self.address_type@, r),
    {
        let kind = self.kind.as_str();
        if same_text(kind, "note") {
            note_query(self.key, &self.address_type)
        } else if same_text(kind, "facet") {
            facet_query(self.key, &self.address_type)
        } else {
            Err(AddressError::UnknownAddressFor(self.address_type.clone()))
        }
    }
}

} // verus!
