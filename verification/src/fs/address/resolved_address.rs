//! A resolved address row, and which owner row it leads to.
use vstd::prelude::*;
use vstd::utf8::*;

use crate::db::entity::{FsAddressRow, InNoteAddressRow, ShardAddressRow};
use crate::fs::address::address_path::{parse_spec, parse_well_sliced, AddressPath};
use crate::fs::address::AddressError;
use crate::text::same_text;

verus! {

/// An address row found for a path or an owner.
#[derive(Debug)]
pub enum ResolvedAddress {
    FsAddr(FsAddressRow),
    ShardAddr(ShardAddressRow),
    InNoteAddr(InNoteAddressRow),
}

/// Which owner row to fetch for an address.
#[derive(Debug)]
pub enum OwnerQuery {
    /// The address has no owner; nothing is fetched.
    Nothing,
    /// The node with this key, as a file not yet given content.
    UnsetFile { node_key: i64 },
    /// The node with this key, as a file holding these bytes.
    RawFile { node_key: i64, data: Vec<u8> },
    /// The note with this key.
    Note { note_key: i64 },
    /// The node with this key, as a link to this path.
    Symlink { node_key: i64, target: AddressPath },
    /// The facet with this key.
    Facet { facet_key: i64 },
}

impl ResolvedAddress {
    /// `owner_query` is defined: a symlink target it reads can be parsed.
    pub open spec fn owner_query_well_defined(self) -> bool {
        match self {
            ResolvedAddress::FsAddr(a) => (a.address_for@ == "symlink"@ && a.symlink_path is Some)
                ==> parse_well_sliced(encode_utf8(a.symlink_path->0@)),
            _ => true,
        }
    }

    /// Whether `owner_query` is defined on this address (`owner_query_well_defined`).
    pub fn owner_query_is_defined(&self) -> (r: bool)
        ensures
            r == self.owner_query_well_defined(),
    {
        match self {
            ResolvedAddress::FsAddr(a) => match &a.symlink_path {
                Some(p) => !same_text(a.address_for.as_str(), "symlink")
                    || AddressPath::parse_is_defined(p.as_str()),
                None => true,
            },
            _ => true,
        }
    }

    /// What `owner_query` answers for this address.
    pub open spec fn owner_query_matches(self, r: Result<OwnerQuery, AddressError>) -> bool {
        match self {
            ResolvedAddress::FsAddr(a) => if a.address_for@ == "unset_file"@ {
                r == Ok::<OwnerQuery, AddressError>(OwnerQuery::UnsetFile { node_key: a.node_key })
            } else if a.address_for@ == "raw_file"@ {
                &&& r matches Ok(OwnerQuery::RawFile { node_key, data })
                &&& node_key == a.node_key
                &&& data@ == match a.raw_file_data {
                    Some(d) => d@,
                    None => Seq::<u8>::empty(),
                }
            } else if a.address_for@ == "note"@ {
                r == Ok::<OwnerQuery, AddressError>(
                    match a.note_key {
                        Some(k) => OwnerQuery::Note { note_key: k },
                        None => OwnerQuery::Nothing,
                    },
                )
            } else if a.address_for@ == "symlink"@ {
                r == Ok::<OwnerQuery, AddressError>(
                    match a.symlink_path {
                        Some(p) => match parse_spec(p) {
                            Some(target) => OwnerQuery::Symlink { node_key: a.node_key, target },
                            None => OwnerQuery::Nothing,
                        },
                        None => OwnerQuery::Nothing,
                    },
                )
            } else {
                r matches Err(AddressError::UnknownAddressFor(kind)) && kind@ == a.address_for@
            },
            ResolvedAddress::ShardAddr(a) => if a.address_for@ == "facet"@ {
                r == Ok::<OwnerQuery, AddressError>(
                    match a.facet_key {
                        Some(k) => OwnerQuery::Facet { facet_key: k },
                        None => OwnerQuery::Nothing,
                    },
                )
            } else if a.address_for@ == "note"@ {
                r == Ok::<OwnerQuery, AddressError>(
                    match a.note_key {
                        Some(k) => OwnerQuery::Note { note_key: k },
                        None => OwnerQuery::Nothing,
                    },
                )
            } else {
                r matches Err(AddressError::UnknownAddressFor(kind)) && kind@ == a.address_for@
            },
            ResolvedAddress::InNoteAddr(a) => r == Ok::<OwnerQuery, AddressError>(
                OwnerQuery::Facet { facet_key: a.facet_key },
            ),
        }
    }

    /// Which owner row this address leads to: a filesystem address by its
    /// kind (`unset_file`, `raw_file`: its node; `note`: its note; `symlink`:
    /// its node and parsed target), a shard address by its kind (`facet`,
    /// `note`), an in-note address to its facet. An unknown kind is an error.
    pub fn owner_query(&self) -> (r: Result<OwnerQuery, AddressError>)
        requires
            self.owner_query_well_defined(),
        ensures
            self.owner_query_matches(r),
    {
        match self {
            ResolvedAddress::FsAddr(a) => {
                let kind = a.address_for.as_str();
                if same_text(kind, "unset_file") {
                    Ok(OwnerQuery::UnsetFile { node_key: a.node_key })
                } else if same_text(kind, "raw_file") {
                    let data = match &a.raw_file_data {
                        Some(d) => d.clone(),
                        None => Vec::new(),
                    };
                    Ok(OwnerQuery::RawFile { node_key: a.node_key, data })
                } else if same_text(kind, "note") {
                    match a.note_key {
                        Some(k) => Ok(OwnerQuery::Note { note_key: k }),
                        None => Ok(OwnerQuery::Nothing),
                    }
                } else if same_text(kind, "symlink") {
                    match &a.symlink_path {
                        Some(p) => match AddressPath::parse(p.clone()) {
                            Some(target) => Ok(OwnerQuery::Symlink { node_key: a.node_key, target }),
                            None => Ok(OwnerQuery::Nothing),
                        },
                        None => Ok(OwnerQuery::Nothing),
                    }
                } else {
                    Err(AddressError::UnknownAddressFor(a.address_for.clone()))
                }
            },
            ResolvedAddress::ShardAddr(a) => {
                let kind = a.address_for.as_str();
                if same_text(kind, "facet") {
                    match a.facet_key {
                        Some(k) => Ok(OwnerQuery::Facet { facet_key: k }),
                        None => Ok(OwnerQuery::Nothing),
                    }
                } else if same_text(kind, "note") {
                    match a.note_key {
                        Some(k) => Ok(OwnerQuery::Note { note_key: k }),
                        None => Ok(OwnerQuery::Nothing),
                    }
                } else {
                    Err(AddressError::UnknownAddressFor(a.address_for.clone()))
                }
            },
            ResolvedAddress::InNoteAddr(a) => Ok(OwnerQuery::Facet { facet_key: a.facet_key }),
        }
    }
}

} // verus!
