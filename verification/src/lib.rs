//! Verified core of a note-and-shard file store: the address-path grammar,
//! the address/owner lookups, and the decisions of the filesystem requests.
use vstd::prelude::*;

pub mod db;
pub mod fs;
pub mod json;
pub mod migration;
pub mod text;

verus! {
} // verus!
