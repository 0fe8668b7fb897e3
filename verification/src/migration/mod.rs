//! The order of the schema migration: which tables are made and which rows
//! are put in, and how that is undone.
use vstd::prelude::*;

pub mod facet_fields;
pub mod util;

verus! {
} // verus!
