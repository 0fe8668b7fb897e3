use vstd::prelude::*;

pub mod address_owner;
pub mod address_path;
pub mod laws;
pub mod resolved_address;

verus! {

/// Why an address could not be resolved.
#[derive(Debug)]
pub enum AddressError {
    /// An address row names a kind of owner the store does not know
    /// (reported as `unknown address_for: <kind>`).
    UnknownAddressFor(String),
    /// The JSON text of a path walk could not be written (writing a list
    /// of strings into memory does not fail, so this is not reported).
    Json(serde_json::Error),
    /// A row or column of an in-note path is not an `i64`.
    Number(core::num::ParseIntError),
}

} // verus!
