use vstd::prelude::*;

pub mod address;
pub mod bismuth_fs;
pub mod request;

verus! {
} // verus!
