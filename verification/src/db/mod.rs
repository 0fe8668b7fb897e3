use vstd::prelude::*;

pub mod entity;

verus! {
} // verus!
