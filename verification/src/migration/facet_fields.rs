//! The tables that hold the values of one kind of facet field.
use vstd::prelude::*;
use vstd::string::*;

verus! {

/// The table of a facet field kind: its name followed by `_facet_field`.
pub fn facet_field_table_name(field_name: &str) -> (r: String)
    ensures
        r@ == field_name@ + "_facet_field"@,
{
    field_name.to_owned().concat("_facet_field")
}

} // verus!
