//! `std::any::TypeId`, carried through the publish/subscribe tables to tell
//! message types apart.
use vstd::prelude::*;
use std::any::TypeId;

verus! {

#[verifier::external_type_specification]
#[verifier::external_body]
pub struct ExTypeId(TypeId);

/// Calls `TypeId`'s `==`. The contract claims that it returns `true` exactly
/// when the two ids are the same value, i.e. the ids of one and the same type.
#[verifier::external_body]
pub fn same_type(a: &TypeId, b: &TypeId) -> (r: bool)
    ensures
        r == (*a == *b),
{
    *a == *b
}

} // verus!
