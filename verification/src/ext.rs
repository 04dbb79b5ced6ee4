//! Thin wrappers around outside functions that the verified code relies on.

use vstd::prelude::*;

verus! {

/// Relies on `str`'s `PartialEq` impl: two string slices compare equal
/// exactly when their character sequences are equal.
#[verifier::external_body]
pub(crate) fn str_eq(a: &str, b: &str) -> (r: bool)
    ensures
        r == (a@ == b@),
{
    a == b
}

/// Relies on `uuid::Uuid::new_v4` and its `Display` impl: a fresh random
/// identifier is rendered in the hyphenated form, which is always exactly
/// 36 ASCII characters. Nothing else can be promised of a random value.
#[verifier::external_body]
pub(crate) fn new_uuid() -> (r: String)
    ensures
        r@.len() == 36,
{
    uuid::Uuid::new_v4().to_string()
}

} // verus!
