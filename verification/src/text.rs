use vstd::prelude::*;

verus! {

/// Equality of two string slices.
///
/// Trusted: stands for `str::eq` of the standard library, which holds
/// exactly when both slices spell the same sequence of characters.
#[verifier::external_body]
pub(crate) fn str_eq(left: &str, right: &str) -> (same: bool)
    ensures
        same == (left@ == right@),
{
    left.eq(right)
}

} // verus!
