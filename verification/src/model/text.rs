//! Texts.

use vstd::prelude::*;

verus! {

/// Compares two texts with `==` of `str`: true exactly where they hold the
/// same characters.
#[verifier::external_body]
pub(crate) fn str_equal(a: &str, b: &str) -> (equal: bool)
    ensures
        equal == (a@ == b@),
{
    a == b
}

} // verus!
