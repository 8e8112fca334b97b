//! Owned strings as a representation type.

use crate::repr::Repr;
use vstd::prelude::*;

verus! {

impl Repr for String {
    fn same(&self, other: &Self) -> (eq: bool) {
        *self == *other
    }

    fn duplicate(&self) -> (copy: Self) {
        self.clone()
    }
}

/// Equality of string slices, as `==` on `str` decides it: `<str as
/// PartialEq>::eq` is true exactly when both slices hold the same text,
/// compared as it stands.
#[verifier::external_body]
pub(crate) fn str_eq(a: &str, b: &str) -> (eq: bool)
    ensures
        eq == (a@ == b@),
{
    a == b
}

} // verus!
