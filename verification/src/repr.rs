//! Representation types: the values an open enumeration is encoded as.

use vstd::prelude::*;

pub mod signed;
pub mod text;
pub mod unsigned;

verus! {

/// A type whose values can stand behind an open enumeration.
///
/// Two values are the same representation exactly when their views are equal.
pub trait Repr: View + Sized {
    /// Value equality: exact, with no normalisation of any kind.
    fn same(&self, other: &Self) -> (eq: bool)
        ensures
            eq == (self@ == other@),
    ;

    /// A fresh value with the same view.
    fn duplicate(&self) -> (copy: Self)
        ensures
            copy@ == self@,
    ;
}

/// A primitive integer representation, with its zero and its one.
pub trait IntRepr: Repr + Copy {
    /// The integer this value denotes.
    spec fn as_int(self) -> int;

    /// The value that denotes 0.
    spec fn spec_zero() -> Self;

    /// The value that denotes 1.
    spec fn spec_one() -> Self;

    /// The two constants denote 0 and 1, and a value, its view and the
    /// integer it denotes determine one another.
    proof fn lemma_int_repr(a: Self, b: Self)
        ensures
            Self::spec_zero().as_int() == 0,
            Self::spec_one().as_int() == 1,
            (a.as_int() == b.as_int()) == (a == b),
            (a@ == b@) == (a == b),
    ;

    /// The constant 0.
    fn zero() -> (z: Self)
        ensures
            z == Self::spec_zero(),
    ;

    /// The constant 1.
    fn one() -> (o: Self)
        ensures
            o == Self::spec_one(),
    ;
}

} // verus!
