//! The unsigned primitive integers as representation types.

use crate::repr::IntRepr;
use crate::repr::Repr;
use vstd::prelude::*;

verus! {

impl Repr for u8 {
    fn same(&self, other: &Self) -> (eq: bool) {
        *self == *other
    }

    fn duplicate(&self) -> (copy: Self) {
        *self
    }
}

impl IntRepr for u8 {
    open spec fn as_int(self) -> int {
        self as int
    }

    open spec fn spec_zero() -> Self {
        0
    }

    open spec fn spec_one() -> Self {
        1
    }

    proof fn lemma_int_repr(a: Self, b: Self) {
    }

    fn zero() -> (z: Self) {
        0
    }

    fn one() -> (o: Self) {
        1
    }
}

impl Repr for u16 {
    fn same(&self, other: &Self) -> (eq: bool) {
        *self == *other
    }

    fn duplicate(&self) -> (copy: Self) {
        *self
    }
}

impl IntRepr for u16 {
    open spec fn as_int(self) -> int {
        self as int
    }

    open spec fn spec_zero() -> Self {
        0
    }

    open spec fn spec_one() -> Self {
        1
    }

    proof fn lemma_int_repr(a: Self, b: Self) {
    }

    fn zero() -> (z: Self) {
        0
    }

    fn one() -> (o: Self) {
        1
    }
}

impl Repr for u32 {
    fn same(&self, other: &Self) -> (eq: bool) {
        *self == *other
    }

    fn duplicate(&self) -> (copy: Self) {
        *self
    }
}

impl IntRepr for u32 {
    open spec fn as_int(self) -> int {
        self as int
    }

    open spec fn spec_zero() -> Self {
        0
    }

    open spec fn spec_one() -> Self {
        1
    }

    proof fn lemma_int_repr(a: Self, b: Self) {
    }

    fn zero() -> (z: Self) {
        0
    }

    fn one() -> (o: Self) {
        1
    }
}

impl Repr for u64 {
    fn same(&self, other: &Self) -> (eq: bool) {
        *self == *other
    }

    fn duplicate(&self) -> (copy: Self) {
        *self
    }
}

impl IntRepr for u64 {
    open spec fn as_int(self) -> int {
        self as int
    }

    open spec fn spec_zero() -> Self {
        0
    }

    open spec fn spec_one() -> Self {
        1
    }

    proof fn lemma_int_repr(a: Self, b: Self) {
    }

    fn zero() -> (z: Self) {
        0
    }

    fn one() -> (o: Self) {
        1
    }
}

impl Repr for u128 {
    fn same(&self, other: &Self) -> (eq: bool) {
        *self == *other
    }

    fn duplicate(&self) -> (copy: Self) {
        *self
    }
}

impl IntRepr for u128 {
    open spec fn as_int(self) -> int {
        self as int
    }

    open spec fn spec_zero() -> Self {
        0
    }

    open spec fn spec_one() -> Self {
        1
    }

    proof fn lemma_int_repr(a: Self, b: Self) {
    }

    fn zero() -> (z: Self) {
        0
    }

    fn one() -> (o: Self) {
        1
    }
}

impl Repr for usize {
    fn same(&self, other: &Self) -> (eq: bool) {
        *self == *other
    }

    fn duplicate(&self) -> (copy: Self) {
        *self
    }
}

impl IntRepr for usize {
    open spec fn as_int(self) -> int {
        self as int
    }

    open spec fn spec_zero() -> Self {
        0
    }

    open spec fn spec_one() -> Self {
        1
    }

    proof fn lemma_int_repr(a: Self, b: Self) {
    }

    fn zero() -> (z: Self) {
        0
    }

    fn one() -> (o: Self) {
        1
    }
}

} // verus!
