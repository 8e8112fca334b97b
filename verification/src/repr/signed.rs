//! The signed primitive integers as representation types.

use crate::repr::IntRepr;
use crate::repr::Repr;
use vstd::prelude::*;

verus! {

impl Repr for i8 {
    fn same(&self, other: &Self) -> (eq: bool) {
        *self == *other
    }

    fn duplicate(&self) -> (copy: Self) {
        *self
    }
}

impl IntRepr for i8 {
    open spec fn as_int(self) -> int {
        self as int
    }

    open spec fn spec_zero() -> Self {
        0
    }

    open spec fn spec_one() -> Self {
        1
    }

    proof fn lemma_int_repr(a: Self, b: Self) {
    }

    fn zero() -> (z: Self) {
        0
    }

    fn one() -> (o: Self) {
        1
    }
}

impl Repr for i16 {
    fn same(&self, other: &Self) -> (eq: bool) {
        *self == *other
    }

    fn duplicate(&self) -> (copy: Self) {
        *self
    }
}

impl IntRepr for i16 {
    open spec fn as_int(self) -> int {
        self as int
    }

    open spec fn spec_zero() -> Self {
        0
    }

    open spec fn spec_one() -> Self {
        1
    }

    proof fn lemma_int_repr(a: Self, b: Self) {
    }

    fn zero() -> (z: Self) {
        0
    }

    fn one() -> (o: Self) {
        1
    }
}

impl Repr for i32 {
    fn same(&self, other: &Self) -> (eq: bool) {
        *self == *other
    }

    fn duplicate(&self) -> (copy: Self) {
        *self
    }
}

impl IntRepr for i32 {
    open spec fn as_int(self) -> int {
        self as int
    }

    open spec fn spec_zero() -> Self {
        0
    }

    open spec fn spec_one() -> Self {
        1
    }

    proof fn lemma_int_repr(a: Self, b: Self) {
    }

    fn zero() -> (z: Self) {
        0
    }

    fn one() -> (o: Self) {
        1
    }
}

impl Repr for i64 {
    fn same(&self, other: &Self) -> (eq: bool) {
        *self == *other
    }

    fn duplicate(&self) -> (copy: Self) {
        *self
    }
}

impl IntRepr for i64 {
    open spec fn as_int(self) -> int {
        self as int
    }

    open spec fn spec_zero() -> Self {
        0
    }

    open spec fn spec_one() -> Self {
        1
    }

    proof fn lemma_int_repr(a: Self, b: Self) {
    }

    fn zero() -> (z: Self) {
        0
    }

    fn one() -> (o: Self) {
        1
    }
}

impl Repr for i128 {
    fn same(&self, other: &Self) -> (eq: bool) {
        *self == *other
    }

    fn duplicate(&self) -> (copy: Self) {
        *self
    }
}

impl IntRepr for i128 {
    open spec fn as_int(self) -> int {
        self as int
    }

    open spec fn spec_zero() -> Self {
        0
    }

    open spec fn spec_one() -> Self {
        1
    }

    proof fn lemma_int_repr(a: Self, b: Self) {
    }

    fn zero() -> (z: Self) {
        0
    }

    fn one() -> (o: Self) {
        1
    }
}

impl Repr for isize {
    fn same(&self, other: &Self) -> (eq: bool) {
        *self == *other
    }

    fn duplicate(&self) -> (copy: Self) {
        *self
    }
}

impl IntRepr for isize {
    open spec fn as_int(self) -> int {
        self as int
    }

    open spec fn spec_zero() -> Self {
        0
    }

    open spec fn spec_one() -> Self {
        1
    }

    proof fn lemma_int_repr(a: Self, b: Self) {
    }

    fn zero() -> (z: Self) {
        0
    }

    fn one() -> (o: Self) {
        1
    }
}

} // verus!
