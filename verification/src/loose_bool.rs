//! A boolean kept in an integer: 0 is false, 1 is true, and every other value
//! is kept as it came.

use crate::repr::IntRepr;
use crate::table::classify;
use crate::table::represent;
use crate::table::TagModel;
use vstd::prelude::*;
use vstd::std_specs::convert::FromSpecImpl;
use vstd::std_specs::convert::TryFromSpecImpl;

verus! {

/// An integer repr bool, with 0 being false and 1 being true. Any other value
/// will be saved as `Unknown`.
///
/// Identity is by case first and by kept value second: `Unknown(0)` can be
/// built and is not `False`, though classification never yields it.
#[derive(Debug, Copy, Hash)]
pub enum LooseBool<T: IntRepr> {
    /// A falsy value of zero.
    False,
    /// A truthy value of one.
    True,
    /// Any value that doesn't match another case.
    Unknown(T),
}

/// Error returned when attempting to convert a [`LooseBool::Unknown`] into a `bool`.
#[derive(Debug, PartialEq, Eq, Hash)]
pub struct UnknownBoolError;

impl UnknownBoolError {
    /// What went wrong, in words.
    pub fn message(&self) -> (text: String)
        ensures
            text@ == "Cannot convert `LooseBool::Unknown` into `bool`."@,
    {
        "Cannot convert `LooseBool::Unknown` into `bool`.".to_owned()
    }
}

impl<T: IntRepr> LooseBool<T> {
    /// The case that a representation value stands for.
    pub open spec fn classify(value: T) -> Self {
        if value.as_int() == 0 {
            LooseBool::False
        } else if value.as_int() == 1 {
            LooseBool::True
        } else {
            LooseBool::Unknown(value)
        }
    }

    /// The representation value of a case.
    pub open spec fn repr(self) -> T {
        match self {
            LooseBool::False => T::spec_zero(),
            LooseBool::True => T::spec_one(),
            LooseBool::Unknown(value) => value,
        }
    }

    /// The case that a boolean stands for.
    pub open spec fn from_bool_spec(value: bool) -> Self {
        if value {
            LooseBool::True
        } else {
            LooseBool::False
        }
    }

    /// The boolean that a case narrows to, where it has one.
    pub open spec fn narrow(self) -> Result<bool, UnknownBoolError> {
        match self {
            LooseBool::False => Ok(false),
            LooseBool::True => Ok(true),
            LooseBool::Unknown(_) => Err(UnknownBoolError),
        }
    }

    /// The tag of a case in the open enumeration declared by
    /// [`declared_values`].
    pub open spec fn tag(self) -> TagModel<T::V> {
        match self {
            LooseBool::False => TagModel::Named(0),
            LooseBool::True => TagModel::Named(1),
            LooseBool::Unknown(value) => TagModel::Undefined(value@),
        }
    }

    /// Whether classification can produce this case: every case but an
    /// `Unknown` that keeps 0 or 1.
    pub open spec fn is_canonical(self) -> bool {
        self matches LooseBool::Unknown(value) ==> value.as_int() != 0 && value.as_int() != 1
    }

    /// Returns true if the value is [`True`](Self::True).
    pub fn is_true(&self) -> (yes: bool)
        ensures
            yes == (*self is True),
    {
        matches!(self, LooseBool::True)
    }

    /// Returns true if the value is [`False`](Self::False).
    pub fn is_false(&self) -> (yes: bool)
        ensures
            yes == (*self is False),
    {
        matches!(self, LooseBool::False)
    }

    /// The case that a boolean stands for: `True` for true, `False` for false.
    pub fn from_bool(value: bool) -> (case: Self)
        ensures
            case == Self::from_bool_spec(value),
    {
        match value {
            true => LooseBool::True,
            false => LooseBool::False,
        }
    }

    /// Converts the case into its representation.
    pub fn to_repr(self) -> (value: T)
        ensures
            value == self.repr(),
    {
        match self {
            LooseBool::False => T::zero(),
            LooseBool::True => T::one(),
            LooseBool::Unknown(value) => value,
        }
    }
}

impl<T: IntRepr> From<T> for LooseBool<T> {
    fn from(value: T) -> (case: Self)
        ensures
            case == Self::classify(value),
            case.is_canonical(),
    {
        proof {
            T::lemma_int_repr(value, T::spec_zero());
            T::lemma_int_repr(value, T::spec_one());
        }
        if value.same(&T::zero()) {
            LooseBool::False
        } else if value.same(&T::one()) {
            LooseBool::True
        } else {
            LooseBool::Unknown(value)
        }
    }
}

impl<T: IntRepr> FromSpecImpl<T> for LooseBool<T> {
    open spec fn obeys_from_spec() -> bool {
        true
    }

    open spec fn from_spec(value: T) -> Self {
        Self::classify(value)
    }
}

impl<T: IntRepr> TryFrom<LooseBool<T>> for bool {
    type Error = UnknownBoolError;

    fn try_from(value: LooseBool<T>) -> (narrowed: Result<Self, Self::Error>)
        ensures
            narrowed == value.narrow(),
    {
        match value {
            LooseBool::False => Ok(false),
            LooseBool::True => Ok(true),
            LooseBool::Unknown(_) => Err(UnknownBoolError),
        }
    }
}

impl<T: IntRepr> TryFromSpecImpl<LooseBool<T>> for bool {
    open spec fn obeys_try_from_spec() -> bool {
        true
    }

    open spec fn try_from_spec(value: LooseBool<T>) -> Result<Self, Self::Error> {
        value.narrow()
    }
}

impl<T: IntRepr> Default for LooseBool<T> {
    fn default() -> (case: Self)
        ensures
            case == LooseBool::<T>::False,
    {
        LooseBool::False
    }
}

impl<T: IntRepr> Clone for LooseBool<T> {
    fn clone(&self) -> (copy: Self)
        ensures
            copy == *self,
    {
        *self
    }
}

impl<T: IntRepr> PartialEq for LooseBool<T> {
    fn eq(&self, other: &Self) -> (eq: bool)
        ensures
            eq == (*self == *other),
    {
        match (self, other) {
            (LooseBool::False, LooseBool::False) => true,
            (LooseBool::True, LooseBool::True) => true,
            (LooseBool::Unknown(a), LooseBool::Unknown(b)) => {
                proof {
                    T::lemma_int_repr(*a, *b);
                }
                a.same(b)
            },
            _ => false,
        }
    }
}

impl<T: IntRepr> Eq for LooseBool<T> {

}

impl<T: IntRepr> vstd::std_specs::cmp::PartialEqSpecImpl for LooseBool<T> {
    open spec fn obeys_eq_spec() -> bool {
        true
    }

    open spec fn eq_spec(&self, other: &Self) -> bool {
        *self == *other
    }
}

/// The declaration behind [`LooseBool`]: `False` is declared with 0, then
/// `True` with 1.
pub open spec fn declared_values<T: IntRepr>() -> Seq<T::V> {
    seq![T::spec_zero()@, T::spec_one()@]
}

/// [`LooseBool`] is the open enumeration declared by 0 and 1: its conversions
/// are those of [`declared_values`], case for tag.
pub proof fn lemma_is_declared_by_zero_and_one<T: IntRepr>(value: T, case: LooseBool<T>)
    ensures
        declared_values::<T>().no_duplicates(),
        LooseBool::classify(value).tag() == classify(declared_values::<T>(), value@),
        case.repr()@ == represent(declared_values::<T>(), case.tag()),
{
    let named = declared_values::<T>();
    T::lemma_int_repr(T::spec_zero(), T::spec_one());
    T::lemma_int_repr(value, T::spec_zero());
    T::lemma_int_repr(value, T::spec_one());
    assert(named[0] == T::spec_zero()@ && named[1] == T::spec_one()@);
    crate::table::lemma_classify_named(named, value@, 0);
    crate::table::lemma_classify_named(named, value@, 1);
}

/// Round trip: the case of a representation value represents that same
/// value, whatever the value is.
pub proof fn lemma_round_trip<T: IntRepr>(value: T)
    ensures
        LooseBool::classify(value).repr() == value,
{
    T::lemma_int_repr(value, T::spec_zero());
    T::lemma_int_repr(value, T::spec_one());
}

/// Classification stability: 0 is classified as `False` and 1 as `True`.
pub proof fn lemma_named_values_keep_their_case<T: IntRepr>()
    ensures
        LooseBool::classify(T::spec_zero()) == LooseBool::<T>::False,
        LooseBool::classify(T::spec_one()) == LooseBool::<T>::True,
{
    T::lemma_int_repr(T::spec_zero(), T::spec_one());
}

/// Catch-all completeness: a value other than 0 and 1 is classified as
/// `Unknown` around exactly that value.
pub proof fn lemma_other_value_is_kept<T: IntRepr>(value: T)
    requires
        value != T::spec_zero(),
        value != T::spec_one(),
    ensures
        LooseBool::classify(value) == LooseBool::Unknown(value),
{
    T::lemma_int_repr(value, T::spec_zero());
    T::lemma_int_repr(value, T::spec_one());
}

/// A boolean survives the way through [`LooseBool`]: the case it stands for
/// narrows back to it.
pub proof fn lemma_bool_round_trip<T: IntRepr>(value: bool)
    ensures
        LooseBool::<T>::from_bool_spec(value).narrow() == Ok::<bool, UnknownBoolError>(value),
{
}

/// Classification stability through the representation: a canonical case is
/// the case of its own representation value. A format that gives back the
/// representation value it was handed therefore gives back the case.
pub proof fn lemma_canonical_case_survives<T: IntRepr>(case: LooseBool<T>)
    requires
        case.is_canonical(),
    ensures
        LooseBool::classify(case.repr()) == case,
{
    T::lemma_int_repr(T::spec_zero(), T::spec_one());
}

/// Every case that classification produces is canonical: matching comes
/// before the fallback, so an `Unknown` it yields never keeps 0 or 1.
pub proof fn lemma_classify_is_canonical<T: IntRepr>(value: T)
    ensures
        LooseBool::classify(value).is_canonical(),
{
}

} // verus!
