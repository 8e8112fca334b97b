//! Table-driven open enumerations.
//!
//! A [`LooseEnum`] is declared by the representation values of its named
//! variants, in declaration order. A [`Tag`] is one value of such an
//! enumeration: a named variant, given by its position in the declaration, or
//! the catch-all variant holding a representation value.

use crate::repr::text::str_eq;
use crate::repr::Repr;
use vstd::prelude::*;

verus! {

/// The mathematical value of a [`Tag`].
pub enum TagModel<V> {
    /// The named variant at this position of the declaration.
    Named(nat),
    /// The catch-all variant and the value it keeps.
    Undefined(V),
}

/// `i` is the position of the first of `named` that equals `value`.
pub open spec fn is_first_match<V>(named: Seq<V>, value: V, i: int) -> bool {
    &&& 0 <= i < named.len()
    &&& named[i] == value
    &&& forall|j: int| 0 <= j < i ==> named[j] != value
}

/// The tag that a representation value stands for: the first named variant
/// declared with that value, the catch-all around the value where there is none.
pub open spec fn classify<V>(named: Seq<V>, value: V) -> TagModel<V> {
    if named.contains(value) {
        TagModel::Named((choose|i: int| is_first_match(named, value, i)) as nat)
    } else {
        TagModel::Undefined(value)
    }
}

/// Whether a tag belongs to the enumeration declared by `named`.
pub open spec fn admits<V>(named: Seq<V>, tag: TagModel<V>) -> bool {
    tag matches TagModel::Named(i) ==> i < named.len()
}

/// The representation value of a tag: the declared value of a named variant,
/// the kept value of the catch-all.
pub open spec fn represent<V>(named: Seq<V>, tag: TagModel<V>) -> V
    recommends
        admits(named, tag),
{
    match tag {
        TagModel::Named(i) => named[i as int],
        TagModel::Undefined(value) => value,
    }
}

/// Whether classification can produce this tag: a named variant that is the
/// first with its value, or a catch-all whose value no named variant has.
pub open spec fn is_canonical<V>(named: Seq<V>, tag: TagModel<V>) -> bool {
    match tag {
        TagModel::Named(i) => is_first_match(named, named[i as int], i as int),
        TagModel::Undefined(value) => !named.contains(value),
    }
}

/// One value of an open enumeration.
///
/// Identity is by variant first and by kept value second: a catch-all is never
/// equal to a named variant, whatever value it keeps. A catch-all can be built
/// around any value, also one that a named variant is declared with; such a tag
/// is not canonical (see [`is_canonical`]) and classification never yields it.
#[derive(Debug, Hash)]
pub enum Tag<R> {
    /// The named variant at this position of the declaration.
    Named(usize),
    /// Any value that doesn't match a named variant.
    Undefined(R),
}

impl<R: View> View for Tag<R> {
    type V = TagModel<R::V>;

    open spec fn view(&self) -> TagModel<R::V> {
        match *self {
            Tag::Named(i) => TagModel::Named(i as nat),
            Tag::Undefined(value) => TagModel::Undefined(value@),
        }
    }
}

impl<R: Repr> Clone for Tag<R> {
    fn clone(&self) -> (copy: Self)
        ensures
            copy@ == self@,
    {
        match self {
            Tag::Named(i) => Tag::Named(*i),
            Tag::Undefined(kept) => Tag::Undefined(kept.duplicate()),
        }
    }
}

impl<R: Repr> PartialEq for Tag<R> {
    fn eq(&self, other: &Self) -> (eq: bool)
        ensures
            eq == (self@ == other@),
    {
        match (self, other) {
            (Tag::Named(i), Tag::Named(j)) => *i == *j,
            (Tag::Undefined(a), Tag::Undefined(b)) => a.same(b),
            _ => false,
        }
    }
}

impl<R: Repr> Eq for Tag<R> {

}

impl<R: Repr> vstd::std_specs::cmp::PartialEqSpecImpl for Tag<R> {
    open spec fn obeys_eq_spec() -> bool {
        true
    }

    open spec fn eq_spec(&self, other: &Self) -> bool {
        self@ == other@
    }
}

/// The views of a sequence of representation values.
pub open spec fn views<R: View>(values: Seq<R>) -> Seq<R::V> {
    values.map_values(|value: R| value@)
}

/// The declaration of an open enumeration: the representation values of its
/// named variants, in declaration order.
///
/// The values are meant to be distinct. Where two variants are declared with
/// the same value, the first one wins every match; see
/// [`LooseEnum::has_distinct_values`].
#[derive(Debug)]
pub struct LooseEnum<R> {
    named: Vec<R>,
}

impl<R: View> View for LooseEnum<R> {
    type V = Seq<R::V>;

    closed spec fn view(&self) -> Seq<R::V> {
        views(self.named@)
    }
}

impl<R: Repr> LooseEnum<R> {
    /// Declares an open enumeration by the values of its named variants.
    pub fn new(named: Vec<R>) -> (decl: Self)
        ensures
            decl@ == views(named@),
    {
        LooseEnum { named }
    }

    /// The number of named variants.
    pub fn len(&self) -> (n: usize)
        ensures
            n == self@.len(),
    {
        self.named.len()
    }

    /// Whether no two named variants are declared with the same value.
    pub fn has_distinct_values(&self) -> (distinct: bool)
        ensures
            distinct == self@.no_duplicates(),
    {
        let mut i: usize = 0;
        while i < self.named.len()
            invariant
                i <= self.named.len(),
                forall|a: int, b: int| 0 <= a < b < self@.len() && b < i ==> self@[a] != self@[b],
            decreases self.named.len() - i,
        {
            let mut j: usize = 0;
            while j < i
                invariant
                    j <= i < self.named.len(),
                    forall|a: int| 0 <= a < j ==> self@[a] != self@[i as int],
                decreases i - j,
            {
                if self.named[j].same(&self.named[i]) {
                    assert(self@[j as int] == self@[i as int]);
                    return false;
                }
                j += 1;
            }
            i += 1;
        }
        true
    }

    /// Representation to enumeration: the first named variant declared with
    /// `value`, or the catch-all around `value` itself.
    pub fn from_repr(&self, value: R) -> (tag: Tag<R>)
        ensures
            tag@ == classify(self@, value@),
            tag matches Tag::Undefined(kept) ==> kept == value,
            is_canonical(self@, tag@),
    {
        proof {
            lemma_classify_is_canonical(self@, value@);
        }
        let mut i: usize = 0;
        while i < self.named.len()
            invariant
                i <= self.named.len(),
                forall|j: int| 0 <= j < i ==> self@[j] != value@,
            decreases self.named.len() - i,
        {
            if self.named[i].same(&value) {
                proof {
                    lemma_classify_named(self@, value@, i as nat);
                }
                return Tag::Named(i);
            }
            i += 1;
        }
        Tag::Undefined(value)
    }

    /// Whether a tag belongs to this enumeration: every catch-all does, and a
    /// named variant does where the declaration has its position.
    pub fn admits(&self, tag: &Tag<R>) -> (yes: bool)
        ensures
            yes == admits(self@, tag@),
    {
        match tag {
            Tag::Named(i) => *i < self.named.len(),
            Tag::Undefined(_) => true,
        }
    }

    /// Enumeration to representation, borrowed: the declared value of a named
    /// variant, the kept value of the catch-all. The tag has to belong to this
    /// enumeration.
    pub fn as_repr<'a>(&'a self, tag: &'a Tag<R>) -> (value: &'a R)
        requires
            admits(self@, tag@),
        ensures
            value@ == represent(self@, tag@),
            *tag matches Tag::Undefined(kept) ==> *value == kept,
    {
        match tag {
            Tag::Named(i) => &self.named[*i],
            Tag::Undefined(kept) => kept,
        }
    }

    /// Enumeration to representation: the declared value of a named variant,
    /// the kept value of the catch-all. The tag has to belong to this
    /// enumeration.
    pub fn to_repr(&self, tag: Tag<R>) -> (value: R)
        requires
            admits(self@, tag@),
        ensures
            value@ == represent(self@, tag@),
            tag matches Tag::Undefined(kept) ==> value == kept,
    {
        match tag {
            Tag::Named(i) => self.named[i].duplicate(),
            Tag::Undefined(kept) => kept,
        }
    }
}

impl LooseEnum<String> {
    /// Representation to enumeration, from borrowed text: as
    /// [`LooseEnum::from_repr`], and the text is copied only where the
    /// catch-all has to keep it.
    pub fn from_str(&self, value: &str) -> (tag: Tag<String>)
        ensures
            tag@ == classify(self@, value@),
            is_canonical(self@, tag@),
    {
        proof {
            lemma_classify_is_canonical(self@, value@);
        }
        let mut i: usize = 0;
        while i < self.named.len()
            invariant
                i <= self.named.len(),
                forall|j: int| 0 <= j < i ==> self@[j] != value@,
            decreases self.named.len() - i,
        {
            if str_eq(self.named[i].as_str(), value) {
                proof {
                    lemma_classify_named(self@, value@, i as nat);
                }
                return Tag::Named(i);
            }
            i += 1;
        }
        Tag::Undefined(value.to_owned())
    }
}

/// A value that occurs among the named values has exactly one first match.
pub proof fn lemma_first_match_exists<V>(named: Seq<V>, value: V)
    requires
        named.contains(value),
    ensures
        exists|i: int| is_first_match(named, value, i),
    decreases named.len(),
{
    let k = choose|k: int| 0 <= k < named.len() && named[k] == value;
    let front = named.take(k);
    if front.contains(value) {
        lemma_first_match_exists(front, value);
        let i = choose|i: int| is_first_match(front, value, i);
        assert(is_first_match(named, value, i)) by {
            assert(named[i] == front[i]);
            assert forall|j: int| 0 <= j < i implies named[j] != value by {
                assert(named[j] == front[j]);
            }
        }
    } else {
        assert(is_first_match(named, value, k)) by {
            assert forall|j: int| 0 <= j < k implies named[j] != value by {
                assert(front[j] == named[j]);
            }
        }
    }
}

/// Classification is decided by the first match: it gives the named variant
/// at `i` exactly when `i` is the first position holding the value.
pub proof fn lemma_classify_named<V>(named: Seq<V>, value: V, i: nat)
    ensures
        classify(named, value) == TagModel::<V>::Named(i) <==> is_first_match(named, value, i as int),
{
    if named.contains(value) {
        lemma_first_match_exists(named, value);
        let c = choose|c: int| is_first_match(named, value, c);
        if is_first_match(named, value, i as int) {
            assert(c == i) by {
                if c < i {
                    assert(named[c] != value);
                }
                if i < c {
                    assert(named[i as int] != value);
                }
            }
        }
    } else {
        if is_first_match(named, value, i as int) {
            assert(named.contains(value));
        }
    }
}

/// Round trip: the tag of a representation value belongs to the enumeration
/// and represents that same value, whatever the value is.
pub proof fn lemma_round_trip<V>(named: Seq<V>, value: V)
    ensures
        admits(named, classify(named, value)),
        represent(named, classify(named, value)) == value,
{
    if named.contains(value) {
        lemma_first_match_exists(named, value);
    }
}

/// Classification stability: where the named values are distinct, the value
/// of each named variant is classified as that variant.
pub proof fn lemma_named_value_keeps_its_tag<V>(named: Seq<V>, i: nat)
    requires
        named.no_duplicates(),
        i < named.len(),
    ensures
        classify(named, named[i as int]) == TagModel::<V>::Named(i),
{
    lemma_classify_named(named, named[i as int], i);
}

/// Catch-all completeness: a value is classified as the catch-all around
/// exactly that value when no named variant has it, and only then.
pub proof fn lemma_unnamed_value_is_kept<V>(named: Seq<V>, value: V)
    ensures
        !named.contains(value) <==> classify(named, value) == TagModel::Undefined(value),
        !named.contains(value) <==> classify(named, value) is Undefined,
{
}

/// Where the named values are distinct, every named variant of the
/// enumeration is canonical.
pub proof fn lemma_distinct_named_are_canonical<V>(named: Seq<V>, i: nat)
    requires
        named.no_duplicates(),
        i < named.len(),
    ensures
        is_canonical(named, TagModel::<V>::Named(i)),
{
}

/// Classification stability through the representation: a canonical tag is
/// the tag of its own representation value. A format that gives back the
/// representation value it was handed therefore gives back the tag.
pub proof fn lemma_canonical_tag_survives<V>(named: Seq<V>, tag: TagModel<V>)
    requires
        is_canonical(named, tag),
    ensures
        admits(named, tag),
        classify(named, represent(named, tag)) == tag,
{
    if let TagModel::Named(i) = tag {
        lemma_classify_named(named, named[i as int], i);
    }
}

/// Every tag that classification produces is canonical: matching comes before
/// the fallback, so a catch-all it yields never keeps a named value.
pub proof fn lemma_classify_is_canonical<V>(named: Seq<V>, value: V)
    ensures
        is_canonical(named, classify(named, value)),
{
    if named.contains(value) {
        lemma_first_match_exists(named, value);
    }
}

} // verus!
