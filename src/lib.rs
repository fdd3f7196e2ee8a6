//! An unordered pair: two values of one type whose equality, hashing and
//! ordered conversion do not depend on the order in which they are stored.
use vstd::prelude::*;
use core::hash::{Hash, Hasher};
use vstd::laws_cmp::{
    obeys_cmp, obeys_cmp_ord, obeys_cmp_partial_ord, obeys_partial_cmp_spec_properties,
};
use vstd::laws_eq::obeys_eq_spec_properties;
use vstd::std_specs::cmp::{OrdSpec, PartialEqSpec, PartialOrdSpec};
use vstd::std_specs::convert::FromSpec;

verus! {

/// Two values of the same type. Equality and hashing disregard which of the
/// two slots holds which value; construction stores them as given.
#[derive(Debug, Copy, Clone, Eq, Default)]
pub struct UnorderedPair<T>(pub T, pub T);

impl<T> UnorderedPair<T> {
    /// The two elements in stored order, as iteration yields them.
    pub open spec fn items(self) -> Seq<T> {
        seq![self.0, self.1]
    }

    /// The two elements as a tuple, smallest first, by `T`'s order; on a tie
    /// the stored order is kept.
    pub open spec fn ordered(self) -> (T, T)
        where T: Ord
    {
        if self.0.cmp_spec(&self.1) == core::cmp::Ordering::Greater {
            (self.1, self.0)
        } else {
            (self.0, self.1)
        }
    }

    /// The two elements by value, in stored order.
    pub fn into_vec(self) -> (r: Vec<T>)
        ensures
            r@ == self.items(),
    {
        let UnorderedPair(first, second) = self;
        let mut v: Vec<T> = Vec::new();
        v.push(first);
        v.push(second);
        v
    }

    /// References to the two elements, in stored order.
    pub fn elements(&self) -> (r: Vec<&T>)
        ensures
            r@.len() == 2,
            *r@[0] == self.0,
            *r@[1] == self.1,
    {
        let mut v: Vec<&T> = Vec::new();
        v.push(&self.0);
        v.push(&self.1);
        v
    }

    /// Mutable references to the two elements, in stored order.
    pub fn elements_mut(&mut self) -> (r: Vec<&mut T>)
        ensures
            r@.len() == 2,
            *r@[0] == old(self).0,
            *r@[1] == old(self).1,
            final(self).0 == *final(r@[0]),
            final(self).1 == *final(r@[1]),
    {
        let UnorderedPair(first, second) = self;
        let mut v: Vec<&mut T> = Vec::new();
        v.push(first);
        v.push(second);
        v
    }
}

impl<T: Ord> UnorderedPair<T> {
    /// Transforms the pair into a `(T, T)` whose components run from smallest
    /// to largest.
    pub fn into_ordered_tuple(self) -> (r: (T, T))
        ensures
            T::obeys_cmp_spec() ==> r == self.ordered(),
    {
        let UnorderedPair(first, second) = self;
        match first.cmp(&second) {
            core::cmp::Ordering::Greater => (second, first),
            _ => (first, second),
        }
    }

    /// References to the two elements in the order in which they are fed to a
    /// hasher: smallest first, the stored order on a tie.
    pub fn hash_order(&self) -> (r: (&T, &T))
        ensures
            T::obeys_cmp_spec() ==> (*r.0, *r.1) == self.ordered(),
    {
        let UnorderedPair(first, second) = self;
        match first.cmp(second) {
            core::cmp::Ordering::Greater => (second, first),
            _ => (first, second),
        }
    }
}

/// Relies on `Hash::hash` of the element type: feeds `value` into `state`.
#[verifier::external_body]
fn feed<T: Hash, H: Hasher>(value: &T, state: &mut H) {
    value.hash(state)
}

/// Computes the same hash regardless of the order of the contained items:
/// the elements go into the hasher as `hash_order` gives them.
impl<T: Ord + Hash> Hash for UnorderedPair<T> {
    fn hash<H: Hasher>(&self, state: &mut H) {
        let (low, high) = self.hash_order();
        feed(low, state);
        feed(high, state);
    }
}

/// Compares two pairs while disregarding the order of the contained items.
impl<T: PartialEq> PartialEq for UnorderedPair<T> {
    fn eq(&self, other: &UnorderedPair<T>) -> (r: bool) {
        (self.0 == other.0 && self.1 == other.1) || (self.0 == other.1 && self.1 == other.0)
    }
}

impl<T: PartialEq> vstd::std_specs::cmp::PartialEqSpecImpl for UnorderedPair<T> {
    open spec fn obeys_eq_spec() -> bool {
        T::obeys_eq_spec()
    }

    open spec fn eq_spec(&self, other: &UnorderedPair<T>) -> bool {
        (self.0.eq_spec(&other.0) && self.1.eq_spec(&other.1)) || (self.0.eq_spec(&other.1)
            && self.1.eq_spec(&other.0))
    }
}

impl<T> From<(T, T)> for UnorderedPair<T> {
    fn from(tuple: (T, T)) -> (r: UnorderedPair<T>) {
        UnorderedPair(tuple.0, tuple.1)
    }
}

impl<T> vstd::std_specs::convert::FromSpecImpl<(T, T)> for UnorderedPair<T> {
    open spec fn obeys_from_spec() -> bool {
        true
    }

    open spec fn from_spec(tuple: (T, T)) -> UnorderedPair<T> {
        UnorderedPair(tuple.0, tuple.1)
    }
}

impl<T> From<UnorderedPair<T>> for (T, T) {
    fn from(pair: UnorderedPair<T>) -> (r: (T, T)) {
        (pair.0, pair.1)
    }
}

impl<T> vstd::std_specs::convert::FromSpecImpl<UnorderedPair<T>> for (T, T) {
    open spec fn obeys_from_spec() -> bool {
        true
    }

    open spec fn from_spec(pair: UnorderedPair<T>) -> (T, T) {
        (pair.0, pair.1)
    }
}

/// A pair equals the same two values stored the other way round, whenever
/// each value equals itself under `T`'s equality (a NaN does not).
pub proof fn lemma_eq_swapped<T: PartialEq>(x: T, y: T)
    requires
        x.eq_spec(&x),
        y.eq_spec(&y),
    ensures
        UnorderedPair(x, y).eq_spec(&UnorderedPair(y, x)),
{
}

/// A pair equals a pair of the same two values in the same order, whenever
/// each value equals itself under `T`'s equality.
pub proof fn lemma_eq_reflexive<T: PartialEq>(x: T, y: T)
    requires
        x.eq_spec(&x),
        y.eq_spec(&y),
    ensures
        UnorderedPair(x, y).eq_spec(&UnorderedPair(x, y)),
{
}

/// Under a lawful total order, `cmp` of two values and of the same two values
/// swapped are mirror images, and `Equal` means equal.
proof fn lemma_cmp_swapped<T: Ord>(x: T, y: T)
    requires
        obeys_cmp::<T>(),
    ensures
        x.cmp_spec(&y) == core::cmp::Ordering::Less <==> y.cmp_spec(&x)
            == core::cmp::Ordering::Greater,
        x.cmp_spec(&y) == core::cmp::Ordering::Equal <==> y.cmp_spec(&x)
            == core::cmp::Ordering::Equal,
        x.cmp_spec(&y) == core::cmp::Ordering::Equal ==> x.eq_spec(&y) && y.eq_spec(&x),
        x.cmp_spec(&x) == core::cmp::Ordering::Equal,
        x.eq_spec(&x),
{
    reveal(obeys_cmp_ord);
    reveal(obeys_cmp_partial_ord);
    reveal(obeys_partial_cmp_spec_properties);
    reveal(obeys_eq_spec_properties);
    assert(x.partial_cmp_spec(&y) == Some(x.cmp_spec(&y)));
    assert(y.partial_cmp_spec(&x) == Some(y.cmp_spec(&x)));
    assert(x.partial_cmp_spec(&x) == Some(x.cmp_spec(&x)));
}

/// Under a lawful total order, the elements that a pair and its swap feed into
/// a hasher agree position by position under `T`'s equality (so, by the
/// agreement of `T`'s hashing with its equality, the hashes agree); where the
/// two values do not tie, or are identical, the two feeds are identical.
pub proof fn lemma_hash_order_swapped<T: Ord>(x: T, y: T)
    requires
        obeys_cmp::<T>(),
    ensures
        UnorderedPair(x, y).ordered().0.eq_spec(&UnorderedPair(y, x).ordered().0),
        UnorderedPair(x, y).ordered().1.eq_spec(&UnorderedPair(y, x).ordered().1),
        x.cmp_spec(&y) != core::cmp::Ordering::Equal || x == y ==> UnorderedPair(x, y).ordered()
            == UnorderedPair(y, x).ordered(),
{
    lemma_cmp_swapped(x, y);
    lemma_cmp_swapped(y, x);
}

/// Under a lawful total order, the ordered tuple of a pair holds its two
/// values, the smaller first; it is the same for the pair stored the other way
/// round unless the two values tie without being identical.
pub proof fn lemma_ordered_tuple_canonical<T: Ord>(a: T, b: T)
    requires
        obeys_cmp::<T>(),
    ensures
        UnorderedPair(a, b).ordered() == (a, b) || UnorderedPair(a, b).ordered() == (b, a),
        UnorderedPair(a, b).ordered().0.cmp_spec(&UnorderedPair(a, b).ordered().1)
            != core::cmp::Ordering::Greater,
        a.cmp_spec(&b) != core::cmp::Ordering::Greater ==> UnorderedPair(a, b).ordered() == (a, b),
        a.cmp_spec(&b) != core::cmp::Ordering::Equal || a == b ==> UnorderedPair(a, b).ordered()
            == UnorderedPair(b, a).ordered(),
{
    lemma_cmp_swapped(a, b);
}

/// Converting two values into a pair and the pair back into a tuple gives the
/// values in the order they were given; the other way round likewise.
pub proof fn lemma_tuple_round_trip<T>(a: T, b: T)
    ensures
        <(T, T) as FromSpec<UnorderedPair<T>>>::from_spec(
            <UnorderedPair<T> as FromSpec<(T, T)>>::from_spec((a, b)),
        ) == (a, b),
        <UnorderedPair<T> as FromSpec<(T, T)>>::from_spec(
            <(T, T) as FromSpec<UnorderedPair<T>>>::from_spec(UnorderedPair(a, b)),
        ) == UnorderedPair(a, b),
{
}

/// Iteration over a pair yields exactly two items, first the value stored
/// first, then the other.
pub proof fn lemma_items_stored_order<T>(p: UnorderedPair<T>)
    ensures
        p.items().len() == 2,
        p.items()[0] == p.0,
        p.items()[1] == p.1,
{
}

} // verus!
