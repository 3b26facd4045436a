use vstd::prelude::*;

verus! {

use core::cmp::Ordering;
use core::ops::{RangeFrom, RangeFull, RangeInclusive, RangeToInclusive};
use vstd::std_specs::cmp::{OrdSpec, PartialOrdSpec};
use crate::sealed::Sealed;

/// The larger of `v` and `start` under `T`'s order, with the tie-breaking of
/// `Ord::max`: when the two compare equal, `start` (the bound) is returned.
pub open spec fn ord_max<T: Ord>(v: T, start: T) -> T {
    if start.cmp_spec(&v) == Ordering::Less {
        v
    } else {
        start
    }
}

/// The smaller of `v` and `end` under `T`'s order, with the tie-breaking of
/// `Ord::min`: when the two compare equal, `v` (the value) is returned.
pub open spec fn ord_min<T: Ord>(v: T, end: T) -> T {
    if end.cmp_spec(&v) == Ordering::Less {
        end
    } else {
        v
    }
}

/// `v` clamped into `[start, end]` under `T`'s order: `start` when `v` lies
/// below it, `end` when `v` lies above it, `v` itself otherwise.
pub open spec fn ord_clamp<T: Ord>(v: T, start: T, end: T) -> T {
    match (v.cmp_spec(&start), v.cmp_spec(&end)) {
        (Ordering::Less, _) => start,
        (_, Ordering::Greater) => end,
        _ => v,
    }
}

/// The opposite answer of a three-way comparison.
pub open spec fn cmp_flip(o: Ordering) -> Ordering {
    match o {
        Ordering::Less => Ordering::Greater,
        Ordering::Equal => Ordering::Equal,
        Ordering::Greater => Ordering::Less,
    }
}

/// The two laws of a total order that the lemmas below use: comparing a
/// value with itself answers `Equal`, and comparing in the opposite
/// direction flips the answer. Every lawful `Ord` implementation satisfies
/// both; for the primitive integers they hold by definition of `cmp_spec`.
pub open spec fn cmp_lawful<T: Ord>() -> bool {
    &&& forall|a: T| #[trigger] a.cmp_spec(&a) == Ordering::Equal
    &&& forall|a: T, b: T| #[trigger] a.cmp_spec(&b) == cmp_flip(b.cmp_spec(&a))
}

/// Law: limiting with `start..` yields the maximum of value and bound. The
/// result is one of the two arguments and neither lies above it.
pub proof fn lemma_limit_from_is_max<T: Ord>(v: T, start: T)
    requires
        cmp_lawful::<T>(),
    ensures
        ord_max(v, start) == v || ord_max(v, start) == start,
        v.cmp_spec(&ord_max(v, start)) != Ordering::Greater,
        start.cmp_spec(&ord_max(v, start)) != Ordering::Greater,
{
}

/// Law: limiting with `..=end` yields the minimum of value and bound. The
/// result is one of the two arguments and neither lies below it.
pub proof fn lemma_limit_to_is_min<T: Ord>(v: T, end: T)
    requires
        cmp_lawful::<T>(),
    ensures
        ord_min(v, end) == v || ord_min(v, end) == end,
        v.cmp_spec(&ord_min(v, end)) != Ordering::Less,
        end.cmp_spec(&ord_min(v, end)) != Ordering::Less,
{
}

/// Law: for `start <= end`, limiting with `start..=end` lands in
/// `[start, end]`, and a value already inside comes back unchanged.
pub proof fn lemma_limit_inclusive_in_range<T: Ord>(v: T, start: T, end: T)
    requires
        cmp_lawful::<T>(),
        start.cmp_spec(&end) != Ordering::Greater,
    ensures
        ord_clamp(v, start, end).cmp_spec(&start) != Ordering::Less,
        ord_clamp(v, start, end).cmp_spec(&end) != Ordering::Greater,
        v.cmp_spec(&start) != Ordering::Less && v.cmp_spec(&end) != Ordering::Greater
            ==> ord_clamp(v, start, end) == v,
{
}

/// Adds the `limit` method.
///
/// For the two-sided shape `start..=end` the bound must satisfy
/// `start <= end`; an inverted bound is outside the contract and aborts at
/// run time rather than being silently swapped or tolerated.
pub trait Limit: Ord + Sized {
    fn limit<B: LimitBounds<Self>>(self, bounds: B) -> (r: Self)
        requires
            bounds.wf(),
        ensures
            Self::obeys_cmp_spec() ==> r == bounds.spec_limit(self),
    ;
}

impl<T: Ord> Limit for T {
    fn limit<B: LimitBounds<T>>(self, bounds: B) -> (r: T)
        ensures
            T::obeys_cmp_spec() ==> r == bounds.spec_limit(self),
    {
        bounds.limit_bounds(self)
    }
}

/// Types that can be used as bounds for `Limit`: exactly the four range
/// shapes `start..`, `..=end`, `start..=end` and `..`. The [`Sealed`]
/// supertrait keeps this set closed.
pub trait LimitBounds<T: Ord>: Sealed + Sized {
    /// Whether the bound itself is admissible. Only the two-sided shape
    /// restricts this: its start must not lie above its end.
    spec fn wf(&self) -> bool;

    /// The value the bound limits `v` to.
    spec fn spec_limit(self, v: T) -> T;

    fn limit_bounds(self, value: T) -> (r: T)
        requires
            self.wf(),
        ensures
            T::obeys_cmp_spec() ==> r == self.spec_limit(value),
    ;
}

impl<T: Ord> Sealed for RangeFrom<T> {}

impl<T: Ord> LimitBounds<T> for RangeFrom<T> {
    open spec fn wf(&self) -> bool {
        true
    }

    open spec fn spec_limit(self, v: T) -> T {
        ord_max(v, self.start)
    }

    fn limit_bounds(self, value: T) -> (r: T)
        ensures
            T::obeys_cmp_spec() ==> r == ord_max(value, self.start),
    {
        value.max(self.start)
    }
}

impl<T: Ord> Sealed for RangeToInclusive<T> {}

impl<T: Ord> LimitBounds<T> for RangeToInclusive<T> {
    open spec fn wf(&self) -> bool {
        true
    }

    open spec fn spec_limit(self, v: T) -> T {
        ord_min(v, self.end)
    }

    fn limit_bounds(self, value: T) -> (r: T)
        ensures
            T::obeys_cmp_spec() ==> r == ord_min(value, self.end),
    {
        value.min(self.end)
    }
}

impl<T: Ord> Sealed for RangeInclusive<T> {}

impl<T: Ord> LimitBounds<T> for RangeInclusive<T> {
    open spec fn wf(&self) -> bool {
        &&& T::obeys_partial_cmp_spec()
        &&& self@.start.partial_cmp_spec(&self@.end) matches Some(
            Ordering::Less
            | Ordering::Equal,
        )
    }

    open spec fn spec_limit(self, v: T) -> T {
        ord_clamp(v, self@.start, self@.end)
    }

    fn limit_bounds(self, value: T) -> (r: T)
        ensures
            T::obeys_cmp_spec() ==> r == ord_clamp(value, self@.start, self@.end),
    {
        let (start, end) = self.into_inner();
        value.clamp(start, end)
    }
}

impl Sealed for RangeFull {}

impl<T: Ord> LimitBounds<T> for RangeFull {
    open spec fn wf(&self) -> bool {
        true
    }

    open spec fn spec_limit(self, v: T) -> T {
        v
    }

    fn limit_bounds(self, value: T) -> (r: T)
        ensures
            r == value,
    {
        value
    }
}

} // verus!
