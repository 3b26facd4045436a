use vstd::prelude::*;

verus! {

/// Declares `core::ops::RangeFrom` to the verifier. Its one field, `start`,
/// is public in core, so the declaration is transparent and contracts can
/// read `r.start` directly.
#[verifier::external_type_specification]
#[verifier::reject_recursive_types(Idx)]
pub struct ExRangeFrom<Idx>(core::ops::RangeFrom<Idx>);

/// Declares `core::ops::RangeToInclusive` to the verifier. Its one field,
/// `end`, is public in core, so contracts can read `r.end` directly.
#[verifier::external_type_specification]
#[verifier::reject_recursive_types(Idx)]
pub struct ExRangeToInclusive<Idx>(core::ops::RangeToInclusive<Idx>);

/// Declares `core::ops::RangeFull`, the unit struct behind `..`.
#[verifier::external_type_specification]
pub struct ExRangeFull(core::ops::RangeFull);

/// Relies on `core::ops::RangeInclusive::into_inner`: it destructures the
/// range into its stored `(start, end)` pair, which vstd's view of
/// `RangeInclusive` models as `r@.start` and `r@.end`.
pub assume_specification<Idx>[ core::ops::RangeInclusive::<Idx>::into_inner ](
    r: core::ops::RangeInclusive<Idx>,
) -> (ret: (Idx, Idx))
    ensures
        ret.0 == r@.start,
        ret.1 == r@.end,
;

} // verus!
