use vstd::prelude::*;

verus! {

/// Supertrait of [`crate::LimitBounds`].
///
/// The module holding it is private, so the set of bound shapes is closed:
/// no code outside this crate can implement `LimitBounds`.
pub trait Sealed {}

} // verus!
