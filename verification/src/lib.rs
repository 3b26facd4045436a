//! Limit (clamp) a value with native range syntax.
//!
//! Specifically, `start..`, `..=end`, `start..=end`, and `..` are supported
//! as bounds for the [`Limit::limit`] method, which is available on every
//! totally ordered type.

mod sealed;
mod ranges;
mod ord;

pub use ord::{Limit, LimitBounds};
pub use ord::{ord_max, ord_min, ord_clamp, cmp_flip, cmp_lawful};
pub use ord::{lemma_limit_from_is_max, lemma_limit_to_is_min, lemma_limit_inclusive_in_range};
