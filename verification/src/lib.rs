//! Groups of optional values where at least one value is present.
//!
//! Each `SomeN` type is a closed sum with one variant per non-empty subset of
//! its N slots, so an "all absent" state is unrepresentable by construction.
//! Conversions to and from tuples of optional values, a borrowing view, and
//! per-slot accessors make the tuple-of-optionals shape the canonical
//! interchange form.

mod some2;
mod some3;

pub use crate::some2::Some2;
pub use crate::some2::lemma_some2_nonempty;
pub use crate::some2::lemma_some2_opts_injective;
pub use crate::some2::lemma_some2_round_trip;
pub use crate::some2::lemma_some2_accessors_agree;
pub use crate::some2::lemma_some2_deref_view_subset;
pub use crate::some2::lemma_some2_eq;
pub use crate::some3::Some3;
pub use crate::some3::lemma_some3_nonempty;
pub use crate::some3::lemma_some3_opts_injective;
pub use crate::some3::lemma_some3_round_trip;
pub use crate::some3::lemma_some3_accessors_agree;
pub use crate::some3::lemma_some3_deref_view_subset;
pub use crate::some3::lemma_some3_eq;
