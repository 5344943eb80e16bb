//! A reusable memory arena: one growable allocation of a fixed base unit type
//! that can be repeatedly borrowed as a differently-typed, properly-aligned,
//! capacity-bounded mutable buffer.
//!
//! [`ReusableMemory`] owns the base storage and answers layout questions: how
//! many base units must be reserved so that a requested number of elements of
//! another type fits at a properly aligned address.  A borrow hands out a
//! [`borrow::ReusableMemoryBorrow`], a fixed-capacity, bounds-checked sequence
//! with push / pop / drain / clear.  The layout arithmetic lives in [`layout`]
//! and is proved correct: a valid alignment point always exists inside a
//! reservation, and multi-region reservations are pairwise disjoint.

pub mod borrow;
pub mod layout;

mod base;

pub use base::lemma_borrow_start_aligned;
pub use base::ReusableMemory;
pub use base::ReusableMemoryError;
pub use base::spec_desc_for;
pub use base::spec_five_descs;
pub use base::spec_four_descs;
pub use base::spec_regions_request_fits;
pub use base::spec_regions_units_for;
pub use base::spec_request_fits;
pub use base::spec_three_descs;
pub use base::spec_two_descs;
pub use base::spec_units_for;
