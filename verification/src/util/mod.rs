//! Internal utilities shared across the crate.

pub mod bytes;
pub mod slice;

pub use slice::copy_nonoverlapping_unchecked;
pub use slice::has_units;
pub use slice::mut_unchecked;
pub use slice::read_unchecked;
pub use slice::ref_unchecked;
pub(crate) use slice::checked_range_end;
pub(crate) use slice::range_fits;
pub use slice::required_index;
pub use slice::write_unchecked;
