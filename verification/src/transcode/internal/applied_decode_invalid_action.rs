//! Invalid-input actions after they were applied by a decode engine.

use vstd::prelude::*;

use crate::num::NonZeroUsize;

verus! {

/// An invalid-input decode action together with the units it consumed.
#[derive(Clone, Copy, Debug, PartialEq, Eq, Hash)]
pub enum AppliedDecodeInvalidAction<Value> {
    /// The invalid units were skipped.
    Skip {
        /// Units skipped.
        consumed: NonZeroUsize,
    },
    /// A replacement value was emitted for the invalid units.
    Emit {
        /// The replacement value.
        value: Value,
        /// Units replaced.
        consumed: NonZeroUsize,
    },
}

} // verus!
