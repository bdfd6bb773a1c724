//! Capacity planning errors.

use vstd::prelude::*;

verus! {

/// Error reported when an output capacity bound cannot be represented.
#[derive(Clone, Copy, Debug, PartialEq, Eq, Hash, Structural)]
pub enum CapacityError {
    /// Output length arithmetic overflowed `usize`.
    OutputLengthOverflow,
}

} // verus!
