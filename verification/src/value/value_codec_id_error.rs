//! Violations of the stable value-codec ID protocol.

use vstd::prelude::*;

verus! {

/// A stable value-codec ID protocol violation.
#[derive(Clone, Copy, Debug, PartialEq, Eq, Hash, Structural)]
pub enum ValueCodecIdError {
    /// The complete ID is empty.
    Empty,
    /// One dot-separated segment is empty.
    EmptySegment,
    /// One segment has an invalid initial byte or character.
    InvalidSegment,
}

} // verus!
