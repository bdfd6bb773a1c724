//! Codec lifecycle phases used as error context.

use vstd::prelude::*;

verus! {

/// The lifecycle phase of a codec in which a domain error occurred.
#[derive(Clone, Copy, Debug, PartialEq, Eq, Hash, Structural)]
pub enum CodecPhase {
    /// Resetting codec or hook state before a logical stream.
    Reset,
    /// Processing input values or units.
    Main,
    /// Finishing codec or hook state after the logical stream.
    Finish,
}

} // verus!
