//! Phases of one transcoder stream lifecycle.

use vstd::prelude::*;

verus! {

/// Lifecycle phase of a transcoder instance.
#[derive(Clone, Copy, Debug, PartialEq, Eq, Hash, Structural)]
pub enum LifecyclePhase {
    /// Created, never successfully reset.
    Uninitialized,
    /// Successfully reset, no input processed yet.
    Fresh,
    /// Input is being processed.
    Streaming,
    /// The stream was finished; a reset is required before more input.
    Finished,
    /// A reset or finish failed midway; a successful reset is required.
    Poisoned,
}

impl Default for LifecyclePhase {
    /// The phase of a transcoder that was never reset.
    fn default() -> (phase: Self)
        ensures
            phase == LifecyclePhase::Uninitialized,
    {
        LifecyclePhase::Uninitialized
    }
}

} // verus!
