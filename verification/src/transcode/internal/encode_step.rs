//! Outcome of one encode attempt inside a transcode call.

use vstd::prelude::*;

use crate::num::NonZeroUsize;

verus! {

/// What one encode attempt produced.
#[derive(Clone, Copy, Debug, PartialEq, Eq, Hash, Structural)]
pub enum EncodeStep {
    /// The value was written using `written` units.
    Written {
        /// Units written.
        written: usize,
    },
    /// More output is needed before the value can be written.
    NeedOutput {
        /// Total units required from the output cursor.
        required: NonZeroUsize,
        /// Units available from the output cursor.
        available: usize,
    },
}

impl EncodeStep {
    /// Creates a written step.
    pub fn written(written: usize) -> (step: Self)
        ensures
            step == (EncodeStep::Written { written }),
    {
        EncodeStep::Written { written }
    }

    /// Creates a need-output step.
    pub fn need_output(required: NonZeroUsize, available: usize) -> (step: Self)
        ensures
            step == (EncodeStep::NeedOutput { required, available }),
    {
        EncodeStep::NeedOutput { required, available }
    }
}

/// What encoding one value reported to the transcode state.
#[derive(Clone, Copy, Debug, PartialEq, Eq, Hash, Structural)]
pub enum EncodeOutcome {
    /// The value was consumed and `written` units were produced.
    Consumed {
        /// Units written.
        written: usize,
    },
    /// The value needs `required` output units from the cursor.
    NeedOutput {
        /// Total units required from the output cursor.
        required: NonZeroUsize,
    },
}

} // verus!
