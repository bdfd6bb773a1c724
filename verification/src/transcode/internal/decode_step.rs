//! Outcome of one decode attempt inside a transcode call.

use vstd::prelude::*;

use crate::num::NonZeroUsize;

verus! {

/// What one decode attempt produced.
#[derive(Clone, Copy, Debug, PartialEq, Eq, Hash)]
pub enum DecodeStep<Value> {
    /// A value was decoded from `consumed` units starting at `input_index`.
    Decoded {
        /// The decoded value.
        value: Value,
        /// Units the value occupied.
        consumed: NonZeroUsize,
        /// Absolute input index of the value.
        input_index: usize,
    },
    /// Invalid units were skipped.
    Skipped {
        /// Units skipped.
        consumed: NonZeroUsize,
    },
    /// More input is needed before the next value can be decoded.
    NeedInput {
        /// Minimum total units required from the cursor.
        required: NonZeroUsize,
        /// Units visible from the cursor.
        available: usize,
    },
}

impl<Value> DecodeStep<Value> {
    /// Creates a decoded step.
    pub fn decoded(value: Value, consumed: NonZeroUsize, input_index: usize) -> (step: Self)
        ensures
            step == (DecodeStep::Decoded { value, consumed, input_index }),
    {
        DecodeStep::Decoded { value, consumed, input_index }
    }

    /// Creates a skipped step.
    pub fn skipped(consumed: NonZeroUsize) -> (step: Self)
        ensures
            step == (DecodeStep::<Value>::Skipped { consumed }),
    {
        DecodeStep::Skipped { consumed }
    }

    /// Creates a need-input step.
    pub fn need_input(required: NonZeroUsize, available: usize) -> (step: Self)
        ensures
            step == (DecodeStep::<Value>::NeedInput { required, available }),
    {
        DecodeStep::NeedInput { required, available }
    }
}

} // verus!
