//! Stop reasons reported by a transcoder.

use vstd::prelude::*;

use crate::num::NonZeroUsize;

verus! {

/// Reports why a transcoder stopped converting input.
#[derive(Clone, Copy, Debug, PartialEq, Eq, Hash, Structural)]
pub enum TranscodeStatus {
    /// All currently supplied input was consumed.
    Complete,
    /// More input is needed to complete the next output value.
    ///
    /// The caller keeps `input[input_index..]`; `required` is the current
    /// minimum total number of input units needed from `input_index` before a
    /// retry, and `available` is what was visible there.
    NeedInput {
        /// Absolute input index where conversion stopped.
        input_index: usize,
        /// Minimum total input units required from `input_index`.
        required: NonZeroUsize,
        /// Input units visible from `input_index`.
        available: usize,
    },
    /// More output capacity is needed before conversion can continue.
    NeedOutput {
        /// Absolute output index where conversion stopped.
        output_index: usize,
        /// Total output units required from `output_index`.
        required: NonZeroUsize,
        /// Output units available from `output_index`.
        available: usize,
    },
}

impl TranscodeStatus {
    /// Creates a status that requests more input.
    pub fn need_input(input_index: usize, required: NonZeroUsize, available: usize) -> (status:
        Self)
        ensures
            status == (TranscodeStatus::NeedInput { input_index, required, available }),
    {
        TranscodeStatus::NeedInput { input_index, required, available }
    }

    /// Creates a status that requests more output capacity.
    pub fn need_output(output_index: usize, required: NonZeroUsize, available: usize) -> (status:
        Self)
        ensures
            status == (TranscodeStatus::NeedOutput { output_index, required, available }),
    {
        TranscodeStatus::NeedOutput { output_index, required, available }
    }
}

} // verus!
