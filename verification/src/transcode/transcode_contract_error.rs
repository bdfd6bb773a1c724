//! Errors describing progress reports that break the transcoder contract.

use vstd::prelude::*;

verus! {

/// Error reported when a transcoder returns inconsistent progress.
///
/// This error represents a broken transcoder implementation rather than
/// malformed input data.
#[derive(Clone, Copy, Debug, PartialEq, Eq, Hash, Structural)]
#[non_exhaustive]
pub enum TranscodeContractError {
    /// The transcoder consumed more input units than the caller supplied.
    OverRead {
        /// Input units reported as consumed.
        read: usize,
        /// Input units available to the transcode call.
        available: usize,
    },
    /// The transcoder wrote more output units than the caller supplied.
    OverWritten {
        /// Output units reported as written.
        written: usize,
        /// Output slots available to the transcode call.
        available: usize,
    },
    /// Progress could not be represented as an absolute index.
    ProgressIndexOverflow {
        /// Absolute index supplied to the transcode call.
        index: usize,
        /// Relative progress reported by the transcoder.
        advanced: usize,
    },
    /// A `Complete` report left visible input units unconsumed.
    IncompleteConsumption {
        /// Input units reported as consumed.
        read: usize,
        /// Input units visible to the transcode call.
        available: usize,
    },
    /// A status reported an index that does not match relative progress.
    StatusIndexMismatch {
        /// Index reported by the status.
        reported: usize,
        /// Index implied by the progress counter.
        expected: usize,
    },
    /// A status reported an available count that does not match progress.
    StatusAvailableMismatch {
        /// Available count reported by the status.
        reported: usize,
        /// Available count implied by the progress counter and call bounds.
        expected: usize,
    },
    /// A status requested input or output that is already available.
    SatisfiedNeed {
        /// Required units reported by the status.
        required: usize,
        /// Available units reported by the status.
        available: usize,
    },
}

} // verus!
