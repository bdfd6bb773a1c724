//! The result of one asynchronous decode operation.

use vstd::prelude::*;

use crate::transcode::transcode_progress::TranscodeProgress;

verus! {

/// Result of one cancellation-safe asynchronous decode operation.
#[derive(Clone, Copy, Debug, PartialEq, Eq, Structural)]
pub enum AsyncTranscodeDecodeStep {
    /// The wrapped input reached end of input with no unread units.
    EndOfInput,
    /// The decoder consumed input or initialized output without another await.
    Progress(TranscodeProgress),
}

} // verus!
