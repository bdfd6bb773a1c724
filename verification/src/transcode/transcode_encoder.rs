//! Streaming encoders: transcoders from values to units whose errors are
//! encode errors.

use vstd::prelude::*;

use super::transcode_encode_error::TranscodeEncodeError;
use super::transcoder::Transcoder;

verus! {

/// A [`Transcoder`] from values to units that reports
/// [`TranscodeEncodeError`]s.
pub trait TranscodeEncoder: Transcoder<
    Error = TranscodeEncodeError<Self::EncodeError, <Self as Transcoder>::Input>,
> {
    /// Domain error type produced by encode internals.
    type EncodeError;
}

} // verus!
