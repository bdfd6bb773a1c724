//! Streaming converters: transcoders that decode a source format and encode
//! a target format.

use vstd::prelude::*;

use super::transcode_convert_error::TranscodeConvertError;
use super::transcoder::Transcoder;

verus! {

/// A [`Transcoder`] that decodes source units into values and encodes them
/// as target units, reporting [`TranscodeConvertError`]s.
pub trait TranscodeConverter: Transcoder<
    Error = TranscodeConvertError<Self::DecodeError, Self::EncodeError, Self::Value>,
> {
    /// Domain error type produced by source decoding.
    type DecodeError;
    /// Domain error type produced by target encoding.
    type EncodeError;
    /// Intermediate logical value type converted between source and target.
    type Value;
}

} // verus!
