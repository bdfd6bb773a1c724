//! Value decoder adapter backed by a low-level codec.

use vstd::prelude::*;

use crate::codec::Codec;
use crate::transcode::transcode_decode_error::TranscodeDecodeError;
use crate::transcode::transcode_domain_error::TranscodeDomainError;
use crate::transcode::transcode_failure::TranscodeFailure;
use super::codec_value_lifecycle::{decode_exact_complete_value, spec_decode_exact};
use super::decode_lifecycle_output::DecodeLifecycleOutput;
use super::decode_lifecycle_progress::DecodeLifecycleProgress;
use super::value_decoder::ValueDecoder;

verus! {

/// Decodes one encoded unit slice into one owned value by using a [`Codec`].
///
/// The supplied input slice must contain exactly one encoded value. The
/// adapter runs the complete decode lifecycle, including the codec's decode
/// finish hook, before returning the decoded value.
#[derive(Debug)]
pub struct CodecValueDecoder<C: Codec> {
    codec: C,
}

/// Builds a vector of `count` default values.
fn default_values<V: Default>(count: usize) -> (values: Vec<V>)
    ensures
        values@.len() == count,
{
    let mut values: Vec<V> = Vec::new();
    let mut filled: usize = 0;
    while filled < count
        invariant
            filled <= count,
            values@.len() == filled,
        decreases count - filled,
    {
        values.push(V::default());
        filled = filled + 1;
    }
    values
}

impl<C: Codec> CodecValueDecoder<C> {
    /// The wrapped codec.
    pub closed spec fn spec_codec(self) -> C {
        self.codec
    }

    /// Creates a decoder backed by `codec`.
    pub fn new(codec: C) -> (decoder: Self)
        ensures
            decoder.spec_codec() == codec,
    {
        CodecValueDecoder { codec }
    }

    /// Decodes exactly one encoded value from `input`.
    ///
    /// Codecs whose decode reset or finish hooks may emit values are rejected
    /// with [`TranscodeFailure::UnsupportedDecodeLifecycleOutput`] before the
    /// input is inspected or any hook runs; they must use
    /// [`Self::decode_lifecycle`]. Incomplete input is a terminal
    /// [`TranscodeFailure::IncompleteInput`] error here, and a decoded value
    /// followed by extra units is [`TranscodeFailure::TrailingInput`].
    pub fn decode(&mut self, input: &[C::Unit]) -> (result: Result<
        C::Value,
        TranscodeDecodeError<C::DecodeError>,
    >)
        ensures
            C::MAX_DECODE_RESET_VALUES != 0 || C::MAX_DECODE_FINISH_VALUES != 0 ==> {
                &&& result == Err::<C::Value, TranscodeDecodeError<C::DecodeError>>(
                    TranscodeDecodeError::Failure(
                        TranscodeFailure::UnsupportedDecodeLifecycleOutput {
                            reset_bound: C::MAX_DECODE_RESET_VALUES,
                            finish_bound: C::MAX_DECODE_FINISH_VALUES,
                        },
                    ),
                )
                &&& final(self).spec_codec() == old(self).spec_codec()
            },
            C::MAX_DECODE_RESET_VALUES == 0 && C::MAX_DECODE_FINISH_VALUES == 0
                ==> match spec_decode_exact(old(self).spec_codec(), input) {
                Ok((_, value, _, state)) => result == Ok::<
                    C::Value,
                    TranscodeDecodeError<C::DecodeError>,
                >(value) && final(self).spec_codec() == state,
                Err(error) => result == Err::<C::Value, TranscodeDecodeError<C::DecodeError>>(
                    error,
                ),
            },
    {
        match TranscodeFailure::ensure_no_decode_lifecycle_output::<C>() {
            Ok(()) => {},
            Err(failure) => {
                return Err(TranscodeDecodeError::Failure(failure));
            },
        }
        let mut reset: Vec<C::Value> = Vec::new();
        let mut finish: Vec<C::Value> = Vec::new();
        match decode_exact_complete_value(
            &mut self.codec,
            input,
            reset.as_mut_slice(),
            finish.as_mut_slice(),
        ) {
            Ok((value, _reset_written, _finish_written)) => Ok(value),
            Err(error) => Err(error),
        }
    }

    /// Decodes exactly one value and preserves all lifecycle output: reset
    /// values, the main decoded value, and finish values in separate owned
    /// buffers of at most the codec's declared lengths.
    pub fn decode_lifecycle(&mut self, input: &[C::Unit]) -> (result: Result<
        DecodeLifecycleOutput<C::Value>,
        TranscodeDecodeError<C::DecodeError>,
    >) where C::Value: Default
        ensures
            match spec_decode_exact(old(self).spec_codec(), input) {
                Ok((reset, value, finish, state)) => {
                    &&& result matches Ok(output) && output.spec_reset() == reset
                        && output.spec_value() == value && output.spec_finish() == finish
                    &&& reset.len() <= C::MAX_DECODE_RESET_VALUES
                    &&& finish.len() <= C::MAX_DECODE_FINISH_VALUES
                    &&& final(self).spec_codec() == state
                },
                Err(error) => result == Err::<
                    DecodeLifecycleOutput<C::Value>,
                    TranscodeDecodeError<C::DecodeError>,
                >(error),
            },
    {
        let mut reset = default_values::<C::Value>(C::MAX_DECODE_RESET_VALUES);
        let mut finish = default_values::<C::Value>(C::MAX_DECODE_FINISH_VALUES);
        let progress = match self.decode_lifecycle_with_scratch(
            input,
            reset.as_mut_slice(),
            finish.as_mut_slice(),
        ) {
            Ok(progress) => progress,
            Err(error) => {
                return Err(error);
            },
        };
        let (value, reset_written, finish_written) = progress.into_parts();
        reset.truncate(reset_written);
        finish.truncate(finish_written);
        Ok(DecodeLifecycleOutput::new(reset, value, finish))
    }

    /// Decodes exactly one value into separate lifecycle output buffers.
    ///
    /// Either buffer shorter than its codec bound is rejected with
    /// [`TranscodeFailure::InsufficientOutput`] before any hook runs, and
    /// then the buffers and the codec are left as they were.
    pub fn decode_lifecycle_with_scratch(
        &mut self,
        input: &[C::Unit],
        reset_output: &mut [C::Value],
        finish_output: &mut [C::Value],
    ) -> (result: Result<DecodeLifecycleProgress<C::Value>, TranscodeDecodeError<C::DecodeError>>)
        ensures
            final(reset_output)@.len() == old(reset_output)@.len(),
            final(finish_output)@.len() == old(finish_output)@.len(),
            old(reset_output)@.len() < C::MAX_DECODE_RESET_VALUES ==> result == Err::<
                DecodeLifecycleProgress<C::Value>,
                TranscodeDecodeError<C::DecodeError>,
            >(
                TranscodeDecodeError::Failure(
                    TranscodeFailure::InsufficientOutput {
                        output_index: 0,
                        required: C::MAX_DECODE_RESET_VALUES,
                        available: old(reset_output)@.len() as usize,
                    },
                ),
            ),
            old(reset_output)@.len() >= C::MAX_DECODE_RESET_VALUES && old(finish_output)@.len()
                < C::MAX_DECODE_FINISH_VALUES ==> result == Err::<
                DecodeLifecycleProgress<C::Value>,
                TranscodeDecodeError<C::DecodeError>,
            >(
                TranscodeDecodeError::Failure(
                    TranscodeFailure::InsufficientOutput {
                        output_index: 0,
                        required: C::MAX_DECODE_FINISH_VALUES,
                        available: old(finish_output)@.len() as usize,
                    },
                ),
            ),
            old(reset_output)@.len() < C::MAX_DECODE_RESET_VALUES || old(finish_output)@.len()
                < C::MAX_DECODE_FINISH_VALUES ==> {
                &&& final(reset_output)@ == old(reset_output)@
                &&& final(finish_output)@ == old(finish_output)@
                &&& final(self).spec_codec() == old(self).spec_codec()
            },
            old(reset_output)@.len() >= C::MAX_DECODE_RESET_VALUES && old(finish_output)@.len()
                >= C::MAX_DECODE_FINISH_VALUES ==> {
                match spec_decode_exact(old(self).spec_codec(), input) {
                    Ok((reset, value, finish, state)) => {
                        &&& result matches Ok(progress) && progress.spec_value() == value
                            && progress.spec_reset_written() == reset.len()
                            && progress.spec_finish_written() == finish.len()
                        &&& reset.len() <= C::MAX_DECODE_RESET_VALUES
                        &&& finish.len() <= C::MAX_DECODE_FINISH_VALUES
                        &&& final(reset_output)@.subrange(0, reset.len() as int) == reset
                        &&& final(finish_output)@.subrange(0, finish.len() as int) == finish
                        &&& final(self).spec_codec() == state
                    },
                    Err(error) => result == Err::<
                        DecodeLifecycleProgress<C::Value>,
                        TranscodeDecodeError<C::DecodeError>,
                    >(error),
                }
            },
    {
        match decode_exact_complete_value(&mut self.codec, input, reset_output, finish_output) {
            Ok((value, reset_written, finish_written)) => Ok(
                DecodeLifecycleProgress::new(value, reset_written, finish_written),
            ),
            Err(error) => Err(error),
        }
    }
}

impl<C: Codec> ValueDecoder<[C::Unit]> for CodecValueDecoder<C> {
    type Output = C::Value;

    type Error = TranscodeDecodeError<C::DecodeError>;

    type DomainError = C::DecodeError;

    /// Wraps a codec decode error as a main-phase domain error at input
    /// index 0, the start of the single value.
    fn map_error(&self, error: C::DecodeError) -> (mapped: Self::Error)
        ensures
            mapped == TranscodeDecodeError::Domain(
                TranscodeDomainError::Main { source: error, input_index: 0, input_consumed: None },
            ),
    {
        TranscodeDecodeError::domain_main(error, 0)
    }

    /// Decodes exactly one encoded value; see [`CodecValueDecoder::decode`].
    fn decode(&mut self, input: &[C::Unit]) -> (result: Result<Self::Output, Self::Error>)
        ensures
            C::MAX_DECODE_RESET_VALUES != 0 || C::MAX_DECODE_FINISH_VALUES != 0 ==> {
                &&& result == Err::<C::Value, TranscodeDecodeError<C::DecodeError>>(
                    TranscodeDecodeError::Failure(
                        TranscodeFailure::UnsupportedDecodeLifecycleOutput {
                            reset_bound: C::MAX_DECODE_RESET_VALUES,
                            finish_bound: C::MAX_DECODE_FINISH_VALUES,
                        },
                    ),
                )
                &&& final(self).spec_codec() == old(self).spec_codec()
            },
            C::MAX_DECODE_RESET_VALUES == 0 && C::MAX_DECODE_FINISH_VALUES == 0
                ==> match spec_decode_exact(old(self).spec_codec(), input) {
                Ok((_, value, _, state)) => result == Ok::<
                    C::Value,
                    TranscodeDecodeError<C::DecodeError>,
                >(value) && final(self).spec_codec() == state,
                Err(error) => result == Err::<C::Value, TranscodeDecodeError<C::DecodeError>>(
                    error,
                ),
            },
    {
        CodecValueDecoder::decode(self, input)
    }
}

} // verus!
