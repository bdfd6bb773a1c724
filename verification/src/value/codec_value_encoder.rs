//! Value encoder adapter backed by a low-level codec.

use vstd::prelude::*;

use crate::codec::Codec;
use crate::transcode::capacity_error::CapacityError;
use crate::transcode::transcode_encode_error::TranscodeEncodeError;
use crate::transcode::transcode_failure::TranscodeFailure;
use super::codec_value_lifecycle::{
    encode_complete_value_into_reserved, max_complete_encode_units, spec_complete_encode_units,
    spec_encode_complete,
};
use super::value_encoder::ValueEncoder;

verus! {

/// Calls `qubit_utils::try_reserve_vec`, which asks the allocator for room
/// for `additional` more elements. The contract states that the contents of
/// `output` are unchanged; whether the reservation succeeds depends on the
/// allocator and is not stated.
#[verifier::external_body]
fn try_reserve_units<T>(output: &mut Vec<T>, additional: usize) -> (result: Result<
    (),
    std::collections::TryReserveError,
>)
    ensures
        final(output)@ == old(output)@,
{
    qubit_utils::try_reserve_vec(output, additional)
}

/// Encodes one borrowed value into owned units by using a [`Codec`].
///
/// Each call emits stream-start output through the codec's encode reset hook,
/// encodes one value, finishes encode-side state, and keeps only the units
/// actually written.
#[derive(Debug)]
pub struct CodecValueEncoder<C> {
    codec: C,
}

impl<C: Codec> CodecValueEncoder<C> {
    /// The wrapped codec.
    pub closed spec fn spec_codec(self) -> C {
        self.codec
    }

    /// Creates an encoder backed by `codec`.
    pub fn new(codec: C) -> (encoder: Self)
        ensures
            encoder.spec_codec() == codec,
    {
        CodecValueEncoder { codec }
    }

    /// Returns a shared reference to the wrapped codec.
    pub fn codec(&self) -> (codec: &C)
        ensures
            *codec == self.spec_codec(),
    {
        &self.codec
    }

    /// Returns a mutable reference to the wrapped codec; the next value
    /// operation starts a fresh codec lifecycle on the mutated codec.
    pub fn codec_mut(&mut self) -> (codec: &mut C)
        ensures
            *codec == old(self).spec_codec(),
            final(self).spec_codec() == *final(codec),
    {
        &mut self.codec
    }

    /// Consumes the adapter and returns its wrapped codec.
    pub fn into_codec(self) -> (codec: C)
        ensures
            codec == self.spec_codec(),
    {
        self.codec
    }

    /// Encodes one value and appends the emitted units to `output`.
    ///
    /// Reserves a complete-lifecycle bound of default units after the current
    /// contents, runs reset, encode, and finish there, and keeps only the
    /// units written. The units already in `output` are never changed; when
    /// encoding fails, `output` is restored exactly.
    pub fn encode_into(&mut self, input: &C::Value, output: &mut Vec<C::Unit>) -> (result: Result<
        usize,
        TranscodeEncodeError<C::EncodeError, C::Value>,
    >) where C::Unit: Default
        ensures
            result is Err ==> final(output)@ == old(output)@,
            spec_complete_encode_units::<C>() is Err ==> result == Err::<
                usize,
                TranscodeEncodeError<C::EncodeError, C::Value>,
            >(TranscodeEncodeError::Failure(TranscodeFailure::OutputLengthOverflow)),
            spec_complete_encode_units::<C>() matches Ok(bound) && old(output)@.len() + bound
                > usize::MAX ==> result == Err::<
                usize,
                TranscodeEncodeError<C::EncodeError, C::Value>,
            >(TranscodeEncodeError::Failure(TranscodeFailure::OutputLengthOverflow)),
            spec_complete_encode_units::<C>() matches Ok(bound) && old(output)@.len() + bound
                <= usize::MAX ==> {
                ||| result == Err::<usize, TranscodeEncodeError<C::EncodeError, C::Value>>(
                    TranscodeEncodeError::Failure(TranscodeFailure::AllocationFailed),
                ) && final(self).spec_codec() == old(self).spec_codec()
                ||| match spec_encode_complete(old(self).spec_codec(), *input) {
                    Ok((units, state)) => {
                        &&& result == Ok::<usize, TranscodeEncodeError<C::EncodeError, C::Value>>(
                            units.len() as usize,
                        )
                        &&& final(output)@ == old(output)@ + units
                        &&& final(self).spec_codec() == state
                    },
                    Err(error) => result == Err::<
                        usize,
                        TranscodeEncodeError<C::EncodeError, C::Value>,
                    >(error),
                }
            },
    {
        let units = match max_complete_encode_units::<C>() {
            Ok(units) => units,
            Err(_) => {
                return Err(TranscodeEncodeError::output_length_overflow());
            },
        };
        let prior_len = output.len();
        let target_len = match prior_len.checked_add(units) {
            Some(len) => len,
            None => {
                return Err(TranscodeEncodeError::output_length_overflow());
            },
        };
        match try_reserve_units(output, units) {
            Ok(()) => {},
            Err(_) => {
                return Err(TranscodeEncodeError::Failure(TranscodeFailure::allocation_failed()));
            },
        }
        let ghost prior = output@;
        let mut filled: usize = prior_len;
        while filled < target_len
            invariant
                prior_len <= filled <= target_len,
                output@.len() == filled,
                output@.subrange(0, prior_len as int) == prior,
                prior.len() == prior_len,
            decreases target_len - filled,
        {
            output.push(C::Unit::default());
            filled = filled + 1;
        }
        let ghost padded = output@;
        let result = encode_complete_value_into_reserved(
            &mut self.codec,
            input,
            output.as_mut_slice(),
            prior_len,
            units,
        );
        match result {
            Ok(written) => {
                let ghost encoded = output@;
                output.truncate(prior_len + written);
                assert(output@ =~= prior + encoded.subrange(
                    prior_len as int,
                    (prior_len + written) as int,
                ));
                Ok(written)
            },
            Err(error) => {
                output.truncate(prior_len);
                assert(output@ =~= prior);
                Err(error)
            },
        }
    }
}

impl<C: Codec> ValueEncoder<C::Value> for CodecValueEncoder<C> where C::Unit: Default {
    type Output = Vec<C::Unit>;

    type Error = TranscodeEncodeError<C::EncodeError, C::Value>;

    /// Encodes one borrowed value into owned units: stream-start output, the
    /// units of `input`, and any encode-finish output.
    fn encode(&mut self, input: &C::Value) -> (result: Result<Self::Output, Self::Error>)
        ensures
            spec_complete_encode_units::<C>() is Err ==> result == Err::<
                Vec<C::Unit>,
                TranscodeEncodeError<C::EncodeError, C::Value>,
            >(TranscodeEncodeError::Failure(TranscodeFailure::OutputLengthOverflow)),
            spec_complete_encode_units::<C>() matches Ok(bound) ==> {
                ||| result == Err::<Vec<C::Unit>, TranscodeEncodeError<C::EncodeError, C::Value>>(
                    TranscodeEncodeError::Failure(TranscodeFailure::AllocationFailed),
                ) && final(self).spec_codec() == old(self).spec_codec()
                ||| match spec_encode_complete(old(self).spec_codec(), *input) {
                    Ok((units, state)) => {
                        &&& result matches Ok(output) && output@ == units
                        &&& final(self).spec_codec() == state
                    },
                    Err(error) => result == Err::<
                        Vec<C::Unit>,
                        TranscodeEncodeError<C::EncodeError, C::Value>,
                    >(error),
                }
            },
    {
        let mut output = Vec::new();
        let ghost empty = output@;
        let ghost start = self.spec_codec();
        proof {
            if let Ok((units, _)) = spec_encode_complete(start, *input) {
                assert(empty + units =~= units);
            }
        }
        match self.encode_into(input, &mut output) {
            Ok(_) => Ok(output),
            Err(error) => Err(error),
        }
    }
}

} // verus!
