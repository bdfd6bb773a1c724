//! Checked one-value operations available to every codec.

use vstd::prelude::*;

use crate::codec::Codec;
use crate::num::NonZeroUsize;
use crate::transcode::capacity_error::CapacityError;
use crate::transcode::codec_phase::CodecPhase;
use crate::transcode::transcode_domain_error::TranscodeDomainError;
use crate::transcode::transcode_error::{
    phase_domain_error, saturating_trailing_check, TranscodeError,
};
use crate::transcode::transcode_failure::{min_input_check, output_capacity_check, TranscodeFailure};
use super::codec_value_lifecycle::{lemma_three_parts, spec_encode_hooks, spec_sum3};

verus! {

/// Whether [`CodecValueExt::encode_value_with_reset`] rejects `value` for an
/// output of `output_len` units before any hook runs: the codec cannot
/// encode it, the complete bound overflows, or the output from
/// `output_index` cannot hold that bound.
pub open spec fn encode_preflight_fails<C: Codec>(
    codec: C,
    value: C::Value,
    output_len: nat,
    output_index: usize,
) -> bool {
    ||| !codec.spec_can_encode(value)
    ||| spec_sum3(
        C::MAX_ENCODE_RESET_UNITS,
        codec.spec_encode_len(value),
        C::MAX_ENCODE_FINISH_UNITS,
    ) is Err
    ||| spec_sum3(
        C::MAX_ENCODE_RESET_UNITS,
        codec.spec_encode_len(value),
        C::MAX_ENCODE_FINISH_UNITS,
    ) matches Ok(required) && output_capacity_check(output_len as usize, output_index, required)
        is Err
}

/// Extension trait for checked one-value codec operations.
///
/// The methods compose the primitive reset, encode, decode, and finish hooks
/// with capacity checks and adapter-level error wrapping; every codec has
/// them.
pub trait CodecValueExt: Codec {
    /// Returns the maximum unit count emitted by one complete value encode:
    /// the checked sum of the encode reset, value, and finish bounds.
    fn max_encode_value_units(&self) -> (result: Result<usize, CapacityError>)
        ensures
            result == spec_sum3(
                Self::MAX_ENCODE_RESET_UNITS,
                Self::MAX_ENCODE_UNITS_PER_VALUE,
                Self::MAX_ENCODE_FINISH_UNITS,
            ),
    {
        match Self::MAX_ENCODE_RESET_UNITS.checked_add(Self::MAX_ENCODE_UNITS_PER_VALUE) {
            Some(units) => match units.checked_add(Self::MAX_ENCODE_FINISH_UNITS) {
                Some(total) => Ok(total),
                None => Err(CapacityError::OutputLengthOverflow),
            },
            None => Err(CapacityError::OutputLengthOverflow),
        }
    }

    /// Encodes one value through the complete encode lifecycle into caller
    /// storage at `output_index`.
    ///
    /// Before any hook runs the value must be encodable and the output must
    /// hold the reset bound, the value width and the finish bound; otherwise
    /// the corresponding error is returned and neither the output nor the
    /// codec changes. Then the reset runs at `output_index`, the value is
    /// encoded right after the reset units and the finish runs right after
    /// the value units; on success the three hooks' units stand back to back
    /// from `output_index` and their total is returned. A codec whose reset
    /// changes whether or how wide it encodes the value is not accepted.
    fn encode_value_with_reset(
        &mut self,
        value: &Self::Value,
        output: &mut [Self::Unit],
        output_index: usize,
    ) -> (result: Result<usize, TranscodeError<Self::EncodeError, Self::Value>>) where
        Self::Value: Clone,

        requires
            old(self).spec_can_encode(*value) && old(self).spec_encode_reset() is Ok ==> {
                &&& old(self).spec_after_encode_reset().spec_can_encode(*value)
                &&& old(self).spec_after_encode_reset().spec_encode_len(*value) == old(
                    self,
                ).spec_encode_len(*value)
            },
        ensures
            final(output)@.len() == old(output)@.len(),
            final(output)@.subrange(0, output_index as int) == old(output)@.subrange(
                0,
                output_index as int,
            ),
            !old(self).spec_can_encode(*value) ==> (result matches Err(
                TranscodeError::Failure(TranscodeFailure::UnencodableValue { input_index, value: v }),
            ) && input_index == 0 && v is Some),
            old(self).spec_can_encode(*value) && spec_sum3(
                Self::MAX_ENCODE_RESET_UNITS,
                old(self).spec_encode_len(*value),
                Self::MAX_ENCODE_FINISH_UNITS,
            ) is Err ==> result == Err::<usize, TranscodeError<Self::EncodeError, Self::Value>>(
                TranscodeError::Failure(TranscodeFailure::OutputLengthOverflow),
            ),
            spec_sum3(
                Self::MAX_ENCODE_RESET_UNITS,
                old(self).spec_encode_len(*value),
                Self::MAX_ENCODE_FINISH_UNITS,
            ) matches Ok(required) ==> old(self).spec_can_encode(*value) && output_capacity_check(
                old(output)@.len() as usize,
                output_index,
                required,
            ) is Err ==> result == Err::<usize, TranscodeError<Self::EncodeError, Self::Value>>(
                TranscodeError::Failure(
                    output_capacity_check(
                        old(output)@.len() as usize,
                        output_index,
                        required,
                    )->Err_0.widened(),
                ),
            ),
            encode_preflight_fails::<Self>(*old(self), *value, old(output)@.len(), output_index) ==> {
                &&& final(output)@ == old(output)@
                &&& *final(self) == *old(self)
            },
            !encode_preflight_fails::<Self>(*old(self), *value, old(output)@.len(), output_index)
                ==> match spec_encode_hooks(*old(self), *value, false) {
                Ok((units, state)) => {
                    &&& result == Ok::<usize, TranscodeError<Self::EncodeError, Self::Value>>(
                        units.len() as usize,
                    )
                    &&& final(output)@.subrange(output_index as int, output_index + units.len())
                        == units
                    &&& *final(self) == state
                },
                Err(Some((phase, error))) => result == Err::<
                    usize,
                    TranscodeError<Self::EncodeError, Self::Value>,
                >(TranscodeError::Domain(phase_domain_error(error, phase, Some(0usize), None))),
                Err(None) => false,
            },
    {
        if !self.can_encode_value(value) {
            return Err(TranscodeError::unencodable_value(0, value.clone()));
        }
        let reset_units = Self::MAX_ENCODE_RESET_UNITS;
        let value_units = self.encode_len(value);
        let required = match reset_units.checked_add(value_units) {
            Some(units) => match units.checked_add(Self::MAX_ENCODE_FINISH_UNITS) {
                Some(total) => total,
                None => {
                    return Err(TranscodeError::output_length_overflow());
                },
            },
            None => {
                return Err(TranscodeError::output_length_overflow());
            },
        };
        TranscodeError::ensure_output_capacity(output.len(), output_index, required)?;
        let reset_written = match self.encode_reset(output, output_index) {
            Ok(written) => written,
            Err(error) => {
                return Err(TranscodeError::domain(error, CodecPhase::Reset, None));
            },
        };
        let value_index = output_index + reset_written;
        let ghost after_reset = output@;
        let value_written = match self.encode(value, output, value_index) {
            Ok(written) => written,
            Err(error) => {
                return Err(TranscodeError::domain(error, CodecPhase::Main, Some(0)));
            },
        };
        let finish_index = value_index + value_written;
        let ghost after_value = output@;
        let finish_written = match self.encode_finish(output, finish_index) {
            Ok(written) => written,
            Err(error) => {
                return Err(TranscodeError::domain(error, CodecPhase::Finish, None));
            },
        };
        proof {
            lemma_three_parts(
                after_reset,
                after_value,
                output@,
                output_index as int,
                reset_written as int,
                value_written as int,
                finish_written as int,
            );
        }
        Ok(reset_written + value_written + finish_written)
    }

    /// Decodes one value at `input_index` and finishes decode-side state into
    /// caller storage.
    ///
    /// Input and finish-output bounds are validated before any hook runs;
    /// when one fails nothing changes. Returns `(value, consumed, finished)`
    /// for the codec's answer at `input_index`; an incomplete answer is a
    /// terminal [`TranscodeFailure::IncompleteInput`] error here, and an
    /// invalid one a main-phase domain error.
    fn decode_value_with_finish(
        &mut self,
        input: &[Self::Unit],
        input_index: usize,
        finish_output: &mut [Self::Value],
        finish_output_index: usize,
    ) -> (result: Result<(Self::Value, NonZeroUsize, usize), TranscodeError<Self::DecodeError>>)
        ensures
            final(finish_output)@.len() == old(finish_output)@.len(),
            min_input_check(input@.len() as usize, input_index, Self::MIN_UNITS_PER_VALUE) is Err
                ==> result == Err::<
                (Self::Value, NonZeroUsize, usize),
                TranscodeError<Self::DecodeError>,
            >(
                TranscodeError::Failure(
                    min_input_check(
                        input@.len() as usize,
                        input_index,
                        Self::MIN_UNITS_PER_VALUE,
                    )->Err_0,
                ),
            ),
            min_input_check(input@.len() as usize, input_index, Self::MIN_UNITS_PER_VALUE) is Ok
                && output_capacity_check(
                old(finish_output)@.len() as usize,
                finish_output_index,
                Self::MAX_DECODE_FINISH_VALUES,
            ) is Err ==> result == Err::<
                (Self::Value, NonZeroUsize, usize),
                TranscodeError<Self::DecodeError>,
            >(
                TranscodeError::Failure(
                    output_capacity_check(
                        old(finish_output)@.len() as usize,
                        finish_output_index,
                        Self::MAX_DECODE_FINISH_VALUES,
                    )->Err_0,
                ),
            ),
            result matches Ok((_, consumed, finished)) ==> {
                &&& input_index <= input@.len()
                &&& consumed.spec_get() <= input@.len() - input_index
                &&& finished <= Self::MAX_DECODE_FINISH_VALUES
            },
            min_input_check(input@.len() as usize, input_index, Self::MIN_UNITS_PER_VALUE) is Err
                || output_capacity_check(
                old(finish_output)@.len() as usize,
                finish_output_index,
                Self::MAX_DECODE_FINISH_VALUES,
            ) is Err ==> {
                &&& final(finish_output)@ == old(finish_output)@
                &&& *final(self) == *old(self)
            },
            min_input_check(input@.len() as usize, input_index, Self::MIN_UNITS_PER_VALUE) is Ok
                && output_capacity_check(
                old(finish_output)@.len() as usize,
                finish_output_index,
                Self::MAX_DECODE_FINISH_VALUES,
            ) is Ok ==> match old(self).spec_decode(input, input_index) {
                Err(failure) => result == Err::<
                    (Self::Value, NonZeroUsize, usize),
                    TranscodeError<Self::DecodeError>,
                >(
                    TranscodeError::<Self::DecodeError>::spec_from_decode_failure(
                        failure,
                        input_index,
                        (input@.len() - input_index) as usize,
                    ),
                ),
                Ok((value, consumed)) => {
                    let state = old(self).spec_after_decode(input, input_index);
                    match state.spec_decode_finish() {
                        Err(error) => result == Err::<
                            (Self::Value, NonZeroUsize, usize),
                            TranscodeError<Self::DecodeError>,
                        >(TranscodeError::Domain(TranscodeDomainError::Finish { source: error })),
                        Ok(finish) => {
                            &&& result == Ok::<_, TranscodeError<Self::DecodeError>>(
                                (value, consumed, finish@.len() as usize),
                            )
                            &&& final(finish_output)@.subrange(
                                finish_output_index as int,
                                finish_output_index + finish@.len(),
                            ) == finish@
                            &&& *final(self) == state.spec_after_decode_finish()
                        },
                    }
                },
            },
    {
        TranscodeError::ensure_min_input(input.len(), input_index, Self::MIN_UNITS_PER_VALUE)?;
        let finish_cap = Self::MAX_DECODE_FINISH_VALUES;
        TranscodeError::ensure_output_capacity(
            finish_output.len(),
            finish_output_index,
            finish_cap,
        )?;
        let (value, consumed) = match self.decode(input, input_index) {
            Ok(decoded) => decoded,
            Err(failure) => {
                return Err(
                    TranscodeError::from_decode_failure(
                        failure,
                        input_index,
                        input.len() - input_index,
                    ),
                );
            },
        };
        let finished = match self.decode_finish(finish_output, finish_output_index) {
            Ok(written) => written,
            Err(error) => {
                return Err(TranscodeError::domain(error, CodecPhase::Finish, None));
            },
        };
        Ok((value, consumed, finished))
    }

    /// Decodes exactly one value from the whole `input` and then finishes
    /// decode-side state.
    ///
    /// The input and finish-output bounds are validated before any hook runs;
    /// when one fails nothing changes. The codec then decodes at index 0, a
    /// value that stops short of the end is rejected as trailing input
    /// before the finish hook runs, and the finish hook runs at
    /// `finish_output_index`. Returns `(value, finished)`.
    fn decode_exact_value_with_finish(
        &mut self,
        input: &[Self::Unit],
        finish_output: &mut [Self::Value],
        finish_output_index: usize,
    ) -> (result: Result<(Self::Value, usize), TranscodeError<Self::DecodeError>>)
        ensures
            final(finish_output)@.len() == old(finish_output)@.len(),
            input@.len() < Self::MIN_UNITS_PER_VALUE ==> result == Err::<
                (Self::Value, usize),
                TranscodeError<Self::DecodeError>,
            >(
                TranscodeError::Failure(
                    TranscodeFailure::IncompleteInput {
                        input_index: 0,
                        required: Self::MIN_UNITS_PER_VALUE,
                        available: input@.len() as usize,
                    },
                ),
            ),
            input@.len() >= Self::MIN_UNITS_PER_VALUE && output_capacity_check(
                old(finish_output)@.len() as usize,
                finish_output_index,
                Self::MAX_DECODE_FINISH_VALUES,
            ) is Err ==> result == Err::<
                (Self::Value, usize),
                TranscodeError<Self::DecodeError>,
            >(
                TranscodeError::Failure(
                    output_capacity_check(
                        old(finish_output)@.len() as usize,
                        finish_output_index,
                        Self::MAX_DECODE_FINISH_VALUES,
                    )->Err_0,
                ),
            ),
            result matches Ok((_, finished)) ==> finished <= Self::MAX_DECODE_FINISH_VALUES,
            input@.len() < Self::MIN_UNITS_PER_VALUE || output_capacity_check(
                old(finish_output)@.len() as usize,
                finish_output_index,
                Self::MAX_DECODE_FINISH_VALUES,
            ) is Err ==> {
                &&& final(finish_output)@ == old(finish_output)@
                &&& *final(self) == *old(self)
            },
            input@.len() >= Self::MIN_UNITS_PER_VALUE && output_capacity_check(
                old(finish_output)@.len() as usize,
                finish_output_index,
                Self::MAX_DECODE_FINISH_VALUES,
            ) is Ok ==> match old(self).spec_decode(input, 0) {
                Err(failure) => result == Err::<(Self::Value, usize), TranscodeError<Self::DecodeError>>(
                    TranscodeError::<Self::DecodeError>::spec_from_decode_failure(
                        failure,
                        0,
                        input@.len() as usize,
                    ),
                ),
                Ok((value, consumed)) => match TranscodeError::<Self::DecodeError>::lift(
                    saturating_trailing_check(consumed.spec_get(), input@.len() as usize),
                ) {
                    Err(error) => result == Err::<
                        (Self::Value, usize),
                        TranscodeError<Self::DecodeError>,
                    >(error),
                    Ok(()) => {
                        let state = old(self).spec_after_decode(input, 0);
                        match state.spec_decode_finish() {
                            Err(error) => result == Err::<
                                (Self::Value, usize),
                                TranscodeError<Self::DecodeError>,
                            >(
                                TranscodeError::Domain(
                                    TranscodeDomainError::Finish { source: error },
                                ),
                            ),
                            Ok(finish) => {
                                &&& result == Ok::<_, TranscodeError<Self::DecodeError>>(
                                    (value, finish@.len() as usize),
                                )
                                &&& final(finish_output)@.subrange(
                                    finish_output_index as int,
                                    finish_output_index + finish@.len(),
                                ) == finish@
                                &&& *final(self) == state.spec_after_decode_finish()
                            },
                        }
                    },
                },
            },
    {
        TranscodeError::ensure_min_input(input.len(), 0, Self::MIN_UNITS_PER_VALUE)?;
        let finish_cap = Self::MAX_DECODE_FINISH_VALUES;
        TranscodeError::ensure_output_capacity(
            finish_output.len(),
            finish_output_index,
            finish_cap,
        )?;
        let (value, consumed) = match self.decode(input, 0) {
            Ok(decoded) => decoded,
            Err(failure) => {
                return Err(TranscodeError::from_decode_failure(failure, 0, input.len()));
            },
        };
        TranscodeError::ensure_no_trailing_input(consumed.get(), input.len())?;
        let finished = match self.decode_finish(finish_output, finish_output_index) {
            Ok(written) => written,
            Err(error) => {
                return Err(TranscodeError::domain(error, CodecPhase::Finish, None));
            },
        };
        Ok((value, finished))
    }
}

impl<C: Codec> CodecValueExt for C {

}

} // verus!
