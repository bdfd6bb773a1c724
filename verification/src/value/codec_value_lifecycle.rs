//! Complete single-value codec lifecycles: reset, one value, finish.

use vstd::prelude::*;

use crate::codec::{Codec, DecodeFailure};
use crate::num::NonZeroUsize;
use crate::transcode::capacity_error::CapacityError;
use crate::transcode::codec_phase::CodecPhase;
use crate::transcode::transcode_error::phase_domain_error;
use crate::transcode::transcode_decode_error::TranscodeDecodeError;
use crate::transcode::transcode_domain_error::TranscodeDomainError;
use crate::transcode::transcode_encode_error::TranscodeEncodeError;
use crate::transcode::transcode_failure::{no_trailing_input_check, TranscodeFailure};

verus! {

/// The checked sum `a + b + c`, or an overflow error.
pub open spec fn spec_sum3(a: usize, b: usize, c: usize) -> Result<usize, CapacityError> {
    if a + b + c <= usize::MAX {
        Ok((a + b + c) as usize)
    } else {
        Err(CapacityError::OutputLengthOverflow)
    }
}

/// The conservative unit count of one complete encode lifecycle of `C`.
pub open spec fn spec_complete_encode_units<C: Codec>() -> Result<usize, CapacityError> {
    spec_sum3(C::MAX_ENCODE_RESET_UNITS, C::MAX_ENCODE_UNITS_PER_VALUE, C::MAX_ENCODE_FINISH_UNITS)
}

/// Returns the conservative maximum unit count for a complete encode
/// lifecycle: the checked sum of the encode reset, value, and finish bounds.
pub fn max_complete_encode_units<C: Codec>() -> (result: Result<usize, CapacityError>)
    ensures
        result == spec_complete_encode_units::<C>(),
{
    match C::MAX_ENCODE_RESET_UNITS.checked_add(C::MAX_ENCODE_UNITS_PER_VALUE) {
        Some(units) => match units.checked_add(C::MAX_ENCODE_FINISH_UNITS) {
            Some(total) => Ok(total),
            None => Err(CapacityError::OutputLengthOverflow),
        },
        None => Err(CapacityError::OutputLengthOverflow),
    }
}

/// What the encode hooks do for one complete lifecycle of `value` started in
/// `codec`: reset, then (when `check_encodable`, only if the reset state
/// can encode `value`) encode, then finish, each in the state the previous
/// hook left. Answers the units written back to back and the final state,
/// or where the lifecycle stopped: `None` for a value the reset state cannot
/// encode, else the phase and domain error of the failing hook.
pub open spec fn spec_encode_hooks<C: Codec>(codec: C, value: C::Value, check_encodable: bool) -> Result<
    (Seq<C::Unit>, C),
    Option<(CodecPhase, C::EncodeError)>,
> {
    match codec.spec_encode_reset() {
        Err(error) => Err(Some((CodecPhase::Reset, error))),
        Ok(reset) => {
            let reset_state = codec.spec_after_encode_reset();
            if check_encodable && !reset_state.spec_can_encode(value) {
                Err(None)
            } else {
                match reset_state.spec_encode(value) {
                    Err(error) => Err(Some((CodecPhase::Main, error))),
                    Ok(units) => {
                        let value_state = reset_state.spec_after_encode(value);
                        match value_state.spec_encode_finish() {
                            Err(error) => Err(Some((CodecPhase::Finish, error))),
                            Ok(finish) => Ok(
                                (reset@ + units@ + finish@, value_state.spec_after_encode_finish()),
                            ),
                        }
                    },
                }
            }
        },
    }
}

/// The error an encode lifecycle reports where [`spec_encode_hooks`]
/// stopped: an unencodable value at input index 0 without the value, or
/// the hook's domain error, a main-phase one at input index 0.
pub open spec fn encode_stop_error<E, V>(stop: Option<(CodecPhase, E)>) -> TranscodeEncodeError<E, V> {
    match stop {
        None => TranscodeEncodeError::Unencodable { input_index: 0, value: None },
        Some((phase, error)) => TranscodeEncodeError::Domain(
            phase_domain_error(error, phase, Some(0usize), None),
        ),
    }
}

/// What [`encode_complete_value_into_reserved`] answers for `value` started
/// in `codec`: the units of the complete lifecycle and the final state, or
/// the error where it stopped.
pub open spec fn spec_encode_complete<C: Codec>(codec: C, value: C::Value) -> Result<
    (Seq<C::Unit>, C),
    TranscodeEncodeError<C::EncodeError, C::Value>,
> {
    match spec_encode_hooks(codec, value, true) {
        Ok(done) => Ok(done),
        Err(stop) => Err(encode_stop_error(stop)),
    }
}

/// Encodes one value through reset, encode, and finish into output that the
/// caller reserved for a complete lifecycle.
///
/// The reset runs at `output_index`; when the state it leaves can encode
/// the value, the value is encoded right after the reset units and the
/// finish runs right after the value units. On success the units of the
/// three hooks stand back to back from `output_index` and their total is
/// returned. Units before `output_index` are left as they were. Because
/// `reserved` covers every declared bound, no capacity failure can occur:
/// the only errors are a value that the reset state cannot encode (reported
/// at input index 0 without the value) and domain errors of the three hooks.
pub fn encode_complete_value_into_reserved<C: Codec>(
    codec: &mut C,
    value: &C::Value,
    output: &mut [C::Unit],
    output_index: usize,
    reserved: usize,
) -> (result: Result<usize, TranscodeEncodeError<C::EncodeError, C::Value>>)
    requires
        spec_complete_encode_units::<C>() == Ok::<usize, CapacityError>(reserved),
        output_index <= old(output)@.len(),
        old(output)@.len() - output_index >= reserved,
    ensures
        final(output)@.len() == old(output)@.len(),
        final(output)@.subrange(0, output_index as int) == old(output)@.subrange(
            0,
            output_index as int,
        ),
        match spec_encode_complete(*old(codec), *value) {
            Ok((units, state)) => {
                &&& result == Ok::<usize, TranscodeEncodeError<C::EncodeError, C::Value>>(
                    units.len() as usize,
                )
                &&& units.len() <= reserved
                &&& final(output)@.subrange(output_index as int, output_index + units.len())
                    == units
                &&& *final(codec) == state
            },
            Err(error) => result == Err::<usize, TranscodeEncodeError<C::EncodeError, C::Value>>(
                error,
            ),
        },
{
    let ghost start = *codec;
    let reset_written = match codec.encode_reset(output, output_index) {
        Ok(written) => written,
        Err(error) => {
            return Err(TranscodeEncodeError::domain_reset(error));
        },
    };
    assert(reset_written <= C::MAX_ENCODE_RESET_UNITS);
    assert(reset_written <= reserved);
    let output_len = output.len();
    assert(output_index + reset_written <= output_len);
    if !codec.can_encode_value(value) {
        return Err(TranscodeEncodeError::unencodable_without_context(0));
    }
    let value_units = codec.encode_len(value);
    let value_and_finish = match value_units.checked_add(C::MAX_ENCODE_FINISH_UNITS) {
        Some(units) => units,
        None => {
            return Err(TranscodeEncodeError::output_length_overflow());
        },
    };
    let value_index = output_index + reset_written;
    TranscodeEncodeError::ensure_output_capacity(output.len(), value_index, value_and_finish)?;
    let ghost before_value = output@;
    let value_written = match codec.encode(value, output, value_index) {
        Ok(written) => written,
        Err(error) => {
            return Err(TranscodeEncodeError::domain_main(error, 0));
        },
    };
    let finish_index = value_index + value_written;
    let ghost before_finish = output@;
    let finish_written = match codec.encode_finish(output, finish_index) {
        Ok(written) => written,
        Err(error) => {
            return Err(TranscodeEncodeError::domain_finish(error));
        },
    };
    let total = reset_written + value_written + finish_written;
    proof {
        lemma_three_parts(
            before_value,
            before_finish,
            output@,
            output_index as int,
            reset_written as int,
            value_written as int,
            finish_written as int,
        );
    }
    Ok(total)
}

/// Three hooks writing back to back, each keeping the units before its own
/// index: the reset units survive the value and finish hooks, and the value
/// units survive the finish hook.
pub(crate) proof fn lemma_three_parts<U>(
    after_reset: Seq<U>,
    after_value: Seq<U>,
    after_finish: Seq<U>,
    index: int,
    reset: int,
    value: int,
    finish: int,
)
    requires
        0 <= index,
        0 <= reset,
        0 <= value,
        0 <= finish,
        index + reset + value + finish <= after_finish.len(),
        after_value.len() == after_reset.len(),
        after_finish.len() == after_value.len(),
        after_value.subrange(0, index + reset) == after_reset.subrange(0, index + reset),
        after_finish.subrange(0, index + reset + value) == after_value.subrange(
            0,
            index + reset + value,
        ),
    ensures
        after_finish.subrange(index, index + reset + value + finish) == after_reset.subrange(
            index,
            index + reset,
        ) + after_value.subrange(index + reset, index + reset + value) + after_finish.subrange(
            index + reset + value,
            index + reset + value + finish,
        ),
{
    assert forall|k: int| index <= k < index + reset implies after_finish[k] == after_reset[k] by {
        assert(after_finish[k] == after_finish.subrange(0, index + reset + value)[k]);
        assert(after_value[k] == after_value.subrange(0, index + reset + value)[k]);
        assert(after_value[k] == after_value.subrange(0, index + reset)[k]);
        assert(after_reset[k] == after_reset.subrange(0, index + reset)[k]);
    }
    assert forall|k: int| index + reset <= k < index + reset + value implies after_finish[k]
        == after_value[k] by {
        assert(after_finish[k] == after_finish.subrange(0, index + reset + value)[k]);
        assert(after_value[k] == after_value.subrange(0, index + reset + value)[k]);
    }
    assert(after_finish.subrange(index, index + reset + value + finish) =~= after_reset.subrange(
        index,
        index + reset,
    ) + after_value.subrange(index + reset, index + reset + value) + after_finish.subrange(
        index + reset + value,
        index + reset + value + finish,
    ));
}

/// What an exact decode makes of the codec's end-of-input answer for an
/// input of `input_len` units: the value when the decode consumed all of
/// them, trailing input when it stopped short, and the decode failure
/// otherwise.
pub open spec fn spec_exact_decode_outcome<V, E>(
    decoded: Result<(V, NonZeroUsize), DecodeFailure<E>>,
    input_len: usize,
) -> Result<V, TranscodeDecodeError<E>> {
    match decoded {
        Ok((value, consumed)) => match no_trailing_input_check(consumed.spec_get(), input_len) {
            Ok(()) => Ok(value),
            Err(failure) => Err(TranscodeDecodeError::Failure(failure)),
        },
        Err(failure) => Err(TranscodeDecodeError::spec_from_decode_failure(failure, 0, input_len)),
    }
}

/// Returns [`spec_exact_decode_outcome`]: the decision an exact decode
/// takes on the codec's answer for the whole input.
pub fn exact_decode_outcome<V, E>(
    decoded: Result<(V, NonZeroUsize), DecodeFailure<E>>,
    input_len: usize,
) -> (outcome: Result<V, TranscodeDecodeError<E>>)
    ensures
        outcome == spec_exact_decode_outcome(decoded, input_len),
{
    match decoded {
        Ok((value, consumed)) => match TranscodeDecodeError::ensure_no_trailing_input(
            consumed.get(),
            input_len,
        ) {
            Ok(()) => Ok(value),
            Err(error) => Err(error),
        },
        Err(failure) => Err(TranscodeDecodeError::from_decode_failure(failure, 0, input_len)),
    }
}

/// What an exact single-value decode of `input` started in `codec` answers
/// once its lifecycle buffers passed their checks: the reset runs; input
/// shorter than the minimum value width is incomplete at index 0; otherwise
/// the end-of-input decode of the whole input in the reset state is decided
/// by [`spec_exact_decode_outcome`], and only a decode that consumed it all
/// goes on to the finish hook in the state the decode left. On success
/// answers the reset values, the decoded value, the finish values and the
/// final state.
pub open spec fn spec_decode_exact<C: Codec>(codec: C, input: &[C::Unit]) -> Result<
    (Seq<C::Value>, C::Value, Seq<C::Value>, C),
    TranscodeDecodeError<C::DecodeError>,
> {
    match codec.spec_decode_reset() {
        Err(error) => Err(TranscodeDecodeError::Domain(TranscodeDomainError::Reset { source: error })),
        Ok(reset) => {
            let reset_state = codec.spec_after_decode_reset();
            if input@.len() < C::MIN_UNITS_PER_VALUE {
                Err(
                    TranscodeDecodeError::Failure(
                        TranscodeFailure::IncompleteInput {
                            input_index: 0,
                            required: C::MIN_UNITS_PER_VALUE,
                            available: input@.len() as usize,
                        },
                    ),
                )
            } else {
                match spec_exact_decode_outcome(
                    reset_state.spec_decode_eof(input, 0),
                    input@.len() as usize,
                ) {
                    Err(error) => Err(error),
                    Ok(value) => {
                        let value_state = reset_state.spec_after_decode_eof(input, 0);
                        match value_state.spec_decode_finish() {
                            Err(error) => Err(
                                TranscodeDecodeError::Domain(
                                    TranscodeDomainError::Finish { source: error },
                                ),
                            ),
                            Ok(finish) => Ok(
                                (reset@, value, finish@, value_state.spec_after_decode_finish()),
                            ),
                        }
                    },
                }
            }
        },
    }
}

/// Decodes exactly one value through reset, decode-at-EOF, and finish.
///
/// Reset and finish output values go to separate caller buffers, checked
/// against the codec's declared bounds before any hook runs; when one is too
/// short nothing is called and nothing changes. Then the reset runs into
/// `reset_output` at index 0, the input is checked against the minimum
/// value width, the codec decodes the whole `input` at end of input, and
/// [`exact_decode_outcome`] decides: a decode that stopped short of the end
/// is trailing input. Only then does the finish run into `finish_output` at
/// index 0. On success returns the decoded value and the reset and finish
/// counts, with the values they wrote at the front of the two buffers.
pub fn decode_exact_complete_value<C: Codec>(
    codec: &mut C,
    input: &[C::Unit],
    reset_output: &mut [C::Value],
    finish_output: &mut [C::Value],
) -> (result: Result<(C::Value, usize, usize), TranscodeDecodeError<C::DecodeError>>)
    ensures
        final(reset_output)@.len() == old(reset_output)@.len(),
        final(finish_output)@.len() == old(finish_output)@.len(),
        old(reset_output)@.len() < C::MAX_DECODE_RESET_VALUES ==> result == Err::<
            (C::Value, usize, usize),
            TranscodeDecodeError<C::DecodeError>,
        >(
            TranscodeDecodeError::Failure(
                TranscodeFailure::InsufficientOutput {
                    output_index: 0,
                    required: C::MAX_DECODE_RESET_VALUES,
                    available: old(reset_output)@.len() as usize,
                },
            ),
        ),
        old(reset_output)@.len() >= C::MAX_DECODE_RESET_VALUES && old(finish_output)@.len()
            < C::MAX_DECODE_FINISH_VALUES ==> result == Err::<
            (C::Value, usize, usize),
            TranscodeDecodeError<C::DecodeError>,
        >(
            TranscodeDecodeError::Failure(
                TranscodeFailure::InsufficientOutput {
                    output_index: 0,
                    required: C::MAX_DECODE_FINISH_VALUES,
                    available: old(finish_output)@.len() as usize,
                },
            ),
        ),
        old(reset_output)@.len() < C::MAX_DECODE_RESET_VALUES || old(finish_output)@.len()
            < C::MAX_DECODE_FINISH_VALUES ==> {
            &&& final(reset_output)@ == old(reset_output)@
            &&& final(finish_output)@ == old(finish_output)@
            &&& *final(codec) == *old(codec)
        },
        old(reset_output)@.len() >= C::MAX_DECODE_RESET_VALUES && old(finish_output)@.len()
            >= C::MAX_DECODE_FINISH_VALUES ==> match spec_decode_exact(*old(codec), input) {
            Ok((reset, value, finish, state)) => {
                &&& result == Ok::<_, TranscodeDecodeError<C::DecodeError>>(
                    (value, reset.len() as usize, finish.len() as usize),
                )
                &&& reset.len() <= C::MAX_DECODE_RESET_VALUES
                &&& finish.len() <= C::MAX_DECODE_FINISH_VALUES
                &&& final(reset_output)@.subrange(0, reset.len() as int) == reset
                &&& final(finish_output)@.subrange(0, finish.len() as int) == finish
                &&& *final(codec) == state
            },
            Err(error) => result == Err::<(C::Value, usize, usize), _>(error),
        },
{
    TranscodeDecodeError::ensure_output_capacity(reset_output.len(), 0, C::MAX_DECODE_RESET_VALUES)?;
    TranscodeDecodeError::ensure_output_capacity(
        finish_output.len(),
        0,
        C::MAX_DECODE_FINISH_VALUES,
    )?;
    let reset_written = match codec.decode_reset(reset_output, 0) {
        Ok(written) => written,
        Err(error) => {
            return Err(TranscodeDecodeError::domain_reset(error));
        },
    };
    TranscodeDecodeError::ensure_min_input(input.len(), 0, C::MIN_UNITS_PER_VALUE)?;
    let decoded = codec.decode_eof(input, 0);
    let value = match exact_decode_outcome(decoded, input.len()) {
        Ok(value) => value,
        Err(error) => {
            return Err(error);
        },
    };
    let finish_written = match codec.decode_finish(finish_output, 0) {
        Ok(written) => written,
        Err(error) => {
            return Err(TranscodeDecodeError::domain_finish(error));
        },
    };
    Ok((value, reset_written, finish_written))
}

/// An exact decode decides at end of input: once the reset succeeded and
/// the input holds at least the minimum value width, what it answers is
/// what the codec's end-of-input decode of the whole input answers in the
/// reset state. A value that used every unit is returned (unless the finish
/// hook fails), a value that stopped short is trailing input, an incomplete
/// answer is incomplete input at index 0, and an invalid one a main-phase
/// domain error at index 0.
pub proof fn lemma_exact_decode_decides_at_end_of_input<C: Codec>(codec: C, input: &[C::Unit])
    requires
        codec.spec_decode_reset() is Ok,
        C::MIN_UNITS_PER_VALUE <= input@.len() <= usize::MAX,
    ensures
        match codec.spec_after_decode_reset().spec_decode_eof(input, 0) {
            Ok((value, consumed)) => {
                &&& consumed.spec_get() == input@.len() ==> (match spec_decode_exact(codec, input) {
                    Ok((_, decoded, _, _)) => decoded == value,
                    Err(error) => error is Domain && error->Domain_0 is Finish,
                })
                &&& consumed.spec_get() < input@.len() ==> spec_decode_exact(codec, input) == Err::<
                    (Seq<C::Value>, C::Value, Seq<C::Value>, C),
                    TranscodeDecodeError<C::DecodeError>,
                >(
                    TranscodeDecodeError::Failure(
                        TranscodeFailure::TrailingInput {
                            consumed: consumed.spec_get(),
                            remaining: (input@.len() - consumed.spec_get()) as usize,
                        },
                    ),
                )
            },
            Err(DecodeFailure::Incomplete { required_total }) => spec_decode_exact(codec, input)
                == Err::<(Seq<C::Value>, C::Value, Seq<C::Value>, C), TranscodeDecodeError<C::DecodeError>>(
                TranscodeDecodeError::Failure(
                    TranscodeFailure::IncompleteInput {
                        input_index: 0,
                        required: required_total.spec_get(),
                        available: input@.len() as usize,
                    },
                ),
            ),
            Err(DecodeFailure::Invalid { source, consumed }) => spec_decode_exact(codec, input)
                == Err::<(Seq<C::Value>, C::Value, Seq<C::Value>, C), TranscodeDecodeError<C::DecodeError>>(
                TranscodeDecodeError::Domain(
                    TranscodeDomainError::Main { source, input_index: 0, input_consumed: consumed },
                ),
            ),
        },
{
}

} // verus!
