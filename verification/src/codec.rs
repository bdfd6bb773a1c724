//! The low-level value/unit codec contract.

use vstd::prelude::*;

use crate::num::NonZeroUsize;

verus! {

/// Failure reported by a codec while decoding one value.
///
/// An incomplete visible prefix is not an end-of-input decision: it only
/// states how many units the codec needs before it can decide.
#[derive(Clone, Copy, Debug, PartialEq, Eq, Hash)]
pub enum DecodeFailure<E> {
    /// The visible input is a prefix of a value; at least `required_total`
    /// units from the decode index are needed before retrying.
    Incomplete {
        /// Minimum total units required from the decode index.
        required_total: NonZeroUsize,
    },
    /// The input is not a valid encoding.
    Invalid {
        /// Domain error reported by the codec.
        source: E,
        /// Invalid input units consumed, when the codec knows the width.
        consumed: Option<NonZeroUsize>,
    },
}

/// Converts between one logical value and its encoded units.
///
/// A format crate implements this trait once; the adapters of this crate then
/// supply bounds checks, capacity planning and lifecycle handling. The
/// associated constants bound every reachable transient state: the units read
/// or written for one value, and the output of the reset and finish hooks of
/// each direction.
///
/// The hooks take an index into a caller-supplied slice and may rely on the
/// capacity that their `requires` clauses grant. Every hook's answer, the
/// units or values it writes and the state it leaves are functions of the
/// state it starts from and its arguments; an implementation names them
/// with the `spec_*` functions below, over which the adapters' contracts are
/// stated.
pub trait Codec: Sized {
    /// Logical value type.
    type Value;
    /// Encoded unit type.
    type Unit;
    /// Domain error reported while decoding.
    type DecodeError;
    /// Domain error reported while encoding.
    type EncodeError;

    /// Minimum number of units any encoded value occupies.
    const MIN_UNITS_PER_VALUE: usize;
    /// Maximum number of units written for one encoded value.
    const MAX_ENCODE_UNITS_PER_VALUE: usize;
    /// Maximum number of units consumed while decoding one value.
    const MAX_DECODE_UNITS_PER_VALUE: usize;
    /// Maximum number of units written by the encode reset hook.
    const MAX_ENCODE_RESET_UNITS: usize = 0;
    /// Maximum number of units written by the encode finish hook.
    const MAX_ENCODE_FINISH_UNITS: usize = 0;
    /// Maximum number of values written by the decode reset hook.
    const MAX_DECODE_RESET_VALUES: usize = 0;
    /// Maximum number of values written by the decode finish hook.
    const MAX_DECODE_FINISH_VALUES: usize = 0;

    /// The number of units [`Codec::encode`] writes for `value` in the
    /// current state.
    spec fn spec_encode_len(&self, value: Self::Value) -> usize;

    /// Whether the current state can encode `value`.
    spec fn spec_can_encode(&self, value: Self::Value) -> bool;

    /// What [`Codec::encode`] answers in the current state: the units it
    /// writes for `value`, or its domain error.
    spec fn spec_encode(&self, value: Self::Value) -> Result<Vec<Self::Unit>, Self::EncodeError>;

    /// The state [`Codec::encode`] leaves after encoding `value`.
    spec fn spec_after_encode(&self, value: Self::Value) -> Self;

    /// What [`Codec::encode_reset`] answers in the current state: the units
    /// it writes, or its domain error.
    spec fn spec_encode_reset(&self) -> Result<Vec<Self::Unit>, Self::EncodeError>;

    /// The state [`Codec::encode_reset`] leaves.
    spec fn spec_after_encode_reset(&self) -> Self;

    /// What [`Codec::encode_finish`] answers in the current state: the units
    /// it writes, or its domain error.
    spec fn spec_encode_finish(&self) -> Result<Vec<Self::Unit>, Self::EncodeError>;

    /// The state [`Codec::encode_finish`] leaves.
    spec fn spec_after_encode_finish(&self) -> Self;

    /// What [`Codec::decode`] answers in the current state for the value at
    /// `input_index`.
    spec fn spec_decode(&self, input: &[Self::Unit], input_index: usize) -> Result<
        (Self::Value, NonZeroUsize),
        DecodeFailure<Self::DecodeError>,
    >;

    /// The state [`Codec::decode`] leaves.
    spec fn spec_after_decode(&self, input: &[Self::Unit], input_index: usize) -> Self;

    /// What [`Codec::decode_eof`] answers in the current state for the value
    /// at `input_index` when no more input follows.
    spec fn spec_decode_eof(&self, input: &[Self::Unit], input_index: usize) -> Result<
        (Self::Value, NonZeroUsize),
        DecodeFailure<Self::DecodeError>,
    >;

    /// The state [`Codec::decode_eof`] leaves.
    spec fn spec_after_decode_eof(&self, input: &[Self::Unit], input_index: usize) -> Self;

    /// What [`Codec::decode_reset`] answers in the current state: the values
    /// it writes, or its domain error.
    spec fn spec_decode_reset(&self) -> Result<Vec<Self::Value>, Self::DecodeError>;

    /// The state [`Codec::decode_reset`] leaves.
    spec fn spec_after_decode_reset(&self) -> Self;

    /// What [`Codec::decode_finish`] answers in the current state: the
    /// values it writes, or its domain error.
    spec fn spec_decode_finish(&self) -> Result<Vec<Self::Value>, Self::DecodeError>;

    /// The state [`Codec::decode_finish`] leaves.
    spec fn spec_after_decode_finish(&self) -> Self;

    /// Decodes one value starting at `input_index`.
    ///
    /// On success returns the value and the number of units it occupied.
    fn decode(&mut self, input: &[Self::Unit], input_index: usize) -> (result: Result<
        (Self::Value, NonZeroUsize),
        DecodeFailure<Self::DecodeError>,
    >)
        requires
            input_index <= input@.len(),
            input@.len() - input_index >= Self::MIN_UNITS_PER_VALUE,
        ensures
            result == old(self).spec_decode(input, input_index),
            *final(self) == old(self).spec_after_decode(input, input_index),
            result matches Ok((_, consumed)) ==> consumed.spec_get() <= input@.len() - input_index
                && consumed.spec_get() <= Self::MAX_DECODE_UNITS_PER_VALUE,
            result matches Err(DecodeFailure::Incomplete { required_total })
                ==> required_total.spec_get() <= Self::MAX_DECODE_UNITS_PER_VALUE,
    ;

    /// Decodes one value when no more input will follow the visible units;
    /// a codec without an end-of-input rule answers as [`Codec::decode`].
    fn decode_eof(&mut self, input: &[Self::Unit], input_index: usize) -> (result: Result<
        (Self::Value, NonZeroUsize),
        DecodeFailure<Self::DecodeError>,
    >)
        requires
            input_index <= input@.len(),
            input@.len() - input_index >= Self::MIN_UNITS_PER_VALUE,
        ensures
            result == old(self).spec_decode_eof(input, input_index),
            *final(self) == old(self).spec_after_decode_eof(input, input_index),
            result matches Ok((_, consumed)) ==> consumed.spec_get() <= input@.len() - input_index
                && consumed.spec_get() <= Self::MAX_DECODE_UNITS_PER_VALUE,
    ;

    /// Resets decode-side state, writing at most
    /// [`Codec::MAX_DECODE_RESET_VALUES`] values from `output_index`: the
    /// values of [`Codec::spec_decode_reset`].
    fn decode_reset(&mut self, output: &mut [Self::Value], output_index: usize) -> (result: Result<
        usize,
        Self::DecodeError,
    >)
        requires
            output_index <= old(output)@.len(),
            old(output)@.len() - output_index >= Self::MAX_DECODE_RESET_VALUES,
        ensures
            final(output)@.len() == old(output)@.len(),
            final(output)@.subrange(0, output_index as int) == old(output)@.subrange(
                0,
                output_index as int,
            ),
            *final(self) == old(self).spec_after_decode_reset(),
            match old(self).spec_decode_reset() {
                Ok(values) => result == Ok::<usize, Self::DecodeError>(values@.len() as usize)
                    && values@.len() <= Self::MAX_DECODE_RESET_VALUES && final(output)@.subrange(
                    output_index as int,
                    output_index + values@.len(),
                ) == values@,
                Err(error) => result == Err::<usize, Self::DecodeError>(error),
            },
    ;

    /// Finishes decode-side state, writing at most
    /// [`Codec::MAX_DECODE_FINISH_VALUES`] values from `output_index`: the
    /// values of [`Codec::spec_decode_finish`].
    fn decode_finish(&mut self, output: &mut [Self::Value], output_index: usize) -> (result: Result<
        usize,
        Self::DecodeError,
    >)
        requires
            output_index <= old(output)@.len(),
            old(output)@.len() - output_index >= Self::MAX_DECODE_FINISH_VALUES,
        ensures
            final(output)@.len() == old(output)@.len(),
            final(output)@.subrange(0, output_index as int) == old(output)@.subrange(
                0,
                output_index as int,
            ),
            *final(self) == old(self).spec_after_decode_finish(),
            match old(self).spec_decode_finish() {
                Ok(values) => result == Ok::<usize, Self::DecodeError>(values@.len() as usize)
                    && values@.len() <= Self::MAX_DECODE_FINISH_VALUES && final(output)@.subrange(
                    output_index as int,
                    output_index + values@.len(),
                ) == values@,
                Err(error) => result == Err::<usize, Self::DecodeError>(error),
            },
    ;

    /// Resets encode-side state, writing at most
    /// [`Codec::MAX_ENCODE_RESET_UNITS`] units from `output_index`: the
    /// units of [`Codec::spec_encode_reset`].
    fn encode_reset(&mut self, output: &mut [Self::Unit], output_index: usize) -> (result: Result<
        usize,
        Self::EncodeError,
    >)
        requires
            output_index <= old(output)@.len(),
            old(output)@.len() - output_index >= Self::MAX_ENCODE_RESET_UNITS,
        ensures
            final(output)@.len() == old(output)@.len(),
            final(output)@.subrange(0, output_index as int) == old(output)@.subrange(
                0,
                output_index as int,
            ),
            *final(self) == old(self).spec_after_encode_reset(),
            match old(self).spec_encode_reset() {
                Ok(units) => result == Ok::<usize, Self::EncodeError>(units@.len() as usize)
                    && units@.len() <= Self::MAX_ENCODE_RESET_UNITS && final(output)@.subrange(
                    output_index as int,
                    output_index + units@.len(),
                ) == units@,
                Err(error) => result == Err::<usize, Self::EncodeError>(error),
            },
    ;

    /// Returns whether the current state can encode `value`.
    fn can_encode_value(&self, value: &Self::Value) -> (result: bool)
        ensures
            result == self.spec_can_encode(*value),
    ;

    /// Returns the number of units [`Codec::encode`] writes for `value` in
    /// the current state.
    fn encode_len(&self, value: &Self::Value) -> (len: usize)
        ensures
            len == self.spec_encode_len(*value),
            len <= Self::MAX_ENCODE_UNITS_PER_VALUE,
    ;

    /// Encodes `value` at `output_index`, writing exactly
    /// [`Codec::encode_len`] units on success: the units of
    /// [`Codec::spec_encode`] in the state before the call.
    fn encode(&mut self, value: &Self::Value, output: &mut [Self::Unit], output_index: usize) -> (result:
        Result<usize, Self::EncodeError>)
        requires
            old(self).spec_can_encode(*value),
            output_index <= old(output)@.len(),
            old(output)@.len() - output_index >= old(self).spec_encode_len(*value),
        ensures
            final(output)@.len() == old(output)@.len(),
            final(output)@.subrange(0, output_index as int) == old(output)@.subrange(
                0,
                output_index as int,
            ),
            *final(self) == old(self).spec_after_encode(*value),
            match old(self).spec_encode(*value) {
                Ok(units) => result == Ok::<usize, Self::EncodeError>(
                    old(self).spec_encode_len(*value),
                ) && units@.len() == old(self).spec_encode_len(*value) && final(output)@.subrange(
                    output_index as int,
                    output_index + units@.len(),
                ) == units@,
                Err(error) => result == Err::<usize, Self::EncodeError>(error),
            },
    ;

    /// Finishes encode-side state, writing at most
    /// [`Codec::MAX_ENCODE_FINISH_UNITS`] units from `output_index`: the
    /// units of [`Codec::spec_encode_finish`].
    fn encode_finish(&mut self, output: &mut [Self::Unit], output_index: usize) -> (result: Result<
        usize,
        Self::EncodeError,
    >)
        requires
            output_index <= old(output)@.len(),
            old(output)@.len() - output_index >= Self::MAX_ENCODE_FINISH_UNITS,
        ensures
            final(output)@.len() == old(output)@.len(),
            final(output)@.subrange(0, output_index as int) == old(output)@.subrange(
                0,
                output_index as int,
            ),
            *final(self) == old(self).spec_after_encode_finish(),
            match old(self).spec_encode_finish() {
                Ok(units) => result == Ok::<usize, Self::EncodeError>(units@.len() as usize)
                    && units@.len() <= Self::MAX_ENCODE_FINISH_UNITS && final(output)@.subrange(
                    output_index as int,
                    output_index + units@.len(),
                ) == units@,
                Err(error) => result == Err::<usize, Self::EncodeError>(error),
            },
    ;
}

} // verus!
