//! Framework-level failures reported by safe transcode APIs.

use vstd::prelude::*;

use crate::codec::Codec;
use super::capacity_error::CapacityError;
use super::transcode_contract_error::TranscodeContractError;

verus! {

/// Framework-level failure reported by a transcode operation.
///
/// These failures describe caller-supplied buffer ranges, capacity planning,
/// complete-input shape, and stream lifecycle misuse that the transcode layer
/// can detect without interpreting a concrete codec error.
#[derive(Clone, Copy, Debug, PartialEq, Eq, Hash, Structural)]
#[non_exhaustive]
pub enum TranscodeFailure<Value = ()> {
    /// The caller supplied an input index outside the input slice.
    InvalidInputIndex {
        /// Invalid input index supplied by the caller.
        index: usize,
        /// Length of the input slice.
        input_len: usize,
    },
    /// The caller supplied an output index outside the output slice.
    InvalidOutputIndex {
        /// Invalid output index supplied by the caller.
        index: usize,
        /// Length of the output slice.
        output_len: usize,
    },
    /// The caller supplied an output range extending beyond the output slice.
    InvalidOutputRange {
        /// Absolute output index where the range starts.
        output_index: usize,
        /// Length of the caller-supplied output range.
        range_len: usize,
        /// Length of the output slice.
        output_len: usize,
    },
    /// The output slice cannot hold all required output.
    InsufficientOutput {
        /// Absolute output index where writing would start.
        output_index: usize,
        /// Output units required from `output_index`.
        required: usize,
        /// Output units available from `output_index`.
        available: usize,
    },
    /// Output length arithmetic overflowed.
    OutputLengthOverflow,
    /// The allocator could not reserve the requested output storage.
    AllocationFailed,
    /// The codec cannot encode the value at `input_index`.
    UnencodableValue {
        /// Absolute input index of the value.
        input_index: usize,
        /// The value, when available.
        value: Option<Value>,
    },
    /// The complete input ended with an incomplete value.
    IncompleteInput {
        /// Absolute input index where the incomplete value starts.
        input_index: usize,
        /// Current minimum total input units required from `input_index`.
        required: usize,
        /// Input units available from `input_index`.
        available: usize,
    },
    /// A transcoder returned progress inconsistent with the supplied buffers.
    InvalidProgress {
        /// Contract error describing the invalid progress.
        source: TranscodeContractError,
    },
    /// The input contains exactly one decoded value plus trailing units.
    TrailingInput {
        /// Units consumed by the decoded value.
        consumed: usize,
        /// Extra units left after the decoded value.
        remaining: usize,
    },
    /// A strict single-value decoder cannot expose codec lifecycle output.
    UnsupportedDecodeLifecycleOutput {
        /// Maximum values the codec may emit while resetting decode state.
        reset_bound: usize,
        /// Maximum values the codec may emit while finishing decode state.
        finish_bound: usize,
    },
    /// `transcode` was called after the logical stream was finished.
    TranscodeAfterFinish,
    /// `transcode` was called before the first successful reset.
    TranscodeBeforeReset,
    /// `finish` was called after the logical stream was already finished.
    FinishAfterFinish,
    /// `finish` was called before the first successful reset.
    FinishBeforeReset,
    /// Reset or finish failed after codec, hook, or buffered state may have
    /// changed; a successful reset is required before further use.
    LifecyclePoisoned,
}

/// What [`TranscodeFailure::ensure_input_index`] answers.
pub open spec fn input_index_check(input_len: usize, input_index: usize) -> Result<
    (),
    TranscodeFailure,
> {
    if input_index > input_len {
        Err(TranscodeFailure::InvalidInputIndex { index: input_index, input_len })
    } else {
        Ok(())
    }
}

/// What [`TranscodeFailure::ensure_min_input`] answers.
pub open spec fn min_input_check(input_len: usize, input_index: usize, min_required: usize) -> Result<
    (),
    TranscodeFailure,
> {
    if input_index > input_len {
        Err(TranscodeFailure::InvalidInputIndex { index: input_index, input_len })
    } else if input_len - input_index < min_required {
        Err(
            TranscodeFailure::IncompleteInput {
                input_index,
                required: min_required,
                available: (input_len - input_index) as usize,
            },
        )
    } else {
        Ok(())
    }
}

/// What [`TranscodeFailure::ensure_no_trailing_input`] answers.
pub open spec fn no_trailing_input_check(consumed: usize, input_len: usize) -> Result<
    (),
    TranscodeFailure,
> {
    if consumed > input_len {
        Err(TranscodeFailure::InvalidInputIndex { index: consumed, input_len })
    } else if consumed < input_len {
        Err(
            TranscodeFailure::TrailingInput {
                consumed,
                remaining: (input_len - consumed) as usize,
            },
        )
    } else {
        Ok(())
    }
}

/// What [`TranscodeFailure::ensure_output_index`] answers.
pub open spec fn output_index_check(output_len: usize, output_index: usize) -> Result<
    (),
    TranscodeFailure,
> {
    if output_index > output_len {
        Err(TranscodeFailure::InvalidOutputIndex { index: output_index, output_len })
    } else {
        Ok(())
    }
}

/// What [`TranscodeFailure::ensure_transcode_indices`] answers.
pub open spec fn transcode_indices_check(
    input_len: usize,
    input_index: usize,
    output_len: usize,
    output_index: usize,
) -> Result<(), TranscodeFailure> {
    if input_index > input_len {
        Err(TranscodeFailure::InvalidInputIndex { index: input_index, input_len })
    } else {
        output_index_check(output_len, output_index)
    }
}

/// What [`TranscodeFailure::ensure_output_capacity`] answers.
pub open spec fn output_capacity_check(output_len: usize, output_index: usize, required: usize) -> Result<
    (),
    TranscodeFailure,
> {
    if output_index > output_len {
        Err(TranscodeFailure::InvalidOutputIndex { index: output_index, output_len })
    } else if output_len - output_index < required {
        Err(
            TranscodeFailure::InsufficientOutput {
                output_index,
                required,
                available: (output_len - output_index) as usize,
            },
        )
    } else {
        Ok(())
    }
}

/// What [`TranscodeFailure::ensure_output_range`] answers.
pub open spec fn output_range_check(
    output_len: usize,
    output_index: usize,
    range_len: usize,
    required: usize,
) -> Result<(), TranscodeFailure> {
    if output_index > output_len {
        Err(TranscodeFailure::InvalidOutputIndex { index: output_index, output_len })
    } else if range_len > output_len - output_index {
        Err(TranscodeFailure::InvalidOutputRange { output_index, range_len, output_len })
    } else if range_len < required {
        Err(TranscodeFailure::InsufficientOutput { output_index, required, available: range_len })
    } else {
        Ok(())
    }
}

impl<Value> TranscodeFailure<Value> {
    /// The same failure carrying value context of type `V`; an unencodable
    /// value keeps its index and drops the value.
    pub open spec fn widened<V>(self) -> TranscodeFailure<V> {
        match self {
            TranscodeFailure::InvalidInputIndex { index, input_len } => {
                TranscodeFailure::InvalidInputIndex { index, input_len }
            },
            TranscodeFailure::InvalidOutputIndex { index, output_len } => {
                TranscodeFailure::InvalidOutputIndex { index, output_len }
            },
            TranscodeFailure::InvalidOutputRange { output_index, range_len, output_len } => {
                TranscodeFailure::InvalidOutputRange { output_index, range_len, output_len }
            },
            TranscodeFailure::InsufficientOutput { output_index, required, available } => {
                TranscodeFailure::InsufficientOutput { output_index, required, available }
            },
            TranscodeFailure::OutputLengthOverflow => TranscodeFailure::OutputLengthOverflow,
            TranscodeFailure::AllocationFailed => TranscodeFailure::AllocationFailed,
            TranscodeFailure::UnencodableValue { input_index, .. } => {
                TranscodeFailure::UnencodableValue { input_index, value: None }
            },
            TranscodeFailure::IncompleteInput { input_index, required, available } => {
                TranscodeFailure::IncompleteInput { input_index, required, available }
            },
            TranscodeFailure::InvalidProgress { source } => TranscodeFailure::InvalidProgress {
                source,
            },
            TranscodeFailure::TrailingInput { consumed, remaining } => {
                TranscodeFailure::TrailingInput { consumed, remaining }
            },
            TranscodeFailure::UnsupportedDecodeLifecycleOutput { reset_bound, finish_bound } => {
                TranscodeFailure::UnsupportedDecodeLifecycleOutput { reset_bound, finish_bound }
            },
            TranscodeFailure::TranscodeAfterFinish => TranscodeFailure::TranscodeAfterFinish,
            TranscodeFailure::TranscodeBeforeReset => TranscodeFailure::TranscodeBeforeReset,
            TranscodeFailure::FinishAfterFinish => TranscodeFailure::FinishAfterFinish,
            TranscodeFailure::FinishBeforeReset => TranscodeFailure::FinishBeforeReset,
            TranscodeFailure::LifecyclePoisoned => TranscodeFailure::LifecyclePoisoned,
        }
    }

    /// Returns [`Self::widened`].
    pub(crate) fn widen<V>(self) -> (failure: TranscodeFailure<V>)
        ensures
            failure == self.widened::<V>(),
    {
        match self {
            TranscodeFailure::InvalidInputIndex { index, input_len } => {
                TranscodeFailure::InvalidInputIndex { index, input_len }
            },
            TranscodeFailure::InvalidOutputIndex { index, output_len } => {
                TranscodeFailure::InvalidOutputIndex { index, output_len }
            },
            TranscodeFailure::InvalidOutputRange { output_index, range_len, output_len } => {
                TranscodeFailure::InvalidOutputRange { output_index, range_len, output_len }
            },
            TranscodeFailure::InsufficientOutput { output_index, required, available } => {
                TranscodeFailure::InsufficientOutput { output_index, required, available }
            },
            TranscodeFailure::OutputLengthOverflow => TranscodeFailure::OutputLengthOverflow,
            TranscodeFailure::AllocationFailed => TranscodeFailure::AllocationFailed,
            TranscodeFailure::UnencodableValue { input_index, .. } => {
                TranscodeFailure::UnencodableValue { input_index, value: None }
            },
            TranscodeFailure::IncompleteInput { input_index, required, available } => {
                TranscodeFailure::IncompleteInput { input_index, required, available }
            },
            TranscodeFailure::InvalidProgress { source } => TranscodeFailure::InvalidProgress {
                source,
            },
            TranscodeFailure::TrailingInput { consumed, remaining } => {
                TranscodeFailure::TrailingInput { consumed, remaining }
            },
            TranscodeFailure::UnsupportedDecodeLifecycleOutput { reset_bound, finish_bound } => {
                TranscodeFailure::UnsupportedDecodeLifecycleOutput { reset_bound, finish_bound }
            },
            TranscodeFailure::TranscodeAfterFinish => TranscodeFailure::TranscodeAfterFinish,
            TranscodeFailure::TranscodeBeforeReset => TranscodeFailure::TranscodeBeforeReset,
            TranscodeFailure::FinishAfterFinish => TranscodeFailure::FinishAfterFinish,
            TranscodeFailure::FinishBeforeReset => TranscodeFailure::FinishBeforeReset,
            TranscodeFailure::LifecyclePoisoned => TranscodeFailure::LifecyclePoisoned,
        }
    }

    /// Copies a failure that carries no value.
    pub(crate) fn copy_without_value(&self) -> (failure: Self)
        requires
            !(*self is UnencodableValue),
        ensures
            failure == *self,
    {
        match self {
            TranscodeFailure::InvalidInputIndex { index, input_len } => {
                TranscodeFailure::InvalidInputIndex { index: *index, input_len: *input_len }
            },
            TranscodeFailure::InvalidOutputIndex { index, output_len } => {
                TranscodeFailure::InvalidOutputIndex { index: *index, output_len: *output_len }
            },
            TranscodeFailure::InvalidOutputRange { output_index, range_len, output_len } => {
                TranscodeFailure::InvalidOutputRange {
                    output_index: *output_index,
                    range_len: *range_len,
                    output_len: *output_len,
                }
            },
            TranscodeFailure::InsufficientOutput { output_index, required, available } => {
                TranscodeFailure::InsufficientOutput {
                    output_index: *output_index,
                    required: *required,
                    available: *available,
                }
            },
            TranscodeFailure::OutputLengthOverflow => TranscodeFailure::OutputLengthOverflow,
            TranscodeFailure::AllocationFailed => TranscodeFailure::AllocationFailed,
            TranscodeFailure::UnencodableValue { input_index, .. } => {
                TranscodeFailure::UnencodableValue { input_index: *input_index, value: None }
            },
            TranscodeFailure::IncompleteInput { input_index, required, available } => {
                TranscodeFailure::IncompleteInput {
                    input_index: *input_index,
                    required: *required,
                    available: *available,
                }
            },
            TranscodeFailure::InvalidProgress { source } => TranscodeFailure::InvalidProgress {
                source: *source,
            },
            TranscodeFailure::TrailingInput { consumed, remaining } => {
                TranscodeFailure::TrailingInput { consumed: *consumed, remaining: *remaining }
            },
            TranscodeFailure::UnsupportedDecodeLifecycleOutput { reset_bound, finish_bound } => {
                TranscodeFailure::UnsupportedDecodeLifecycleOutput {
                    reset_bound: *reset_bound,
                    finish_bound: *finish_bound,
                }
            },
            TranscodeFailure::TranscodeAfterFinish => TranscodeFailure::TranscodeAfterFinish,
            TranscodeFailure::TranscodeBeforeReset => TranscodeFailure::TranscodeBeforeReset,
            TranscodeFailure::FinishAfterFinish => TranscodeFailure::FinishAfterFinish,
            TranscodeFailure::FinishBeforeReset => TranscodeFailure::FinishBeforeReset,
            TranscodeFailure::LifecyclePoisoned => TranscodeFailure::LifecyclePoisoned,
        }
    }

    /// Maps the value carried by an unencodable-value failure; every other
    /// failure is kept as it is.
    pub fn map_value<T, F>(self, f: F) -> (mapped: TranscodeFailure<T>) where
        F: FnOnce(Value) -> T,

        requires
            self matches TranscodeFailure::UnencodableValue { value: Some(v), .. } ==> f.requires(
                (v,),
            ),
        ensures
            match self {
                TranscodeFailure::UnencodableValue { input_index, value } => mapped matches TranscodeFailure::UnencodableValue {
                    input_index: i,
                    value: w,
                } && i == input_index && (match value {
                    Some(v) => w matches Some(x) && f.ensures((v,), x),
                    None => w is None,
                }),
                _ => mapped == self.widened::<T>(),
            },
    {
        match self {
            TranscodeFailure::UnencodableValue { input_index, value } => {
                let mapped_value = match value {
                    Some(v) => Some(f(v)),
                    None => None,
                };
                TranscodeFailure::UnencodableValue { input_index, value: mapped_value }
            },
            other => other.widen(),
        }
    }
}

impl TranscodeFailure {
    /// Creates an invalid-input-index error.
    pub fn invalid_input_index(index: usize, len: usize) -> (failure: Self)
        ensures
            failure == (Self::InvalidInputIndex { index, input_len: len }),
    {
        TranscodeFailure::InvalidInputIndex { index, input_len: len }
    }

    /// Creates an invalid-output-index error.
    pub fn invalid_output_index(index: usize, len: usize) -> (failure: Self)
        ensures
            failure == (Self::InvalidOutputIndex { index, output_len: len }),
    {
        TranscodeFailure::InvalidOutputIndex { index, output_len: len }
    }

    /// Creates an invalid-output-range error.
    pub fn invalid_output_range(output_index: usize, range_len: usize, output_len: usize) -> (failure:
        Self)
        ensures
            failure == (Self::InvalidOutputRange {
                output_index,
                range_len,
                output_len,
            }),
    {
        TranscodeFailure::InvalidOutputRange { output_index, range_len, output_len }
    }

    /// Creates an insufficient-output error.
    pub fn insufficient_output(output_index: usize, required: usize, available: usize) -> (failure:
        Self)
        ensures
            failure == (Self::InsufficientOutput {
                output_index,
                required,
                available,
            }),
    {
        TranscodeFailure::InsufficientOutput { output_index, required, available }
    }

    /// Creates an output-length-overflow error.
    pub fn output_length_overflow() -> (failure: Self)
        ensures
            failure == Self::OutputLengthOverflow,
    {
        TranscodeFailure::OutputLengthOverflow
    }

    /// Creates an output-allocation failure.
    pub fn allocation_failed() -> (failure: Self)
        ensures
            failure == Self::AllocationFailed,
    {
        TranscodeFailure::AllocationFailed
    }

    /// Creates an incomplete-input error.
    pub fn incomplete_input(input_index: usize, required: usize, available: usize) -> (failure:
        Self)
        ensures
            failure == (Self::IncompleteInput { input_index, required, available }),
    {
        TranscodeFailure::IncompleteInput { input_index, required, available }
    }

    /// Creates an invalid-progress error.
    pub fn invalid_progress(source: TranscodeContractError) -> (failure: Self)
        ensures
            failure == (Self::InvalidProgress { source }),
    {
        TranscodeFailure::InvalidProgress { source }
    }

    /// Creates a trailing-input error.
    pub fn trailing_input(consumed: usize, remaining: usize) -> (failure: Self)
        ensures
            failure == (Self::TrailingInput { consumed, remaining }),
    {
        TranscodeFailure::TrailingInput { consumed, remaining }
    }

    /// Creates an unsupported decode-lifecycle-output error.
    pub fn unsupported_decode_lifecycle_output(reset_bound: usize, finish_bound: usize) -> (failure:
        Self)
        ensures
            failure == (Self::UnsupportedDecodeLifecycleOutput {
                reset_bound,
                finish_bound,
            }),
    {
        TranscodeFailure::UnsupportedDecodeLifecycleOutput { reset_bound, finish_bound }
    }

    /// Rejects lifecycle output for a strict single-value decode: succeeds
    /// exactly when both decode lifecycle output bounds of `C` are zero.
    pub(crate) fn ensure_no_decode_lifecycle_output<C: Codec>() -> (result: Result<(), Self>)
        ensures
            result == (if C::MAX_DECODE_RESET_VALUES != 0 || C::MAX_DECODE_FINISH_VALUES != 0 {
                Err(
                    Self::UnsupportedDecodeLifecycleOutput {
                        reset_bound: C::MAX_DECODE_RESET_VALUES,
                        finish_bound: C::MAX_DECODE_FINISH_VALUES,
                    },
                )
            } else {
                Ok(())
            }),
    {
        if C::MAX_DECODE_RESET_VALUES != 0 || C::MAX_DECODE_FINISH_VALUES != 0 {
            return Err(
                Self::unsupported_decode_lifecycle_output(
                    C::MAX_DECODE_RESET_VALUES,
                    C::MAX_DECODE_FINISH_VALUES,
                ),
            );
        }
        Ok(())
    }

    /// Validates that `input_index` is within an input slice.
    pub fn ensure_input_index(input_len: usize, input_index: usize) -> (result: Result<(), Self>)
        ensures
            result == input_index_check(input_len, input_index),
    {
        if input_index > input_len {
            return Err(Self::invalid_input_index(input_index, input_len));
        }
        Ok(())
    }

    /// Validates that at least `min_required` input units are available from
    /// `input_index`.
    pub fn ensure_min_input(input_len: usize, input_index: usize, min_required: usize) -> (result:
        Result<(), Self>)
        ensures
            result == min_input_check(input_len, input_index, min_required),
    {
        Self::ensure_input_index(input_len, input_index)?;
        let available = input_len - input_index;
        if available < min_required {
            return Err(Self::incomplete_input(input_index, min_required, available));
        }
        Ok(())
    }

    /// Validates a consumed input count and rejects trailing input.
    ///
    /// Returns `Ok(())` exactly when `consumed == input_len`.
    pub fn ensure_no_trailing_input(consumed: usize, input_len: usize) -> (result: Result<
        (),
        Self,
    >)
        ensures
            result == no_trailing_input_check(consumed, input_len),
    {
        Self::ensure_input_index(input_len, consumed)?;
        let remaining = input_len - consumed;
        if remaining != 0 {
            return Err(Self::trailing_input(consumed, remaining));
        }
        Ok(())
    }

    /// Validates that `output_index` is within an output slice.
    pub fn ensure_output_index(output_len: usize, output_index: usize) -> (result: Result<(), Self>)
        ensures
            result == output_index_check(output_len, output_index),
    {
        if output_index > output_len {
            return Err(Self::invalid_output_index(output_index, output_len));
        }
        Ok(())
    }

    /// Validates input and output start indices for a transcode call.
    pub fn ensure_transcode_indices(
        input_len: usize,
        input_index: usize,
        output_len: usize,
        output_index: usize,
    ) -> (result: Result<(), Self>)
        ensures
            result == transcode_indices_check(input_len, input_index, output_len, output_index),
    {
        Self::ensure_input_index(input_len, input_index)?;
        Self::ensure_output_index(output_len, output_index)
    }

    /// Validates that an output slice can hold `required` units from
    /// `output_index`.
    pub fn ensure_output_capacity(output_len: usize, output_index: usize, required: usize) -> (result:
        Result<(), Self>)
        ensures
            result == output_capacity_check(output_len, output_index, required),
    {
        Self::ensure_output_index(output_len, output_index)?;
        let available = output_len - output_index;
        if available < required {
            return Err(Self::insufficient_output(output_index, required, available));
        }
        Ok(())
    }

    /// Validates an indexed output range and its minimum writable capacity.
    pub fn ensure_output_range(
        output_len: usize,
        output_index: usize,
        range_len: usize,
        required: usize,
    ) -> (result: Result<(), Self>)
        ensures
            result == output_range_check(output_len, output_index, range_len, required),
    {
        Self::ensure_output_index(output_len, output_index)?;
        let available = output_len - output_index;
        if range_len > available {
            return Err(Self::invalid_output_range(output_index, range_len, output_len));
        }
        if range_len < required {
            return Err(Self::insufficient_output(output_index, required, range_len));
        }
        Ok(())
    }
}

/// Converts a capacity planning error into the framework failure it becomes.
pub fn capacity_failure(error: CapacityError) -> (failure: TranscodeFailure)
    ensures
        failure == TranscodeFailure::<()>::OutputLengthOverflow,
{
    match error {
        CapacityError::OutputLengthOverflow => TranscodeFailure::OutputLengthOverflow,
    }
}

impl From<CapacityError> for TranscodeFailure {
    /// Converts capacity planning errors into transcode framework failures.
    fn from(error: CapacityError) -> (failure: Self) {
        match error {
            CapacityError::OutputLengthOverflow => TranscodeFailure::OutputLengthOverflow,
        }
    }
}

impl vstd::std_specs::convert::FromSpecImpl<CapacityError> for TranscodeFailure {
    open spec fn obeys_from_spec() -> bool {
        true
    }

    open spec fn from_spec(error: CapacityError) -> Self {
        match error {
            CapacityError::OutputLengthOverflow => TranscodeFailure::OutputLengthOverflow,
        }
    }
}

impl From<TranscodeContractError> for TranscodeFailure {
    /// Converts a broken transcoder progress report into a framework failure.
    fn from(error: TranscodeContractError) -> (failure: Self) {
        TranscodeFailure::InvalidProgress { source: error }
    }
}

impl vstd::std_specs::convert::FromSpecImpl<TranscodeContractError> for TranscodeFailure {
    open spec fn obeys_from_spec() -> bool {
        true
    }

    open spec fn from_spec(error: TranscodeContractError) -> Self {
        TranscodeFailure::InvalidProgress { source: error }
    }
}

} // verus!
