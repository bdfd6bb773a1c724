//! Errors reported by transcode converters.

use vstd::prelude::*;

use crate::num::NonZeroUsize;
use super::capacity_error::CapacityError;
use super::transcode_decode_error::TranscodeDecodeError;
use super::transcode_domain_error::TranscodeDomainError;
use super::transcode_encode_error::TranscodeEncodeError;
use super::transcode_failure::{
    output_capacity_check, output_index_check, transcode_indices_check, TranscodeFailure,
};

verus! {

/// Error reported by a unit-to-unit transcode conversion.
#[derive(Clone, Debug, PartialEq, Eq, Hash)]
pub enum TranscodeConvertError<DE, EE, V> {
    /// Framework-level transcode failure.
    Failure(TranscodeFailure),
    /// Source-side domain error.
    DecodeDomain(TranscodeDomainError<DE>),
    /// Target-side domain error.
    EncodeDomain(TranscodeDomainError<EE>),
    /// The decoded intermediate value cannot be encoded by the target codec and
    /// policy.
    Unencodable {
        /// Absolute source input index of the value being encoded.
        input_index: usize,
        /// Decoded intermediate value, when available.
        value: Option<V>,
    },
}

impl<DE, EE, V> TranscodeConvertError<DE, EE, V> {
    /// Lifts the outcome of a framework check into this error type.
    pub open spec fn lift(check: Result<(), TranscodeFailure>) -> Result<(), Self> {
        match check {
            Ok(()) => Ok(()),
            Err(failure) => Err(TranscodeConvertError::Failure(failure)),
        }
    }

    /// The converter error that a target-side encode error becomes.
    pub open spec fn spec_from_encode_error(error: TranscodeEncodeError<EE, V>) -> Self {
        match error {
            TranscodeEncodeError::Failure(failure) => TranscodeConvertError::Failure(failure),
            TranscodeEncodeError::Unencodable { input_index, value } => {
                TranscodeConvertError::Unencodable { input_index, value }
            },
            TranscodeEncodeError::Domain(error) => TranscodeConvertError::EncodeDomain(error),
        }
    }

    /// The converter error that a source-side decode error becomes.
    pub open spec fn spec_from_decode_error(error: TranscodeDecodeError<DE>) -> Self {
        match error {
            TranscodeDecodeError::Failure(failure) => TranscodeConvertError::Failure(failure),
            TranscodeDecodeError::Domain(error) => TranscodeConvertError::DecodeDomain(error),
        }
    }

    /// Creates an invalid-input-index framework error.
    pub fn invalid_input_index(index: usize, input_len: usize) -> (error: Self)
        ensures
            error == (TranscodeConvertError::<DE, EE, V>::Failure(TranscodeFailure::InvalidInputIndex { index, input_len })),
    {
        TranscodeConvertError::Failure(TranscodeFailure::invalid_input_index(index, input_len))
    }

    /// Creates an invalid-output-index framework error.
    pub fn invalid_output_index(index: usize, output_len: usize) -> (error: Self)
        ensures
            error == (TranscodeConvertError::<DE, EE, V>::Failure(TranscodeFailure::InvalidOutputIndex { index, output_len })),
    {
        TranscodeConvertError::Failure(TranscodeFailure::invalid_output_index(index, output_len))
    }

    /// Creates an insufficient-output framework error.
    pub fn insufficient_output(output_index: usize, required: usize, available: usize) -> (error:
        Self)
        ensures
            error == (TranscodeConvertError::<DE, EE, V>::Failure(TranscodeFailure::InsufficientOutput { output_index, required, available })),
    {
        TranscodeConvertError::Failure(
            TranscodeFailure::insufficient_output(output_index, required, available),
        )
    }

    /// Creates an output-length-overflow framework error.
    pub fn output_length_overflow() -> (error: Self)
        ensures
            error == (TranscodeConvertError::<DE, EE, V>::Failure(TranscodeFailure::OutputLengthOverflow)),
    {
        TranscodeConvertError::Failure(TranscodeFailure::output_length_overflow())
    }

    /// Creates an incomplete-input framework error.
    pub fn incomplete_input(input_index: usize, required: usize, available: usize) -> (error: Self)
        ensures
            error == (TranscodeConvertError::<DE, EE, V>::Failure(TranscodeFailure::IncompleteInput { input_index, required, available })),
    {
        TranscodeConvertError::Failure(
            TranscodeFailure::incomplete_input(input_index, required, available),
        )
    }

    /// Creates a trailing-input framework error.
    pub fn trailing_input(consumed: usize, remaining: usize) -> (error: Self)
        ensures
            error == (TranscodeConvertError::<DE, EE, V>::Failure(TranscodeFailure::TrailingInput { consumed, remaining })),
    {
        TranscodeConvertError::Failure(TranscodeFailure::trailing_input(consumed, remaining))
    }

    /// Creates a source reset-phase domain error.
    pub fn decode_domain_reset(source: DE) -> (error: Self)
        ensures
            error == (TranscodeConvertError::<DE, EE, V>::DecodeDomain(TranscodeDomainError::Reset { source })),
    {
        TranscodeConvertError::DecodeDomain(TranscodeDomainError::reset(source))
    }

    /// Creates a source main-phase domain error.
    pub fn decode_domain_main(source: DE, input_index: usize) -> (error: Self)
        ensures
            error == (TranscodeConvertError::<DE, EE, V>::DecodeDomain(TranscodeDomainError::Main { source, input_index, input_consumed: None })),
    {
        TranscodeConvertError::DecodeDomain(TranscodeDomainError::main(source, input_index))
    }

    /// Creates a source main-phase domain error with decode consumption
    /// context.
    pub fn decode_domain_main_with_consumed(
        source: DE,
        input_index: usize,
        input_consumed: Option<NonZeroUsize>,
    ) -> (error: Self)
        ensures
            error == (TranscodeConvertError::<DE, EE, V>::DecodeDomain(TranscodeDomainError::Main { source, input_index, input_consumed })),
    {
        TranscodeConvertError::DecodeDomain(
            TranscodeDomainError::main_with_consumed(source, input_index, input_consumed),
        )
    }

    /// Creates a source finish-phase domain error.
    pub fn decode_domain_finish(source: DE) -> (error: Self)
        ensures
            error == (TranscodeConvertError::<DE, EE, V>::DecodeDomain(TranscodeDomainError::Finish { source })),
    {
        TranscodeConvertError::DecodeDomain(TranscodeDomainError::finish(source))
    }

    /// Creates a target reset-phase domain error.
    pub fn encode_domain_reset(source: EE) -> (error: Self)
        ensures
            error == (TranscodeConvertError::<DE, EE, V>::EncodeDomain(TranscodeDomainError::Reset { source })),
    {
        TranscodeConvertError::EncodeDomain(TranscodeDomainError::reset(source))
    }

    /// Creates a target main-phase domain error.
    pub fn encode_domain_main(source: EE, input_index: usize) -> (error: Self)
        ensures
            error == (TranscodeConvertError::<DE, EE, V>::EncodeDomain(TranscodeDomainError::Main { source, input_index, input_consumed: None })),
    {
        TranscodeConvertError::EncodeDomain(TranscodeDomainError::main(source, input_index))
    }

    /// Creates a target finish-phase domain error.
    pub fn encode_domain_finish(source: EE) -> (error: Self)
        ensures
            error == (TranscodeConvertError::<DE, EE, V>::EncodeDomain(TranscodeDomainError::Finish { source })),
    {
        TranscodeConvertError::EncodeDomain(TranscodeDomainError::finish(source))
    }

    /// Creates an unencodable intermediate-value error with value context.
    pub fn unencodable(input_index: usize, value: V) -> (error: Self)
        ensures
            error == (TranscodeConvertError::<DE, EE, V>::Unencodable { input_index, value: Some(value) }),
    {
        TranscodeConvertError::Unencodable { input_index, value: Some(value) }
    }

    /// Creates an unencodable intermediate-value error without value context.
    pub fn unencodable_without_context(input_index: usize) -> (error: Self)
        ensures
            error == (TranscodeConvertError::<DE, EE, V>::Unencodable { input_index, value: None }),
    {
        TranscodeConvertError::Unencodable { input_index, value: None }
    }

    /// Returns the framework failure carried by this error.
    pub fn failure_ref(&self) -> (result: Option<&TranscodeFailure>)
        ensures
            match *self {
                TranscodeConvertError::Failure(failure) => result == Some(&failure),
                _ => result is None,
            },
    {
        match self {
            TranscodeConvertError::Failure(failure) => Some(failure),
            _ => None,
        }
    }

    /// Borrows the unencodable-value context carried by this error.
    pub fn unencodable_ref(&self) -> (result: Option<(usize, Option<&V>)>)
        ensures
            match *self {
                TranscodeConvertError::Unencodable { input_index, value } => result matches Some(
                    (i, v),
                ) && i == input_index && (match value {
                    Some(x) => v == Some(&x),
                    None => v is None,
                }),
                _ => result is None,
            },
    {
        match self {
            TranscodeConvertError::Unencodable { input_index, value } => {
                let borrowed = match value {
                    Some(x) => Some(x),
                    None => None,
                };
                Some((*input_index, borrowed))
            },
            _ => None,
        }
    }

    /// Maps the source domain error while preserving other errors.
    pub fn map_decode_domain<F, T>(self, f: F) -> (mapped: TranscodeConvertError<T, EE, V>) where
        F: FnOnce(DE) -> T,

        requires
            self matches TranscodeConvertError::DecodeDomain(error) ==> f.requires(
                (error.spec_source(),),
            ),
        ensures
            match self {
                TranscodeConvertError::Failure(failure) => mapped == TranscodeConvertError::<
                    T,
                    EE,
                    V,
                >::Failure(failure),
                TranscodeConvertError::DecodeDomain(error) => mapped matches TranscodeConvertError::DecodeDomain(
                    m,
                ) && f.ensures((error.spec_source(),), m.spec_source()) && (error is Reset
                    <==> m is Reset) && (error is Finish <==> m is Finish) && (
                error matches TranscodeDomainError::Main { input_index, input_consumed, .. }
                    ==> m matches TranscodeDomainError::Main {
                    input_index: i,
                    input_consumed: c,
                    ..
                } && i == input_index && c == input_consumed),
                TranscodeConvertError::EncodeDomain(error) => mapped == TranscodeConvertError::<
                    T,
                    EE,
                    V,
                >::EncodeDomain(error),
                TranscodeConvertError::Unencodable { input_index, value } => mapped
                    == TranscodeConvertError::<T, EE, V>::Unencodable { input_index, value },
            },
    {
        match self {
            TranscodeConvertError::Failure(failure) => TranscodeConvertError::Failure(failure),
            TranscodeConvertError::DecodeDomain(error) => TranscodeConvertError::DecodeDomain(
                error.map_source(f),
            ),
            TranscodeConvertError::EncodeDomain(error) => TranscodeConvertError::EncodeDomain(error),
            TranscodeConvertError::Unencodable { input_index, value } => {
                TranscodeConvertError::Unencodable { input_index, value }
            },
        }
    }

    /// Maps the target domain error while preserving other errors.
    pub fn map_encode_domain<F, T>(self, f: F) -> (mapped: TranscodeConvertError<DE, T, V>) where
        F: FnOnce(EE) -> T,

        requires
            self matches TranscodeConvertError::EncodeDomain(error) ==> f.requires(
                (error.spec_source(),),
            ),
        ensures
            match self {
                TranscodeConvertError::Failure(failure) => mapped == TranscodeConvertError::<
                    DE,
                    T,
                    V,
                >::Failure(failure),
                TranscodeConvertError::DecodeDomain(error) => mapped == TranscodeConvertError::<
                    DE,
                    T,
                    V,
                >::DecodeDomain(error),
                TranscodeConvertError::EncodeDomain(error) => mapped matches TranscodeConvertError::EncodeDomain(
                    m,
                ) && f.ensures((error.spec_source(),), m.spec_source()) && (error is Reset
                    <==> m is Reset) && (error is Finish <==> m is Finish) && (
                error matches TranscodeDomainError::Main { input_index, input_consumed, .. }
                    ==> m matches TranscodeDomainError::Main {
                    input_index: i,
                    input_consumed: c,
                    ..
                } && i == input_index && c == input_consumed),
                TranscodeConvertError::Unencodable { input_index, value } => mapped
                    == TranscodeConvertError::<DE, T, V>::Unencodable { input_index, value },
            },
    {
        match self {
            TranscodeConvertError::Failure(failure) => TranscodeConvertError::Failure(failure),
            TranscodeConvertError::DecodeDomain(error) => TranscodeConvertError::DecodeDomain(error),
            TranscodeConvertError::EncodeDomain(error) => TranscodeConvertError::EncodeDomain(
                error.map_source(f),
            ),
            TranscodeConvertError::Unencodable { input_index, value } => {
                TranscodeConvertError::Unencodable { input_index, value }
            },
        }
    }

    /// Maps the value carried by unencodable-value errors.
    pub fn map_value<F, W>(self, f: F) -> (mapped: TranscodeConvertError<DE, EE, W>) where
        F: FnOnce(V) -> W,

        requires
            self matches TranscodeConvertError::Unencodable { value: Some(v), .. } ==> f.requires(
                (v,),
            ),
        ensures
            match self {
                TranscodeConvertError::Failure(failure) => mapped == TranscodeConvertError::<
                    DE,
                    EE,
                    W,
                >::Failure(failure),
                TranscodeConvertError::DecodeDomain(error) => mapped == TranscodeConvertError::<
                    DE,
                    EE,
                    W,
                >::DecodeDomain(error),
                TranscodeConvertError::EncodeDomain(error) => mapped == TranscodeConvertError::<
                    DE,
                    EE,
                    W,
                >::EncodeDomain(error),
                TranscodeConvertError::Unencodable { input_index, value } => mapped matches TranscodeConvertError::Unencodable {
                    input_index: i,
                    value: w,
                } && i == input_index && (match value {
                    Some(v) => w matches Some(x) && f.ensures((v,), x),
                    None => w is None,
                }),
            },
    {
        match self {
            TranscodeConvertError::Failure(failure) => TranscodeConvertError::Failure(failure),
            TranscodeConvertError::DecodeDomain(error) => TranscodeConvertError::DecodeDomain(error),
            TranscodeConvertError::EncodeDomain(error) => TranscodeConvertError::EncodeDomain(error),
            TranscodeConvertError::Unencodable { input_index, value } => {
                let mapped_value = match value {
                    Some(v) => Some(f(v)),
                    None => None,
                };
                TranscodeConvertError::Unencodable { input_index, value: mapped_value }
            },
        }
    }

    /// Converts an encode error into a converter error, filling in
    /// `fallback_value` for unencodable errors that carry no value.
    pub fn from_encode_error_with_value(error: TranscodeEncodeError<EE, V>, fallback_value: V) -> (result:
        Self)
        ensures
            result == (match error {
                TranscodeEncodeError::Unencodable { input_index, value: None } => {
                    TranscodeConvertError::Unencodable { input_index, value: Some(fallback_value) }
                },
                _ => Self::spec_from_encode_error(error),
            }),
    {
        match error {
            TranscodeEncodeError::Unencodable { input_index, value: None } => {
                TranscodeConvertError::Unencodable { input_index, value: Some(fallback_value) }
            },
            other => Self::from(other),
        }
    }

    /// Validates that `output_index` is within an output slice.
    pub fn ensure_output_index(output_len: usize, output_index: usize) -> (result: Result<(), Self>)
        ensures
            result == Self::lift(output_index_check(output_len, output_index)),
    {
        match TranscodeFailure::ensure_output_index(output_len, output_index) {
            Ok(()) => Ok(()),
            Err(failure) => Err(TranscodeConvertError::Failure(failure)),
        }
    }

    /// Validates input and output start indices for a transcode call.
    pub fn ensure_transcode_indices(
        input_len: usize,
        input_index: usize,
        output_len: usize,
        output_index: usize,
    ) -> (result: Result<(), Self>)
        ensures
            result == Self::lift(
                transcode_indices_check(input_len, input_index, output_len, output_index),
            ),
    {
        match TranscodeFailure::ensure_transcode_indices(
            input_len,
            input_index,
            output_len,
            output_index,
        ) {
            Ok(()) => Ok(()),
            Err(failure) => Err(TranscodeConvertError::Failure(failure)),
        }
    }

    /// Validates that an output slice can hold `required` units from
    /// `output_index`.
    pub fn ensure_output_capacity(output_len: usize, output_index: usize, required: usize) -> (result:
        Result<(), Self>)
        ensures
            result == Self::lift(output_capacity_check(output_len, output_index, required)),
    {
        match TranscodeFailure::ensure_output_capacity(output_len, output_index, required) {
            Ok(()) => Ok(()),
            Err(failure) => Err(TranscodeConvertError::Failure(failure)),
        }
    }
}

impl<DE, EE, V> From<TranscodeDecodeError<DE>> for TranscodeConvertError<DE, EE, V> {
    /// Converts a source-side decode error into a converter error.
    fn from(error: TranscodeDecodeError<DE>) -> (result: Self) {
        match error {
            TranscodeDecodeError::Failure(failure) => TranscodeConvertError::Failure(failure),
            TranscodeDecodeError::Domain(error) => TranscodeConvertError::DecodeDomain(error),
        }
    }
}

impl<DE, EE, V> vstd::std_specs::convert::FromSpecImpl<TranscodeDecodeError<DE>> for TranscodeConvertError<DE, EE, V> {
    open spec fn obeys_from_spec() -> bool {
        true
    }

    open spec fn from_spec(error: TranscodeDecodeError<DE>) -> Self {
        Self::spec_from_decode_error(error)
    }
}

impl<DE, EE, V> From<TranscodeEncodeError<EE, V>> for TranscodeConvertError<DE, EE, V> {
    /// Converts a target-side encode error into a converter error.
    fn from(error: TranscodeEncodeError<EE, V>) -> (result: Self) {
        match error {
            TranscodeEncodeError::Failure(failure) => TranscodeConvertError::Failure(failure),
            TranscodeEncodeError::Unencodable { input_index, value } => {
                TranscodeConvertError::Unencodable { input_index, value }
            },
            TranscodeEncodeError::Domain(error) => TranscodeConvertError::EncodeDomain(error),
        }
    }
}

impl<DE, EE, V> vstd::std_specs::convert::FromSpecImpl<TranscodeEncodeError<EE, V>> for TranscodeConvertError<DE, EE, V> {
    open spec fn obeys_from_spec() -> bool {
        true
    }

    open spec fn from_spec(error: TranscodeEncodeError<EE, V>) -> Self {
        Self::spec_from_encode_error(error)
    }
}

impl<DE, EE, V> From<TranscodeFailure> for TranscodeConvertError<DE, EE, V> {
    fn from(failure: TranscodeFailure) -> (result: Self) {
        TranscodeConvertError::Failure(failure)
    }
}

impl<DE, EE, V> vstd::std_specs::convert::FromSpecImpl<TranscodeFailure> for TranscodeConvertError<DE, EE, V> {
    open spec fn obeys_from_spec() -> bool {
        true
    }

    open spec fn from_spec(failure: TranscodeFailure) -> Self {
        TranscodeConvertError::Failure(failure)
    }
}

impl<DE, EE, V> From<CapacityError> for TranscodeConvertError<DE, EE, V> {
    /// Converts capacity planning errors into transcode framework errors.
    fn from(error: CapacityError) -> (result: Self) {
        match error {
            CapacityError::OutputLengthOverflow => TranscodeConvertError::Failure(
                TranscodeFailure::OutputLengthOverflow,
            ),
        }
    }
}

impl<DE, EE, V> vstd::std_specs::convert::FromSpecImpl<CapacityError> for TranscodeConvertError<DE, EE, V> {
    open spec fn obeys_from_spec() -> bool {
        true
    }

    open spec fn from_spec(error: CapacityError) -> Self {
        match error {
            CapacityError::OutputLengthOverflow => TranscodeConvertError::Failure(
                TranscodeFailure::OutputLengthOverflow,
            ),
        }
    }
}

} // verus!
