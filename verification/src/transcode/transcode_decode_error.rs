//! Errors reported by transcode decoders.

use vstd::prelude::*;

use crate::codec::DecodeFailure;
use crate::num::NonZeroUsize;
use super::capacity_error::CapacityError;
use super::transcode_domain_error::{
    lemma_map_source_composition, lemma_map_source_identity, TranscodeDomainError,
};
use super::transcode_failure::{
    input_index_check, min_input_check, no_trailing_input_check, output_capacity_check,
    output_index_check, output_range_check, transcode_indices_check, TranscodeFailure,
};

verus! {

/// Error reported by a transcode decoder: a framework failure or a
/// phase-aware domain error of the source codec.
#[derive(Clone, Debug, PartialEq, Eq, Hash)]
pub enum TranscodeDecodeError<E> {
    /// Framework-level transcode failure.
    Failure(TranscodeFailure),
    /// Domain-specific codec, charset, or policy error.
    Domain(TranscodeDomainError<E>),
}

impl<E> TranscodeDecodeError<E> {
    /// Lifts the outcome of a framework check into this error type.
    pub open spec fn lift(check: Result<(), TranscodeFailure>) -> Result<(), Self> {
        match check {
            Ok(()) => Ok(()),
            Err(failure) => Err(TranscodeDecodeError::Failure(failure)),
        }
    }

    /// The error [`Self::from_decode_failure`] builds.
    pub open spec fn spec_from_decode_failure(
        failure: DecodeFailure<E>,
        input_index: usize,
        available: usize,
    ) -> Self {
        match failure {
            DecodeFailure::Incomplete { required_total } => TranscodeDecodeError::Failure(
                TranscodeFailure::IncompleteInput {
                    input_index,
                    required: required_total.spec_get(),
                    available,
                },
            ),
            DecodeFailure::Invalid { source, consumed } => TranscodeDecodeError::Domain(
                TranscodeDomainError::Main { source, input_index, input_consumed: consumed },
            ),
        }
    }

    /// Creates an invalid-input-index framework error.
    pub fn invalid_input_index(index: usize, input_len: usize) -> (error: Self)
        ensures
            error == TranscodeDecodeError::<E>::Failure(
                TranscodeFailure::InvalidInputIndex { index, input_len },
            ),
    {
        TranscodeDecodeError::Failure(TranscodeFailure::invalid_input_index(index, input_len))
    }

    /// Creates an invalid-output-index framework error.
    pub fn invalid_output_index(index: usize, output_len: usize) -> (error: Self)
        ensures
            error == TranscodeDecodeError::<E>::Failure(
                TranscodeFailure::InvalidOutputIndex { index, output_len },
            ),
    {
        TranscodeDecodeError::Failure(TranscodeFailure::invalid_output_index(index, output_len))
    }

    /// Creates an insufficient-output framework error.
    pub fn insufficient_output(output_index: usize, required: usize, available: usize) -> (error:
        Self)
        ensures
            error == TranscodeDecodeError::<E>::Failure(
                TranscodeFailure::InsufficientOutput { output_index, required, available },
            ),
    {
        TranscodeDecodeError::Failure(
            TranscodeFailure::insufficient_output(output_index, required, available),
        )
    }

    /// Creates an output-length-overflow framework error.
    pub fn output_length_overflow() -> (error: Self)
        ensures
            error == TranscodeDecodeError::<E>::Failure(TranscodeFailure::OutputLengthOverflow),
    {
        TranscodeDecodeError::Failure(TranscodeFailure::output_length_overflow())
    }

    /// Creates an incomplete-input framework error.
    pub fn incomplete_input(input_index: usize, required: usize, available: usize) -> (error: Self)
        ensures
            error == TranscodeDecodeError::<E>::Failure(
                TranscodeFailure::IncompleteInput { input_index, required, available },
            ),
    {
        TranscodeDecodeError::Failure(
            TranscodeFailure::incomplete_input(input_index, required, available),
        )
    }

    /// Creates a trailing-input framework error.
    pub fn trailing_input(consumed: usize, remaining: usize) -> (error: Self)
        ensures
            error == TranscodeDecodeError::<E>::Failure(
                TranscodeFailure::TrailingInput { consumed, remaining },
            ),
    {
        TranscodeDecodeError::Failure(TranscodeFailure::trailing_input(consumed, remaining))
    }

    /// Creates a reset-phase domain error.
    pub fn domain_reset(source: E) -> (error: Self)
        ensures
            error == TranscodeDecodeError::Domain(TranscodeDomainError::Reset { source }),
    {
        TranscodeDecodeError::Domain(TranscodeDomainError::reset(source))
    }

    /// Creates a main-phase domain error.
    pub fn domain_main(source: E, input_index: usize) -> (error: Self)
        ensures
            error == TranscodeDecodeError::Domain(
                TranscodeDomainError::Main { source, input_index, input_consumed: None },
            ),
    {
        TranscodeDecodeError::Domain(TranscodeDomainError::main(source, input_index))
    }

    /// Creates a main-phase domain error with decode consumption context.
    pub fn domain_main_with_consumed(
        source: E,
        input_index: usize,
        input_consumed: Option<NonZeroUsize>,
    ) -> (error: Self)
        ensures
            error == TranscodeDecodeError::Domain(
                TranscodeDomainError::Main { source, input_index, input_consumed },
            ),
    {
        TranscodeDecodeError::Domain(
            TranscodeDomainError::main_with_consumed(source, input_index, input_consumed),
        )
    }

    /// Creates a finish-phase domain error.
    pub fn domain_finish(source: E) -> (error: Self)
        ensures
            error == TranscodeDecodeError::Domain(TranscodeDomainError::Finish { source }),
    {
        TranscodeDecodeError::Domain(TranscodeDomainError::finish(source))
    }

    /// Converts a codec decode failure at `input_index` into a transcode
    /// error: an incomplete prefix becomes
    /// [`TranscodeFailure::IncompleteInput`] and invalid input a main-phase
    /// domain error.
    pub fn from_decode_failure(failure: DecodeFailure<E>, input_index: usize, available: usize) -> (error:
        Self)
        ensures
            error == Self::spec_from_decode_failure(failure, input_index, available),
    {
        match failure {
            DecodeFailure::Incomplete { required_total } => TranscodeDecodeError::Failure(
                TranscodeFailure::incomplete_input(input_index, required_total.get(), available),
            ),
            DecodeFailure::Invalid { source, consumed } => {
                Self::domain_main_with_consumed(source, input_index, consumed)
            },
        }
    }

    /// Returns whether this error wraps a domain error.
    pub fn is_domain(&self) -> (result: bool)
        ensures
            result == (*self is Domain),
    {
        match self {
            TranscodeDecodeError::Domain(_) => true,
            TranscodeDecodeError::Failure(_) => false,
        }
    }

    /// Returns the framework failure carried by this error.
    pub fn failure_ref(&self) -> (result: Option<&TranscodeFailure>)
        ensures
            match *self {
                TranscodeDecodeError::Failure(failure) => result == Some(&failure),
                TranscodeDecodeError::Domain(_) => result is None,
            },
    {
        match self {
            TranscodeDecodeError::Failure(failure) => Some(failure),
            TranscodeDecodeError::Domain(_) => None,
        }
    }

    /// Borrows the wrapped domain error and its transcode context.
    pub fn domain_error_ref(&self) -> (result: Option<&TranscodeDomainError<E>>)
        ensures
            match *self {
                TranscodeDecodeError::Domain(error) => result == Some(&error),
                TranscodeDecodeError::Failure(_) => result is None,
            },
    {
        match self {
            TranscodeDecodeError::Domain(error) => Some(error),
            TranscodeDecodeError::Failure(_) => None,
        }
    }

    /// Borrows the wrapped domain source error.
    pub fn domain_ref(&self) -> (result: Option<&E>)
        ensures
            match *self {
                TranscodeDecodeError::Domain(error) => result == Some(&error.spec_source()),
                TranscodeDecodeError::Failure(_) => result is None,
            },
    {
        match self {
            TranscodeDecodeError::Domain(error) => Some(error.source()),
            TranscodeDecodeError::Failure(_) => None,
        }
    }

    /// This error with the source of a domain error replaced by `g` of it;
    /// framework failures are kept.
    pub open spec fn spec_map_domain<T>(self, g: spec_fn(E) -> T) -> TranscodeDecodeError<T> {
        match self {
            TranscodeDecodeError::Failure(failure) => TranscodeDecodeError::Failure(failure),
            TranscodeDecodeError::Domain(error) => TranscodeDecodeError::Domain(
                error.spec_map_source(g),
            ),
        }
    }

    /// Maps the wrapped domain error while preserving framework failures.
    pub fn map_domain<F, T>(self, f: F) -> (mapped: TranscodeDecodeError<T>) where
        F: FnOnce(E) -> T,

        requires
            self matches TranscodeDecodeError::Domain(error) ==> f.requires((error.spec_source(),)),
        ensures
            match self {
                TranscodeDecodeError::Failure(failure) => mapped == TranscodeDecodeError::<
                    T,
                >::Failure(failure),
                TranscodeDecodeError::Domain(error) => mapped matches TranscodeDecodeError::Domain(
                    m,
                ) && f.ensures((error.spec_source(),), m.spec_source()) && error.same_context(m),
            },
    {
        match self {
            TranscodeDecodeError::Failure(failure) => TranscodeDecodeError::Failure(failure),
            TranscodeDecodeError::Domain(error) => TranscodeDecodeError::Domain(error.map_source(f)),
        }
    }

    /// Validates that `input_index` is within an input slice.
    pub fn ensure_input_index(input_len: usize, input_index: usize) -> (result: Result<(), Self>)
        ensures
            result == Self::lift(input_index_check(input_len, input_index)),
    {
        match TranscodeFailure::ensure_input_index(input_len, input_index) {
            Ok(()) => Ok(()),
            Err(failure) => Err(TranscodeDecodeError::Failure(failure)),
        }
    }

    /// Validates that at least `required` input units are available from
    /// `input_index`.
    pub fn ensure_min_input(input_len: usize, input_index: usize, required: usize) -> (result:
        Result<(), Self>)
        ensures
            result == Self::lift(min_input_check(input_len, input_index, required)),
    {
        match TranscodeFailure::ensure_min_input(input_len, input_index, required) {
            Ok(()) => Ok(()),
            Err(failure) => Err(TranscodeDecodeError::Failure(failure)),
        }
    }

    /// Validates a consumed count and rejects trailing input.
    pub fn ensure_no_trailing_input(consumed: usize, input_len: usize) -> (result: Result<(), Self>)
        ensures
            result == Self::lift(no_trailing_input_check(consumed, input_len)),
    {
        match TranscodeFailure::ensure_no_trailing_input(consumed, input_len) {
            Ok(()) => Ok(()),
            Err(failure) => Err(TranscodeDecodeError::Failure(failure)),
        }
    }

    /// Validates that `output_index` is within an output slice.
    pub fn ensure_output_index(output_len: usize, output_index: usize) -> (result: Result<(), Self>)
        ensures
            result == Self::lift(output_index_check(output_len, output_index)),
    {
        match TranscodeFailure::ensure_output_index(output_len, output_index) {
            Ok(()) => Ok(()),
            Err(failure) => Err(TranscodeDecodeError::Failure(failure)),
        }
    }

    /// Validates input and output start indices for a transcode call.
    pub fn ensure_transcode_indices(
        input_len: usize,
        input_index: usize,
        output_len: usize,
        output_index: usize,
    ) -> (result: Result<(), Self>)
        ensures
            result == Self::lift(
                transcode_indices_check(input_len, input_index, output_len, output_index),
            ),
    {
        match TranscodeFailure::ensure_transcode_indices(
            input_len,
            input_index,
            output_len,
            output_index,
        ) {
            Ok(()) => Ok(()),
            Err(failure) => Err(TranscodeDecodeError::Failure(failure)),
        }
    }

    /// Validates that an output slice can hold `required` units from
    /// `output_index`.
    pub fn ensure_output_capacity(output_len: usize, output_index: usize, required: usize) -> (result:
        Result<(), Self>)
        ensures
            result == Self::lift(output_capacity_check(output_len, output_index, required)),
    {
        match TranscodeFailure::ensure_output_capacity(output_len, output_index, required) {
            Ok(()) => Ok(()),
            Err(failure) => Err(TranscodeDecodeError::Failure(failure)),
        }
    }

    /// Validates an indexed output range and its minimum writable capacity.
    pub fn ensure_output_range(
        output_len: usize,
        output_index: usize,
        available: usize,
        required: usize,
    ) -> (result: Result<(), Self>)
        ensures
            result == Self::lift(output_range_check(output_len, output_index, available, required)),
    {
        match TranscodeFailure::ensure_output_range(output_len, output_index, available, required) {
            Ok(()) => Ok(()),
            Err(failure) => Err(TranscodeDecodeError::Failure(failure)),
        }
    }
}

impl<E> From<TranscodeFailure> for TranscodeDecodeError<E> {
    fn from(failure: TranscodeFailure) -> (error: Self) {
        TranscodeDecodeError::Failure(failure)
    }
}

impl<E> vstd::std_specs::convert::FromSpecImpl<TranscodeFailure> for TranscodeDecodeError<E> {
    open spec fn obeys_from_spec() -> bool {
        true
    }

    open spec fn from_spec(failure: TranscodeFailure) -> Self {
        TranscodeDecodeError::Failure(failure)
    }
}

impl<E> From<TranscodeDomainError<E>> for TranscodeDecodeError<E> {
    fn from(error: TranscodeDomainError<E>) -> (result: Self) {
        TranscodeDecodeError::Domain(error)
    }
}

impl<E> vstd::std_specs::convert::FromSpecImpl<TranscodeDomainError<E>> for TranscodeDecodeError<E> {
    open spec fn obeys_from_spec() -> bool {
        true
    }

    open spec fn from_spec(error: TranscodeDomainError<E>) -> Self {
        TranscodeDecodeError::Domain(error)
    }
}

impl<E> From<CapacityError> for TranscodeDecodeError<E> {
    fn from(error: CapacityError) -> (result: Self) {
        match error {
            CapacityError::OutputLengthOverflow => TranscodeDecodeError::Failure(
                TranscodeFailure::OutputLengthOverflow,
            ),
        }
    }
}

impl<E> vstd::std_specs::convert::FromSpecImpl<CapacityError> for TranscodeDecodeError<E> {
    open spec fn obeys_from_spec() -> bool {
        true
    }

    open spec fn from_spec(error: CapacityError) -> Self {
        match error {
            CapacityError::OutputLengthOverflow => TranscodeDecodeError::Failure(
                TranscodeFailure::OutputLengthOverflow,
            ),
        }
    }
}

/// Mapping the domain error with the identity gives the error back.
pub proof fn lemma_decode_map_domain_identity<E>(error: TranscodeDecodeError<E>)
    ensures
        error.spec_map_domain(|source: E| source) == error,
{
    if let TranscodeDecodeError::Domain(domain) = error {
        lemma_map_source_identity(domain);
    }
}

/// Mapping the domain error with `f` and then with `g` is mapping it once
/// with `g` after `f`.
pub proof fn lemma_decode_map_domain_composition<E, T, U>(
    error: TranscodeDecodeError<E>,
    f: spec_fn(E) -> T,
    g: spec_fn(T) -> U,
)
    ensures
        error.spec_map_domain(f).spec_map_domain(g) == error.spec_map_domain(
            |source: E| g(f(source)),
        ),
{
    if let TranscodeDecodeError::Domain(domain) = error {
        lemma_map_source_composition(domain, f, g);
    }
}

} // verus!
