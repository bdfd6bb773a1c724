//! Errors reported by transcode encoders.

use vstd::prelude::*;

use super::capacity_error::CapacityError;
use super::transcode_domain_error::{
    lemma_map_source_composition, lemma_map_source_identity, TranscodeDomainError,
};
use super::transcode_error::IoErrorClass;
use super::transcode_failure::{
    output_capacity_check, output_index_check, transcode_indices_check, TranscodeFailure,
};

verus! {

/// Error reported by a transcode encoder: a framework failure, a value the
/// target cannot encode, or a phase-aware domain error of the target codec.
#[derive(Clone, Debug, PartialEq, Eq, Hash)]
pub enum TranscodeEncodeError<E, V> {
    /// Framework-level transcode failure.
    Failure(TranscodeFailure),
    /// The value at `input_index` cannot be encoded.
    Unencodable {
        /// Absolute input index of the value.
        input_index: usize,
        /// The value, when available.
        value: Option<V>,
    },
    /// Domain-specific codec, charset, or policy error.
    Domain(TranscodeDomainError<E>),
}

impl<E, V> TranscodeEncodeError<E, V> {
    /// The I/O error a one-value write reports: domain errors go through the
    /// caller's mapper; an unencodable value and a framework failure (an
    /// output bound overflow) are both invalid input.
    pub fn value_io_error_class(&self) -> (class: IoErrorClass)
        ensures
            class == (match *self {
                TranscodeEncodeError::Domain(_) => IoErrorClass::Domain,
                _ => IoErrorClass::InvalidInput,
            }),
    {
        match self {
            TranscodeEncodeError::Domain(_) => IoErrorClass::Domain,
            _ => IoErrorClass::InvalidInput,
        }
    }

    /// Lifts the outcome of a framework check into this error type.
    pub open spec fn lift(check: Result<(), TranscodeFailure>) -> Result<(), Self> {
        match check {
            Ok(()) => Ok(()),
            Err(failure) => Err(TranscodeEncodeError::Failure(failure)),
        }
    }

    /// Creates an invalid-input-index framework error.
    pub fn invalid_input_index(index: usize, input_len: usize) -> (error: Self)
        ensures
            error == (TranscodeEncodeError::<E, V>::Failure(TranscodeFailure::InvalidInputIndex { index, input_len })),
    {
        TranscodeEncodeError::Failure(TranscodeFailure::invalid_input_index(index, input_len))
    }

    /// Creates an invalid-output-index framework error.
    pub fn invalid_output_index(index: usize, output_len: usize) -> (error: Self)
        ensures
            error == (TranscodeEncodeError::<E, V>::Failure(TranscodeFailure::InvalidOutputIndex { index, output_len })),
    {
        TranscodeEncodeError::Failure(TranscodeFailure::invalid_output_index(index, output_len))
    }

    /// Creates an insufficient-output framework error.
    pub fn insufficient_output(output_index: usize, required: usize, available: usize) -> (error:
        Self)
        ensures
            error == (TranscodeEncodeError::<E, V>::Failure(TranscodeFailure::InsufficientOutput { output_index, required, available })),
    {
        TranscodeEncodeError::Failure(
            TranscodeFailure::insufficient_output(output_index, required, available),
        )
    }

    /// Creates an output-length-overflow framework error.
    pub fn output_length_overflow() -> (error: Self)
        ensures
            error == (TranscodeEncodeError::<E, V>::Failure(TranscodeFailure::OutputLengthOverflow)),
    {
        TranscodeEncodeError::Failure(TranscodeFailure::output_length_overflow())
    }

    /// Creates an incomplete-input framework error.
    pub fn incomplete_input(input_index: usize, required: usize, available: usize) -> (error: Self)
        ensures
            error == (TranscodeEncodeError::<E, V>::Failure(TranscodeFailure::IncompleteInput { input_index, required, available })),
    {
        TranscodeEncodeError::Failure(
            TranscodeFailure::incomplete_input(input_index, required, available),
        )
    }

    /// Creates a trailing-input framework error.
    pub fn trailing_input(consumed: usize, remaining: usize) -> (error: Self)
        ensures
            error == (TranscodeEncodeError::<E, V>::Failure(TranscodeFailure::TrailingInput { consumed, remaining })),
    {
        TranscodeEncodeError::Failure(TranscodeFailure::trailing_input(consumed, remaining))
    }

    /// Creates a reset-phase domain error.
    pub fn domain_reset(source: E) -> (error: Self)
        ensures
            error == (TranscodeEncodeError::<E, V>::Domain(TranscodeDomainError::Reset { source })),
    {
        TranscodeEncodeError::Domain(TranscodeDomainError::reset(source))
    }

    /// Creates a main-phase domain error.
    pub fn domain_main(source: E, input_index: usize) -> (error: Self)
        ensures
            error == (TranscodeEncodeError::<E, V>::Domain(TranscodeDomainError::Main { source, input_index, input_consumed: None })),
    {
        TranscodeEncodeError::Domain(TranscodeDomainError::main(source, input_index))
    }

    /// Creates a finish-phase domain error.
    pub fn domain_finish(source: E) -> (error: Self)
        ensures
            error == (TranscodeEncodeError::<E, V>::Domain(TranscodeDomainError::Finish { source })),
    {
        TranscodeEncodeError::Domain(TranscodeDomainError::finish(source))
    }

    /// Creates an unencodable-value error with value context.
    pub fn unencodable(input_index: usize, value: V) -> (error: Self)
        ensures
            error == (TranscodeEncodeError::<E, V>::Unencodable { input_index, value: Some(value) }),
    {
        TranscodeEncodeError::Unencodable { input_index, value: Some(value) }
    }

    /// Creates an unencodable-value error without value context.
    pub fn unencodable_without_context(input_index: usize) -> (error: Self)
        ensures
            error == (TranscodeEncodeError::<E, V>::Unencodable { input_index, value: None }),
    {
        TranscodeEncodeError::Unencodable { input_index, value: None }
    }

    /// Returns whether this error wraps a domain error.
    pub fn is_domain(&self) -> (result: bool)
        ensures
            result == (*self is Domain),
    {
        match self {
            TranscodeEncodeError::Domain(_) => true,
            _ => false,
        }
    }

    /// Returns the framework failure carried by this error.
    pub fn failure_ref(&self) -> (result: Option<&TranscodeFailure>)
        ensures
            match *self {
                TranscodeEncodeError::Failure(failure) => result == Some(&failure),
                _ => result is None,
            },
    {
        match self {
            TranscodeEncodeError::Failure(failure) => Some(failure),
            _ => None,
        }
    }

    /// Borrows the wrapped domain error and its transcode context.
    pub fn domain_error_ref(&self) -> (result: Option<&TranscodeDomainError<E>>)
        ensures
            match *self {
                TranscodeEncodeError::Domain(error) => result == Some(&error),
                _ => result is None,
            },
    {
        match self {
            TranscodeEncodeError::Domain(error) => Some(error),
            _ => None,
        }
    }

    /// Borrows the wrapped domain source error.
    pub fn domain_ref(&self) -> (result: Option<&E>)
        ensures
            match *self {
                TranscodeEncodeError::Domain(error) => result == Some(&error.spec_source()),
                _ => result is None,
            },
    {
        match self {
            TranscodeEncodeError::Domain(error) => Some(error.source()),
            _ => None,
        }
    }

    /// Borrows the unencodable-value context carried by this error.
    pub fn unencodable_ref(&self) -> (result: Option<(usize, Option<&V>)>)
        ensures
            match *self {
                TranscodeEncodeError::Unencodable { input_index, value } => result matches Some(
                    (i, v),
                ) && i == input_index && (match value {
                    Some(x) => v == Some(&x),
                    None => v is None,
                }),
                _ => result is None,
            },
    {
        match self {
            TranscodeEncodeError::Unencodable { input_index, value } => {
                let borrowed = match value {
                    Some(x) => Some(x),
                    None => None,
                };
                Some((*input_index, borrowed))
            },
            _ => None,
        }
    }

    /// This error with the source of a domain error replaced by `g` of it;
    /// every other error is kept.
    pub open spec fn spec_map_domain<T>(self, g: spec_fn(E) -> T) -> TranscodeEncodeError<T, V> {
        match self {
            TranscodeEncodeError::Failure(failure) => TranscodeEncodeError::Failure(failure),
            TranscodeEncodeError::Unencodable { input_index, value } => {
                TranscodeEncodeError::Unencodable { input_index, value }
            },
            TranscodeEncodeError::Domain(error) => TranscodeEncodeError::Domain(
                error.spec_map_source(g),
            ),
        }
    }

    /// Maps the wrapped domain error while preserving other errors.
    pub fn map_domain<F, T>(self, f: F) -> (mapped: TranscodeEncodeError<T, V>) where
        F: FnOnce(E) -> T,

        requires
            self matches TranscodeEncodeError::Domain(error) ==> f.requires((error.spec_source(),)),
        ensures
            match self {
                TranscodeEncodeError::Failure(failure) => mapped == TranscodeEncodeError::<
                    T,
                    V,
                >::Failure(failure),
                TranscodeEncodeError::Unencodable { input_index, value } => mapped
                    == TranscodeEncodeError::<T, V>::Unencodable { input_index, value },
                TranscodeEncodeError::Domain(error) => mapped matches TranscodeEncodeError::Domain(
                    m,
                ) && f.ensures((error.spec_source(),), m.spec_source()) && error.same_context(m),
            },
    {
        match self {
            TranscodeEncodeError::Failure(failure) => TranscodeEncodeError::Failure(failure),
            TranscodeEncodeError::Unencodable { input_index, value } => {
                TranscodeEncodeError::Unencodable { input_index, value }
            },
            TranscodeEncodeError::Domain(error) => TranscodeEncodeError::Domain(error.map_source(f)),
        }
    }

    /// Maps the value carried by unencodable-value errors.
    pub fn map_value<F, W>(self, f: F) -> (mapped: TranscodeEncodeError<E, W>) where
        F: FnOnce(V) -> W,

        requires
            self matches TranscodeEncodeError::Unencodable { value: Some(v), .. } ==> f.requires(
                (v,),
            ),
        ensures
            match self {
                TranscodeEncodeError::Failure(failure) => mapped == TranscodeEncodeError::<
                    E,
                    W,
                >::Failure(failure),
                TranscodeEncodeError::Unencodable { input_index, value } => mapped matches TranscodeEncodeError::Unencodable {
                    input_index: i,
                    value: w,
                } && i == input_index && (match value {
                    Some(v) => w matches Some(x) && f.ensures((v,), x),
                    None => w is None,
                }),
                TranscodeEncodeError::Domain(error) => mapped == TranscodeEncodeError::<
                    E,
                    W,
                >::Domain(error),
            },
    {
        match self {
            TranscodeEncodeError::Failure(failure) => TranscodeEncodeError::Failure(failure),
            TranscodeEncodeError::Unencodable { input_index, value } => {
                let mapped_value = match value {
                    Some(v) => Some(f(v)),
                    None => None,
                };
                TranscodeEncodeError::Unencodable { input_index, value: mapped_value }
            },
            TranscodeEncodeError::Domain(error) => TranscodeEncodeError::Domain(error),
        }
    }

    /// Validates that `output_index` is within an output slice.
    pub fn ensure_output_index(output_len: usize, output_index: usize) -> (result: Result<(), Self>)
        ensures
            result == Self::lift(output_index_check(output_len, output_index)),
    {
        match TranscodeFailure::ensure_output_index(output_len, output_index) {
            Ok(()) => Ok(()),
            Err(failure) => Err(TranscodeEncodeError::Failure(failure)),
        }
    }

    /// Validates input and output start indices for a transcode call.
    pub fn ensure_transcode_indices(
        input_len: usize,
        input_index: usize,
        output_len: usize,
        output_index: usize,
    ) -> (result: Result<(), Self>)
        ensures
            result == Self::lift(
                transcode_indices_check(input_len, input_index, output_len, output_index),
            ),
    {
        match TranscodeFailure::ensure_transcode_indices(
            input_len,
            input_index,
            output_len,
            output_index,
        ) {
            Ok(()) => Ok(()),
            Err(failure) => Err(TranscodeEncodeError::Failure(failure)),
        }
    }

    /// Validates that an output slice can hold `required` units from
    /// `output_index`.
    pub fn ensure_output_capacity(output_len: usize, output_index: usize, required: usize) -> (result:
        Result<(), Self>)
        ensures
            result == Self::lift(output_capacity_check(output_len, output_index, required)),
    {
        match TranscodeFailure::ensure_output_capacity(output_len, output_index, required) {
            Ok(()) => Ok(()),
            Err(failure) => Err(TranscodeEncodeError::Failure(failure)),
        }
    }
}

impl<E, V> From<TranscodeFailure> for TranscodeEncodeError<E, V> {
    fn from(failure: TranscodeFailure) -> (error: Self) {
        TranscodeEncodeError::Failure(failure)
    }
}

impl<E, V> vstd::std_specs::convert::FromSpecImpl<TranscodeFailure> for TranscodeEncodeError<E, V> {
    open spec fn obeys_from_spec() -> bool {
        true
    }

    open spec fn from_spec(failure: TranscodeFailure) -> Self {
        TranscodeEncodeError::Failure(failure)
    }
}

impl<E, V> From<TranscodeDomainError<E>> for TranscodeEncodeError<E, V> {
    fn from(error: TranscodeDomainError<E>) -> (result: Self) {
        TranscodeEncodeError::Domain(error)
    }
}

impl<E, V> vstd::std_specs::convert::FromSpecImpl<TranscodeDomainError<E>> for TranscodeEncodeError<E, V> {
    open spec fn obeys_from_spec() -> bool {
        true
    }

    open spec fn from_spec(error: TranscodeDomainError<E>) -> Self {
        TranscodeEncodeError::Domain(error)
    }
}

impl<E, V> From<CapacityError> for TranscodeEncodeError<E, V> {
    fn from(error: CapacityError) -> (result: Self) {
        match error {
            CapacityError::OutputLengthOverflow => TranscodeEncodeError::Failure(
                TranscodeFailure::OutputLengthOverflow,
            ),
        }
    }
}

impl<E, V> vstd::std_specs::convert::FromSpecImpl<CapacityError> for TranscodeEncodeError<E, V> {
    open spec fn obeys_from_spec() -> bool {
        true
    }

    open spec fn from_spec(error: CapacityError) -> Self {
        match error {
            CapacityError::OutputLengthOverflow => TranscodeEncodeError::Failure(
                TranscodeFailure::OutputLengthOverflow,
            ),
        }
    }
}

/// Mapping the domain error with the identity gives the error back.
pub proof fn lemma_encode_map_domain_identity<E, V>(error: TranscodeEncodeError<E, V>)
    ensures
        error.spec_map_domain(|source: E| source) == error,
{
    if let TranscodeEncodeError::Domain(domain) = error {
        lemma_map_source_identity(domain);
    }
}

/// Mapping the domain error with `f` and then with `g` is mapping it once
/// with `g` after `f`.
pub proof fn lemma_encode_map_domain_composition<E, T, U, V>(
    error: TranscodeEncodeError<E, V>,
    f: spec_fn(E) -> T,
    g: spec_fn(T) -> U,
)
    ensures
        error.spec_map_domain(f).spec_map_domain(g) == error.spec_map_domain(
            |source: E| g(f(source)),
        ),
{
    if let TranscodeEncodeError::Domain(domain) = error {
        lemma_map_source_composition(domain, f, g);
    }
}

} // verus!
