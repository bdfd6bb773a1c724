//! Errors reported by one-value codec operations.

use vstd::prelude::*;

use crate::codec::DecodeFailure;
use crate::num::NonZeroUsize;
use crate::util::range_fits;
use super::capacity_error::CapacityError;
use super::codec_phase::CodecPhase;
use super::transcode_domain_error::{
    lemma_map_source_composition, lemma_map_source_identity, TranscodeDomainError,
};
use super::transcode_failure::{
    input_index_check, min_input_check, output_capacity_check, output_index_check,
    transcode_indices_check, TranscodeFailure,
};

verus! {

/// Error reported by a transcode operation.
///
/// Separates framework failures from codec-, charset-, or policy-specific
/// domain errors; a value that the codec cannot encode is a framework
/// failure that carries its input index and, when available, the value.
#[derive(Clone, Debug, PartialEq, Eq, Hash)]
pub enum TranscodeError<E, Value = ()> {
    /// Framework-level transcode failure.
    Failure(TranscodeFailure<Value>),
    /// Domain-specific codec, charset, or policy error.
    Domain(TranscodeDomainError<E>),
}

/// The domain error that [`TranscodeError::domain_with_consumed`] wraps.
pub open spec fn phase_domain_error<E>(
    source: E,
    phase: CodecPhase,
    input_index: Option<usize>,
    input_consumed: Option<NonZeroUsize>,
) -> TranscodeDomainError<E> {
    match phase {
        CodecPhase::Reset => TranscodeDomainError::Reset { source },
        CodecPhase::Main => TranscodeDomainError::Main {
            source,
            input_index: input_index->0,
            input_consumed,
        },
        CodecPhase::Finish => TranscodeDomainError::Finish { source },
    }
}

/// What [`TranscodeError::ensure_no_trailing_input`] answers: trailing units
/// are `total - consumed`, counting zero when `consumed` exceeds `total`.
pub open spec fn saturating_trailing_check(consumed: usize, total: usize) -> Result<
    (),
    TranscodeFailure,
> {
    if consumed < total {
        Err(TranscodeFailure::TrailingInput { consumed, remaining: (total - consumed) as usize })
    } else {
        Ok(())
    }
}

/// What [`TranscodeError::ensure_output_range`] answers.
pub open spec fn error_output_range_check(
    output_len: usize,
    output_index: usize,
    range_len: usize,
    required: usize,
) -> Result<(), TranscodeFailure> {
    if output_index > output_len || output_index + range_len > output_len {
        Err(TranscodeFailure::InvalidOutputIndex { index: output_index, output_len })
    } else if range_len < required {
        Err(TranscodeFailure::InsufficientOutput { output_index, required, available: range_len })
    } else {
        Ok(())
    }
}

/// The I/O error an adapter reports for a transcode error.
#[derive(Clone, Copy, Debug, PartialEq, Eq, Hash, Structural)]
pub enum IoErrorClass {
    /// Forward the domain source through the caller's mapper.
    Domain,
    /// Report malformed data, invalid ranges or impossible output planning.
    InvalidData,
    /// Report a value the codec cannot encode.
    InvalidInput,
}

impl<E, Value> TranscodeError<E, Value> {
    /// Lifts the outcome of a framework check into this error type.
    pub open spec fn lift(check: Result<(), TranscodeFailure>) -> Result<(), Self> {
        match check {
            Ok(()) => Ok(()),
            Err(failure) => Err(TranscodeError::Failure(failure.widened())),
        }
    }

    /// The error [`Self::from_decode_failure`] builds.
    pub open spec fn spec_from_decode_failure(
        failure: DecodeFailure<E>,
        input_index: usize,
        available: usize,
    ) -> Self {
        match failure {
            DecodeFailure::Incomplete { required_total } => TranscodeError::Failure(
                TranscodeFailure::IncompleteInput {
                    input_index,
                    required: required_total.spec_get(),
                    available,
                },
            ),
            DecodeFailure::Invalid { source, consumed } => TranscodeError::Domain(
                TranscodeDomainError::Main { source, input_index, input_consumed: consumed },
            ),
        }
    }

    /// Creates a domain-specific transcode error for `phase`; a main-phase
    /// error carries the absolute input index of the failing value.
    pub fn domain(source: E, phase: CodecPhase, input_index: Option<usize>) -> (error: Self)
        requires
            phase is Main ==> input_index is Some,
        ensures
            error == TranscodeError::<E, Value>::Domain(
                phase_domain_error(source, phase, input_index, None),
            ),
    {
        Self::domain_with_consumed(source, phase, input_index, None)
    }

    /// Creates a domain-specific transcode error with decode consumption
    /// context.
    pub fn domain_with_consumed(
        source: E,
        phase: CodecPhase,
        input_index: Option<usize>,
        input_consumed: Option<NonZeroUsize>,
    ) -> (error: Self)
        requires
            phase is Main ==> input_index is Some,
        ensures
            error == TranscodeError::<E, Value>::Domain(
                phase_domain_error(source, phase, input_index, input_consumed),
            ),
    {
        match phase {
            CodecPhase::Reset => TranscodeError::Domain(TranscodeDomainError::reset(source)),
            CodecPhase::Main => {
                let index = match input_index {
                    Some(index) => index,
                    None => 0,
                };
                TranscodeError::Domain(
                    TranscodeDomainError::main_with_consumed(source, index, input_consumed),
                )
            },
            CodecPhase::Finish => TranscodeError::Domain(TranscodeDomainError::finish(source)),
        }
    }

    /// Creates an invalid-input-index error.
    pub fn invalid_input_index(index: usize, len: usize) -> (error: Self)
        ensures
            error == (TranscodeError::<E, Value>::Failure(TranscodeFailure::InvalidInputIndex { index, input_len: len })),
    {
        TranscodeError::Failure(TranscodeFailure::InvalidInputIndex { index, input_len: len })
    }

    /// Creates an invalid-output-index error.
    pub fn invalid_output_index(index: usize, len: usize) -> (error: Self)
        ensures
            error == (TranscodeError::<E, Value>::Failure(TranscodeFailure::InvalidOutputIndex { index, output_len: len })),
    {
        TranscodeError::Failure(TranscodeFailure::InvalidOutputIndex { index, output_len: len })
    }

    /// Creates an insufficient-output error.
    pub fn insufficient_output(output_index: usize, required: usize, available: usize) -> (error:
        Self)
        ensures
            error == (TranscodeError::<E, Value>::Failure(TranscodeFailure::InsufficientOutput { output_index, required, available })),
    {
        TranscodeError::Failure(
            TranscodeFailure::InsufficientOutput { output_index, required, available },
        )
    }

    /// Creates an output-length-overflow error.
    pub fn output_length_overflow() -> (error: Self)
        ensures
            error == (TranscodeError::<E, Value>::Failure(TranscodeFailure::OutputLengthOverflow)),
    {
        TranscodeError::Failure(TranscodeFailure::OutputLengthOverflow)
    }

    /// Creates an incomplete-input error.
    pub fn incomplete_input(input_index: usize, required: usize, available: usize) -> (error: Self)
        ensures
            error == (TranscodeError::<E, Value>::Failure(TranscodeFailure::IncompleteInput { input_index, required, available })),
    {
        TranscodeError::Failure(TranscodeFailure::IncompleteInput { input_index, required, available })
    }

    /// Creates a trailing-input error.
    pub fn trailing_input(consumed: usize, remaining: usize) -> (error: Self)
        ensures
            error == (TranscodeError::<E, Value>::Failure(TranscodeFailure::TrailingInput { consumed, remaining })),
    {
        TranscodeError::Failure(TranscodeFailure::TrailingInput { consumed, remaining })
    }

    /// Creates an unencodable-value error with value context.
    pub fn unencodable_value(input_index: usize, value: Value) -> (error: Self)
        ensures
            error == (TranscodeError::<E, Value>::Failure(
                TranscodeFailure::UnencodableValue { input_index, value: Some(value) },
            )),
    {
        TranscodeError::Failure(TranscodeFailure::UnencodableValue { input_index, value: Some(value) })
    }

    /// Creates an unencodable-value error without value context.
    pub fn unencodable_value_without_context(input_index: usize) -> (error: Self)
        ensures
            error == (TranscodeError::<E, Value>::Failure(
                TranscodeFailure::UnencodableValue { input_index, value: None },
            )),
    {
        TranscodeError::Failure(TranscodeFailure::UnencodableValue { input_index, value: None })
    }

    /// Converts a codec decode failure at `input_index` into a transcode
    /// error: an incomplete prefix becomes
    /// [`TranscodeFailure::IncompleteInput`] and invalid input a main-phase
    /// domain error.
    pub fn from_decode_failure(failure: DecodeFailure<E>, input_index: usize, available: usize) -> (error:
        Self)
        ensures
            error == Self::spec_from_decode_failure(failure, input_index, available),
    {
        match failure {
            DecodeFailure::Incomplete { required_total } => Self::incomplete_input(
                input_index,
                required_total.get(),
                available,
            ),
            DecodeFailure::Invalid { source, consumed } => Self::domain_with_consumed(
                source,
                CodecPhase::Main,
                Some(input_index),
                consumed,
            ),
        }
    }

    /// Returns whether this error wraps a domain error.
    pub fn is_domain(&self) -> (result: bool)
        ensures
            result == (*self is Domain),
    {
        match self {
            TranscodeError::Domain(_) => true,
            _ => false,
        }
    }

    /// Borrows the framework failure carried by this error; exactly one of
    /// this and [`Self::domain_error_ref`] is `Some`.
    pub fn failure_ref(&self) -> (result: Option<&TranscodeFailure<Value>>)
        ensures
            match *self {
                TranscodeError::Failure(failure) => result == Some(&failure),
                TranscodeError::Domain(_) => result is None,
            },
    {
        match self {
            TranscodeError::Failure(failure) => Some(failure),
            TranscodeError::Domain(_) => None,
        }
    }

    /// Returns a clone of the framework failure carried by this error.
    pub fn failure(&self) -> (result: Option<TranscodeFailure<Value>>) where Value: Clone
        ensures
            match *self {
                TranscodeError::Failure(failure) => match failure {
                    TranscodeFailure::UnencodableValue { input_index, value } => result matches Some(
                        TranscodeFailure::UnencodableValue { input_index: i, value: w },
                    ) && i == input_index && (match value {
                        Some(v) => w matches Some(x) && cloned(v, x),
                        None => w is None,
                    }),
                    _ => result == Some(failure),
                },
                TranscodeError::Domain(_) => result is None,
            },
    {
        match self {
            TranscodeError::Failure(TranscodeFailure::UnencodableValue { input_index, value }) => {
                let copied = match value {
                    Some(v) => Some(v.clone()),
                    None => None,
                };
                Some(TranscodeFailure::UnencodableValue { input_index: *input_index, value: copied })
            },
            TranscodeError::Failure(failure) => Some(failure.copy_without_value()),
            TranscodeError::Domain(_) => None,
        }
    }

    /// Borrows the wrapped domain error and its transcode context.
    pub fn domain_error_ref(&self) -> (result: Option<&TranscodeDomainError<E>>)
        ensures
            match *self {
                TranscodeError::Domain(error) => result == Some(&error),
                _ => result is None,
            },
    {
        match self {
            TranscodeError::Domain(error) => Some(error),
            _ => None,
        }
    }

    /// The I/O error an encode adapter reports: domain errors go through
    /// the caller's mapper, an unencodable value is invalid input, and every
    /// framework failure is invalid data.
    pub fn encode_io_error_class(&self) -> (class: IoErrorClass)
        ensures
            class == (match *self {
                TranscodeError::Domain(_) => IoErrorClass::Domain,
                TranscodeError::Failure(TranscodeFailure::UnencodableValue { .. }) => {
                    IoErrorClass::InvalidInput
                },
                TranscodeError::Failure(_) => IoErrorClass::InvalidData,
            }),
    {
        match self {
            TranscodeError::Domain(_) => IoErrorClass::Domain,
            TranscodeError::Failure(TranscodeFailure::UnencodableValue { .. }) => {
                IoErrorClass::InvalidInput
            },
            TranscodeError::Failure(_) => IoErrorClass::InvalidData,
        }
    }

    /// The I/O error a decode adapter reports: domain errors go through the
    /// caller's mapper and everything else is invalid data.
    pub fn decode_io_error_class(&self) -> (class: IoErrorClass)
        ensures
            class == (match *self {
                TranscodeError::Domain(_) => IoErrorClass::Domain,
                _ => IoErrorClass::InvalidData,
            }),
    {
        match self {
            TranscodeError::Domain(_) => IoErrorClass::Domain,
            _ => IoErrorClass::InvalidData,
        }
    }

    /// Borrows the wrapped domain source error.
    pub fn domain_ref(&self) -> (result: Option<&E>)
        ensures
            match *self {
                TranscodeError::Domain(error) => result == Some(&error.spec_source()),
                _ => result is None,
            },
    {
        match self {
            TranscodeError::Domain(error) => Some(error.source()),
            _ => None,
        }
    }

    /// This error with the source of a domain error replaced by `g` of it;
    /// framework failures are kept.
    pub open spec fn spec_map_domain<T>(self, g: spec_fn(E) -> T) -> TranscodeError<T, Value> {
        match self {
            TranscodeError::Failure(failure) => TranscodeError::Failure(failure),
            TranscodeError::Domain(error) => TranscodeError::Domain(error.spec_map_source(g)),
        }
    }

    /// Maps the wrapped domain error while preserving other errors.
    pub fn map_domain<F, T>(self, f: F) -> (mapped: TranscodeError<T, Value>) where
        F: FnOnce(E) -> T,

        requires
            self matches TranscodeError::Domain(error) ==> f.requires((error.spec_source(),)),
        ensures
            match self {
                TranscodeError::Failure(failure) => mapped == TranscodeError::<T, Value>::Failure(
                    failure,
                ),
                TranscodeError::Domain(error) => mapped matches TranscodeError::Domain(m) && f.ensures(
                    (error.spec_source(),),
                    m.spec_source(),
                ) && error.same_context(m),
            },
    {
        match self {
            TranscodeError::Failure(failure) => TranscodeError::Failure(failure),
            TranscodeError::Domain(error) => TranscodeError::Domain(error.map_source(f)),
        }
    }

    /// Maps the value carried by an unencodable-value failure while
    /// preserving the domain error type.
    pub fn map_failure_value<T, F>(self, f: F) -> (mapped: TranscodeError<E, T>) where
        F: FnOnce(Value) -> T,

        requires
            self matches TranscodeError::Failure(
                TranscodeFailure::UnencodableValue { value: Some(v), .. },
            ) ==> f.requires((v,)),
        ensures
            match self {
                TranscodeError::Failure(failure) => mapped matches TranscodeError::Failure(m) && (
                match failure {
                    TranscodeFailure::UnencodableValue { input_index, value } => m matches TranscodeFailure::UnencodableValue {
                        input_index: i,
                        value: w,
                    } && i == input_index && (match value {
                        Some(v) => w matches Some(x) && f.ensures((v,), x),
                        None => w is None,
                    }),
                    _ => m == failure.widened::<T>(),
                }),
                TranscodeError::Domain(error) => mapped == TranscodeError::<E, T>::Domain(error),
            },
    {
        match self {
            TranscodeError::Failure(failure) => TranscodeError::Failure(failure.map_value(f)),
            TranscodeError::Domain(error) => TranscodeError::Domain(error),
        }
    }

    /// Validates that `input_index` is within an input slice.
    pub fn ensure_input_index(input_len: usize, input_index: usize) -> (result: Result<(), Self>)
        ensures
            result == Self::lift(input_index_check(input_len, input_index)),
    {
        if input_index > input_len {
            return Err(Self::invalid_input_index(input_index, input_len));
        }
        Ok(())
    }

    /// Validates that at least `min_required` input units are available from
    /// `input_index`.
    pub fn ensure_min_input(input_len: usize, input_index: usize, min_required: usize) -> (result:
        Result<(), Self>)
        ensures
            result == Self::lift(min_input_check(input_len, input_index, min_required)),
    {
        Self::ensure_input_index(input_len, input_index)?;
        let available = input_len - input_index;
        if available < min_required {
            return Err(Self::incomplete_input(input_index, min_required, available));
        }
        Ok(())
    }

    /// Validates that no input units remain after a decoded value.
    pub fn ensure_no_trailing_input(consumed: usize, total: usize) -> (result: Result<(), Self>)
        ensures
            result == Self::lift(saturating_trailing_check(consumed, total)),
    {
        let remaining = total.saturating_sub(consumed);
        if remaining != 0 {
            return Err(Self::trailing_input(consumed, remaining));
        }
        Ok(())
    }

    /// Validates that `output_index` is within an output slice.
    pub fn ensure_output_index(output_len: usize, output_index: usize) -> (result: Result<(), Self>)
        ensures
            result == Self::lift(output_index_check(output_len, output_index)),
    {
        if output_index > output_len {
            return Err(Self::invalid_output_index(output_index, output_len));
        }
        Ok(())
    }

    /// Validates input and output start indices for a transcode call.
    pub fn ensure_transcode_indices(
        input_len: usize,
        input_index: usize,
        output_len: usize,
        output_index: usize,
    ) -> (result: Result<(), Self>)
        ensures
            result == Self::lift(
                transcode_indices_check(input_len, input_index, output_len, output_index),
            ),
    {
        Self::ensure_input_index(input_len, input_index)?;
        Self::ensure_output_index(output_len, output_index)
    }

    /// Validates that an output slice can hold `required` units from
    /// `output_index`.
    pub fn ensure_output_capacity(output_len: usize, output_index: usize, required: usize) -> (result:
        Result<(), Self>)
        ensures
            result == Self::lift(output_capacity_check(output_len, output_index, required)),
    {
        Self::ensure_output_index(output_len, output_index)?;
        let available = output_len - output_index;
        if available < required {
            return Err(Self::insufficient_output(output_index, required, available));
        }
        Ok(())
    }

    /// Validates an indexed output range and its minimum writable capacity.
    pub fn ensure_output_range(
        output_len: usize,
        output_index: usize,
        range_len: usize,
        required: usize,
    ) -> (result: Result<(), Self>)
        ensures
            result == Self::lift(
                error_output_range_check(output_len, output_index, range_len, required),
            ),
    {
        Self::ensure_output_index(output_len, output_index)?;
        if !range_fits(output_len, output_index, range_len) {
            return Err(Self::invalid_output_index(output_index, output_len));
        }
        if range_len < required {
            return Err(Self::insufficient_output(output_index, required, range_len));
        }
        Ok(())
    }
}

/// Mapping the domain error with the identity gives the error back.
pub proof fn lemma_map_domain_identity<E, Value>(error: TranscodeError<E, Value>)
    ensures
        error.spec_map_domain(|source: E| source) == error,
{
    if let TranscodeError::Domain(domain) = error {
        lemma_map_source_identity(domain);
    }
}

/// Mapping the domain error with `f` and then with `g` is mapping it once
/// with `g` after `f`.
pub proof fn lemma_map_domain_composition<E, T, U, Value>(
    error: TranscodeError<E, Value>,
    f: spec_fn(E) -> T,
    g: spec_fn(T) -> U,
)
    ensures
        error.spec_map_domain(f).spec_map_domain(g) == error.spec_map_domain(
            |source: E| g(f(source)),
        ),
{
    if let TranscodeError::Domain(domain) = error {
        lemma_map_source_composition(domain, f, g);
    }
}

/// A [`TranscodeError::map_domain`] result in which a domain source became
/// `g` of it, with its phase context kept, is the original mapped by `g`.
pub proof fn lemma_map_domain_result<E, T, Value>(
    error: TranscodeError<E, Value>,
    mapped: TranscodeError<T, Value>,
    g: spec_fn(E) -> T,
)
    requires
        match error {
            TranscodeError::Failure(failure) => mapped == TranscodeError::<T, Value>::Failure(
                failure,
            ),
            TranscodeError::Domain(domain) => mapped matches TranscodeError::Domain(m)
                && domain.same_context(m) && m.spec_source() == g(domain.spec_source()),
        },
    ensures
        mapped == error.spec_map_domain(g),
{
}

impl<E, Value> From<TranscodeFailure<Value>> for TranscodeError<E, Value> {
    fn from(failure: TranscodeFailure<Value>) -> (error: Self) {
        TranscodeError::Failure(failure)
    }
}

impl<E, Value> vstd::std_specs::convert::FromSpecImpl<TranscodeFailure<Value>> for TranscodeError<E, Value> {
    open spec fn obeys_from_spec() -> bool {
        true
    }

    open spec fn from_spec(failure: TranscodeFailure<Value>) -> Self {
        TranscodeError::Failure(failure)
    }
}

impl<E, Value> From<TranscodeDomainError<E>> for TranscodeError<E, Value> {
    fn from(error: TranscodeDomainError<E>) -> (result: Self) {
        TranscodeError::Domain(error)
    }
}

impl<E, Value> vstd::std_specs::convert::FromSpecImpl<TranscodeDomainError<E>> for TranscodeError<E, Value> {
    open spec fn obeys_from_spec() -> bool {
        true
    }

    open spec fn from_spec(error: TranscodeDomainError<E>) -> Self {
        TranscodeError::Domain(error)
    }
}

impl<E, Value> From<CapacityError> for TranscodeError<E, Value> {
    /// Converts capacity planning errors into transcode framework errors.
    fn from(error: CapacityError) -> (result: Self) {
        match error {
            CapacityError::OutputLengthOverflow => TranscodeError::Failure(
                TranscodeFailure::OutputLengthOverflow,
            ),
        }
    }
}

impl<E, Value> vstd::std_specs::convert::FromSpecImpl<CapacityError> for TranscodeError<E, Value> {
    open spec fn obeys_from_spec() -> bool {
        true
    }

    open spec fn from_spec(error: CapacityError) -> Self {
        match error {
            CapacityError::OutputLengthOverflow => TranscodeError::Failure(
                TranscodeFailure::OutputLengthOverflow,
            ),
        }
    }
}

} // verus!
