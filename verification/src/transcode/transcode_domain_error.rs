//! Domain-specific transcode errors with codec phase context.

use vstd::prelude::*;

use crate::num::NonZeroUsize;

verus! {

/// Domain-specific codec, charset, or policy error with transcode context.
///
/// Reset and finish failures are lifecycle failures and therefore carry no
/// input index. Main-phase failures always carry the absolute input index
/// where the domain error occurred.
#[derive(Clone, Copy, Debug, PartialEq, Eq, Hash)]
pub enum TranscodeDomainError<E> {
    /// Domain error reported while resetting codec or hook state.
    Reset {
        /// Domain error returned by the codec or policy facade.
        source: E,
    },
    /// Domain error reported while processing input.
    Main {
        /// Domain error returned by the codec or policy facade.
        source: E,
        /// Absolute input index where the error occurred.
        input_index: usize,
        /// Invalid input units consumed by the codec-domain error, when known.
        input_consumed: Option<NonZeroUsize>,
    },
    /// Domain error reported while finishing codec or hook state.
    Finish {
        /// Domain error returned by the codec or policy facade.
        source: E,
    },
}

impl<E> TranscodeDomainError<E> {
    /// The wrapped source error, whatever the phase.
    pub open spec fn spec_source(self) -> E {
        match self {
            TranscodeDomainError::Reset { source } => source,
            TranscodeDomainError::Main { source, .. } => source,
            TranscodeDomainError::Finish { source } => source,
        }
    }

    /// Creates a reset-phase domain error.
    pub fn reset(source: E) -> (error: Self)
        ensures
            error == (TranscodeDomainError::Reset { source }),
    {
        TranscodeDomainError::Reset { source }
    }

    /// Creates a main-phase domain error without consumption context.
    pub fn main(source: E, input_index: usize) -> (error: Self)
        ensures
            error == (TranscodeDomainError::Main { source, input_index, input_consumed: None }),
    {
        TranscodeDomainError::Main { source, input_index, input_consumed: None }
    }

    /// Creates a main-phase domain error with decode consumption context.
    pub fn main_with_consumed(
        source: E,
        input_index: usize,
        input_consumed: Option<NonZeroUsize>,
    ) -> (error: Self)
        ensures
            error == (TranscodeDomainError::Main { source, input_index, input_consumed }),
    {
        TranscodeDomainError::Main { source, input_index, input_consumed }
    }

    /// Creates a finish-phase domain error.
    pub fn finish(source: E) -> (error: Self)
        ensures
            error == (TranscodeDomainError::Finish { source }),
    {
        TranscodeDomainError::Finish { source }
    }

    /// Returns the wrapped source error.
    pub fn source(&self) -> (source: &E)
        ensures
            *source == self.spec_source(),
    {
        match self {
            TranscodeDomainError::Reset { source } => source,
            TranscodeDomainError::Main { source, .. } => source,
            TranscodeDomainError::Finish { source } => source,
        }
    }

    /// Consumes this error and returns the wrapped source error.
    pub fn into_source(self) -> (source: E)
        ensures
            source == self.spec_source(),
    {
        match self {
            TranscodeDomainError::Reset { source } => source,
            TranscodeDomainError::Main { source, .. } => source,
            TranscodeDomainError::Finish { source } => source,
        }
    }

    /// Returns the absolute input index associated with the error: `Some`
    /// for main-phase errors and `None` for reset or finish errors.
    pub fn input_index(&self) -> (index: Option<usize>)
        ensures
            index == (match *self {
                TranscodeDomainError::Main { input_index, .. } => Some(input_index),
                _ => None,
            }),
    {
        match self {
            TranscodeDomainError::Main { input_index, .. } => Some(*input_index),
            _ => None,
        }
    }

    /// Returns the invalid input width reported by a main-phase decode error.
    pub fn input_consumed(&self) -> (consumed: Option<NonZeroUsize>)
        ensures
            consumed == (match *self {
                TranscodeDomainError::Main { input_consumed, .. } => input_consumed,
                _ => None,
            }),
    {
        match self {
            TranscodeDomainError::Main { input_consumed, .. } => *input_consumed,
            _ => None,
        }
    }

    /// This error with its source replaced by `g` of it, in the same phase
    /// and with the same input context.
    pub open spec fn spec_map_source<T>(self, g: spec_fn(E) -> T) -> TranscodeDomainError<T> {
        match self {
            TranscodeDomainError::Reset { source } => TranscodeDomainError::Reset { source: g(source) },
            TranscodeDomainError::Main { source, input_index, input_consumed } => {
                TranscodeDomainError::Main { source: g(source), input_index, input_consumed }
            },
            TranscodeDomainError::Finish { source } => TranscodeDomainError::Finish {
                source: g(source),
            },
        }
    }

    /// `mapped` is in the same phase as this error, with the same input
    /// index and consumed width when it is a main-phase error.
    pub open spec fn same_context<T>(self, mapped: TranscodeDomainError<T>) -> bool {
        match self {
            TranscodeDomainError::Reset { .. } => mapped is Reset,
            TranscodeDomainError::Main { input_index, input_consumed, .. } => mapped matches TranscodeDomainError::Main { input_index: i, input_consumed: c, .. } && i == input_index && c == input_consumed,
            TranscodeDomainError::Finish { .. } => mapped is Finish,
        }
    }

    /// Maps the wrapped source error while preserving phase context.
    pub fn map_source<T, F>(self, f: F) -> (mapped: TranscodeDomainError<T>) where
        F: FnOnce(E) -> T,

        requires
            f.requires((self.spec_source(),)),
        ensures
            f.ensures((self.spec_source(),), mapped.spec_source()),
            self.same_context(mapped),
    {
        match self {
            TranscodeDomainError::Reset { source } => TranscodeDomainError::Reset { source: f(source) },
            TranscodeDomainError::Main { source, input_index, input_consumed } => {
                TranscodeDomainError::Main { source: f(source), input_index, input_consumed }
            },
            TranscodeDomainError::Finish { source } => TranscodeDomainError::Finish {
                source: f(source),
            },
        }
    }
}

/// Mapping the source with the identity gives the error back.
pub proof fn lemma_map_source_identity<E>(error: TranscodeDomainError<E>)
    ensures
        error.spec_map_source(|source: E| source) == error,
{
}

/// Mapping the source with `f` and then with `g` is mapping it once with
/// `g` after `f`.
pub proof fn lemma_map_source_composition<E, T, U>(
    error: TranscodeDomainError<E>,
    f: spec_fn(E) -> T,
    g: spec_fn(T) -> U,
)
    ensures
        error.spec_map_source(f).spec_map_source(g) == error.spec_map_source(
            |source: E| g(f(source)),
        ),
{
}

/// A [`TranscodeDomainError::map_source`] result whose source is `g` of
/// the original source is the original mapped by `g`.
pub proof fn lemma_map_source_result<E, T>(
    error: TranscodeDomainError<E>,
    mapped: TranscodeDomainError<T>,
    g: spec_fn(E) -> T,
)
    requires
        error.same_context(mapped),
        mapped.spec_source() == g(error.spec_source()),
    ensures
        mapped == error.spec_map_source(g),
{
}

} // verus!
