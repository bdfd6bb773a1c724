//! Owned whole-value decoding.

use vstd::prelude::*;

verus! {

/// Decodes one borrowed encoded input into one owned value.
pub trait ValueDecoder<Input: ?Sized> {
    /// Owned decoded output.
    type Output;
    /// Error reported when the input cannot be decoded.
    type Error;
    /// Domain error of the underlying format.
    type DomainError;

    /// Wraps a domain error of the underlying format into [`Self::Error`].
    fn map_error(&self, error: Self::DomainError) -> Self::Error;

    /// Decodes exactly one complete encoded value.
    fn decode(&mut self, input: &Input) -> Result<Self::Output, Self::Error>;
}

} // verus!
