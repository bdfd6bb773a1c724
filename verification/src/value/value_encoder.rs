//! Owned whole-value encoding.

use vstd::prelude::*;

verus! {

/// Encodes one borrowed input value into one owned output.
///
/// Implement this trait when only the complete input is a meaningful
/// operation.
pub trait ValueEncoder<Input: ?Sized> {
    /// Owned encoded output.
    type Output;
    /// Error reported when the value cannot be encoded.
    type Error;

    /// Encodes one complete input value.
    fn encode(&mut self, input: &Input) -> Result<Self::Output, Self::Error>;
}

} // verus!
