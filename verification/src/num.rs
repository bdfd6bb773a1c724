//! A positive `usize` count.

use vstd::prelude::*;

verus! {

/// An unsigned count that is known to be positive.
///
/// Required-capacity reports and consumed-unit counts use this type so that a
/// zero request cannot be expressed.
#[derive(Clone, Copy, Debug, PartialEq, Eq, Hash, Structural)]
pub struct NonZeroUsize {
    value: usize,
}

impl NonZeroUsize {
    #[verifier::type_invariant]
    spec fn positive(self) -> bool {
        self.value > 0
    }

    /// The number held by this count.
    pub closed spec fn spec_get(self) -> usize {
        self.value
    }

    /// Creates a count when `value` is positive.
    pub fn new(value: usize) -> (result: Option<Self>)
        ensures
            result is Some <==> value > 0,
            result matches Some(n) ==> n.spec_get() == value,
    {
        if value == 0 {
            None
        } else {
            Some(NonZeroUsize { value })
        }
    }

    /// The smallest positive count, one.
    pub fn one() -> (result: Self)
        ensures
            result.spec_get() == 1,
    {
        NonZeroUsize { value: 1 }
    }

    /// Returns the number held by this count.
    pub fn get(self) -> (result: usize)
        ensures
            result == self.spec_get(),
            result > 0,
    {
        proof {
            use_type_invariant(&self);
        }
        self.value
    }
}

} // verus!
