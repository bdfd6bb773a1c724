//! Progress of one complete decode lifecycle into caller storage.

use vstd::prelude::*;

verus! {

/// The main decoded value and the lengths written into the caller's reset and
/// finish buffers.
#[derive(Clone, Copy, Debug, PartialEq, Eq, Hash)]
pub struct DecodeLifecycleProgress<V> {
    value: V,
    reset_written: usize,
    finish_written: usize,
}

impl<V> DecodeLifecycleProgress<V> {
    /// The main decoded value.
    pub closed spec fn spec_value(self) -> V {
        self.value
    }

    /// Values written into the reset buffer.
    pub closed spec fn spec_reset_written(self) -> usize {
        self.reset_written
    }

    /// Values written into the finish buffer.
    pub closed spec fn spec_finish_written(self) -> usize {
        self.finish_written
    }

    /// Creates lifecycle progress.
    pub(crate) fn new(value: V, reset_written: usize, finish_written: usize) -> (progress: Self)
        ensures
            progress.spec_value() == value,
            progress.spec_reset_written() == reset_written,
            progress.spec_finish_written() == finish_written,
    {
        DecodeLifecycleProgress { value, reset_written, finish_written }
    }

    /// Returns the main decoded value.
    pub fn value(&self) -> (value: &V)
        ensures
            *value == self.spec_value(),
    {
        &self.value
    }

    /// Returns the number of values written while resetting decode state.
    pub fn reset_written(&self) -> (written: usize)
        ensures
            written == self.spec_reset_written(),
    {
        self.reset_written
    }

    /// Returns the number of values written while finishing decode state.
    pub fn finish_written(&self) -> (written: usize)
        ensures
            written == self.spec_finish_written(),
    {
        self.finish_written
    }

    /// Consumes the progress and returns value, reset length, and finish
    /// length.
    pub fn into_parts(self) -> (parts: (V, usize, usize))
        ensures
            parts == (self.spec_value(), self.spec_reset_written(), self.spec_finish_written()),
    {
        (self.value, self.reset_written, self.finish_written)
    }
}

} // verus!
