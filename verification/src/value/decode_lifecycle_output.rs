//! Owned output of one complete decode lifecycle.

use vstd::prelude::*;

verus! {

/// Reset values, the main decoded value, and finish values produced by one
/// complete decode lifecycle, in separate owned buffers.
#[derive(Clone, Debug, PartialEq, Eq, Hash)]
pub struct DecodeLifecycleOutput<V> {
    reset: Vec<V>,
    value: V,
    finish: Vec<V>,
}

impl<V> DecodeLifecycleOutput<V> {
    /// Values emitted by the decode reset hook.
    pub closed spec fn spec_reset(self) -> Seq<V> {
        self.reset@
    }

    /// The main decoded value.
    pub closed spec fn spec_value(self) -> V {
        self.value
    }

    /// Values emitted by the decode finish hook.
    pub closed spec fn spec_finish(self) -> Seq<V> {
        self.finish@
    }

    /// Creates lifecycle output from its three parts.
    pub(crate) fn new(reset: Vec<V>, value: V, finish: Vec<V>) -> (output: Self)
        ensures
            output.spec_reset() == reset@,
            output.spec_value() == value,
            output.spec_finish() == finish@,
    {
        DecodeLifecycleOutput { reset, value, finish }
    }

    /// Returns the values emitted while resetting decode state.
    pub fn reset(&self) -> (values: &[V])
        ensures
            values@ == self.spec_reset(),
    {
        self.reset.as_slice()
    }

    /// Returns the main decoded value.
    pub fn value(&self) -> (value: &V)
        ensures
            *value == self.spec_value(),
    {
        &self.value
    }

    /// Returns the values emitted while finishing decode state.
    pub fn finish(&self) -> (values: &[V])
        ensures
            values@ == self.spec_finish(),
    {
        self.finish.as_slice()
    }

    /// Consumes the output and returns reset values, value, and finish values.
    pub fn into_parts(self) -> (parts: (Vec<V>, V, Vec<V>))
        ensures
            parts.0@ == self.spec_reset(),
            parts.1 == self.spec_value(),
            parts.2@ == self.spec_finish(),
    {
        (self.reset, self.value, self.finish)
    }
}

} // verus!
