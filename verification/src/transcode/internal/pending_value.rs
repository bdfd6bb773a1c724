//! A decoded value waiting to be encoded.

use vstd::prelude::*;

use crate::transcode::capacity_error::CapacityError;

verus! {

/// A decoded intermediate value with the absolute source index it came from.
#[derive(Clone, Copy, Debug, PartialEq, Eq, Hash)]
pub struct PendingValue<Value> {
    /// The value.
    pub value: Value,
    /// Absolute source input index of the value.
    pub input_index: usize,
}

impl<Value> PendingValue<Value> {
    /// Creates a pending value.
    pub fn new(value: Value, input_index: usize) -> (pending: Self)
        ensures
            pending == (PendingValue { value, input_index }),
    {
        PendingValue { value, input_index }
    }
}

/// Storage for at most one pending value between transcode calls.
#[derive(Clone, Copy, Debug, PartialEq, Eq, Hash)]
pub struct PendingValueSlot<Value> {
    value: Option<PendingValue<Value>>,
}

impl<Value> PendingValueSlot<Value> {
    /// The held pending value, if any.
    pub closed spec fn spec_value(&self) -> Option<PendingValue<Value>> {
        self.value
    }

    /// Creates an empty slot.
    pub fn empty() -> (slot: Self)
        ensures
            slot.spec_value() is None,
    {
        PendingValueSlot { value: None }
    }

    /// Drops any held value.
    pub fn clear(&mut self)
        ensures
            final(self).spec_value() is None,
    {
        self.value = None;
    }

    /// Removes and returns the held value.
    pub fn take(&mut self) -> (pending: Option<PendingValue<Value>>)
        ensures
            pending == old(self).spec_value(),
            final(self).spec_value() is None,
    {
        let pending = self.value.take();
        pending
    }

    /// Stores `pending`, replacing any held value.
    pub fn put(&mut self, pending: PendingValue<Value>)
        ensures
            final(self).spec_value() == Some(pending),
    {
        self.value = Some(pending);
    }

    /// The output bound the held value contributes to the next transcode
    /// call: the encoder's bound for one value, `per_value_bound`, when a
    /// value is held (any failure there is an overflow), and zero otherwise.
    pub fn max_transcode_output_len(&self, per_value_bound: Result<usize, CapacityError>) -> (bound:
        Result<usize, CapacityError>)
        ensures
            bound == (if self.spec_value() is Some {
                match per_value_bound {
                    Ok(units) => Ok(units),
                    Err(_) => Err(CapacityError::OutputLengthOverflow),
                }
            } else {
                Ok(0)
            }),
    {
        if self.value.is_some() {
            match per_value_bound {
                Ok(units) => Ok(units),
                Err(_) => Err(CapacityError::OutputLengthOverflow),
            }
        } else {
            Ok(0)
        }
    }
}

} // verus!
