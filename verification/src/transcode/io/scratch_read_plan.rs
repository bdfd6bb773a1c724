//! The decisions of reading one codec value through caller-owned scratch
//! storage, used when the minimum value width exceeds the buffer capacity.
//!
//! The adapter owns the scratch vector and the input; it performs each
//! [`ScratchReadAction`] and reports a [`ScratchReadEvent`].

use vstd::prelude::*;

use crate::num::NonZeroUsize;
use super::read_value_plan::ReadValueViolation;

verus! {

/// What the adapter must do next.
#[derive(Clone, Copy, Debug, PartialEq, Eq, Hash, Structural)]
pub enum ScratchReadAction {
    /// Grow the scratch storage to `offset + count` units and read at most
    /// `count` units into it from `offset`.
    Read { offset: usize, count: usize },
    /// Decode one value from the first this-many scratch units.
    Decode(usize),
    /// Keep the loaded scratch units from this index on as unread input and
    /// return the decoded value.
    Accept(usize),
    /// Keep the loaded scratch units from this index on as unread input and
    /// return the codec's error.
    Reject(usize),
    /// Fail: the input ended inside a value.
    FailEndOfInput,
    /// Fail: the codec broke its contract.
    FailContract(ReadValueViolation),
}

/// What the adapter observed after performing an action.
#[derive(Clone, Copy, Debug, PartialEq, Eq, Hash, Structural)]
pub enum ScratchReadEvent {
    /// A read delivered this many units; zero means end of input.
    Read { read: usize },
    /// The codec decoded a value occupying `consumed` units.
    Decoded { consumed: NonZeroUsize },
    /// The codec needs `required_total` units before it can decide.
    Incomplete { required_total: NonZeroUsize },
    /// The codec rejected the input, with the units it knows to skip.
    Invalid { consumed: Option<NonZeroUsize> },
}

/// Where a scratch read stands.
#[derive(Clone, Copy, Debug, PartialEq, Eq, Hash, Structural)]
pub enum ScratchReadPhase {
    /// Waiting for a read into the scratch storage.
    Reading,
    /// Waiting for the codec's answer on the loaded units.
    Decoding,
    /// The read ended.
    Done,
}

/// The state of one scratch read.
#[derive(Clone, Copy, Debug, PartialEq, Eq, Hash, Structural)]
pub struct ScratchReadPlan {
    /// Fewest units any value occupies.
    pub min_units: usize,
    /// Units the codec currently needs.
    pub required_total: usize,
    /// Units loaded into the scratch storage.
    pub loaded: usize,
    /// Current phase.
    pub phase: ScratchReadPhase,
}

impl ScratchReadPlan {
    /// The facts every reachable state keeps.
    pub open spec fn wf(self) -> bool {
        &&& self.min_units <= self.required_total
        &&& self.loaded <= self.required_total
        &&& match self.phase {
            ScratchReadPhase::Reading => self.loaded < self.required_total,
            ScratchReadPhase::Decoding => self.loaded == self.required_total,
            ScratchReadPhase::Done => true,
        }
    }

    /// The events that can follow the current phase.
    pub open spec fn accepts(self, event: ScratchReadEvent) -> bool {
        match (self.phase, event) {
            (ScratchReadPhase::Reading, ScratchReadEvent::Read { read }) => self.loaded
                <= self.required_total && read <= self.required_total - self.loaded,
            (ScratchReadPhase::Decoding, ScratchReadEvent::Decoded { .. }) => true,
            (ScratchReadPhase::Decoding, ScratchReadEvent::Incomplete { .. }) => true,
            (ScratchReadPhase::Decoding, ScratchReadEvent::Invalid { .. }) => true,
            _ => false,
        }
    }

    /// Reads until `required_total` units are loaded, then decodes.
    pub open spec fn spec_load(self) -> (ScratchReadPlan, ScratchReadAction) {
        if self.loaded < self.required_total {
            (
                ScratchReadPlan { phase: ScratchReadPhase::Reading, ..self },
                ScratchReadAction::Read {
                    offset: self.loaded,
                    count: (self.required_total - self.loaded) as usize,
                },
            )
        } else {
            (
                ScratchReadPlan { phase: ScratchReadPhase::Decoding, ..self },
                ScratchReadAction::Decode(self.loaded),
            )
        }
    }

    /// The next state and action after `event`.
    pub open spec fn spec_next(self, event: ScratchReadEvent) -> (
        ScratchReadPlan,
        ScratchReadAction,
    ) {
        let done = ScratchReadPlan { phase: ScratchReadPhase::Done, ..self };
        match event {
            ScratchReadEvent::Read { read } => if read == 0 {
                (done, ScratchReadAction::FailEndOfInput)
            } else {
                ScratchReadPlan { loaded: (self.loaded + read) as usize, ..self }.spec_load()
            },
            ScratchReadEvent::Decoded { consumed } => if consumed.spec_get() > self.loaded {
                (done, ScratchReadAction::FailContract(ReadValueViolation::ConsumedBeyondWindow))
            } else {
                (done, ScratchReadAction::Accept(consumed.spec_get()))
            },
            ScratchReadEvent::Incomplete { required_total } => if required_total.spec_get()
                <= self.loaded {
                (done, ScratchReadAction::FailContract(ReadValueViolation::IncompleteWithinWindow))
            } else {
                ScratchReadPlan { required_total: required_total.spec_get(), ..self }.spec_load()
            },
            ScratchReadEvent::Invalid { consumed } => match consumed {
                Some(count) => if count.spec_get() > self.loaded {
                    (
                        done,
                        ScratchReadAction::FailContract(
                            ReadValueViolation::ErrorConsumedBeyondWindow,
                        ),
                    )
                } else {
                    (done, ScratchReadAction::Reject(count.spec_get()))
                },
                None => (done, ScratchReadAction::Reject(0)),
            },
        }
    }

    /// Starts reading one value that needs at least `min_units_per_value`
    /// units.
    pub fn start(min_units_per_value: usize) -> (result: (Self, ScratchReadAction))
        ensures
            result.0.wf(),
            result == (ScratchReadPlan {
                min_units: min_units_per_value,
                required_total: min_units_per_value,
                loaded: 0,
                phase: ScratchReadPhase::Reading,
            }).spec_load(),
    {
        ScratchReadPlan {
            min_units: min_units_per_value,
            required_total: min_units_per_value,
            loaded: 0,
            phase: ScratchReadPhase::Reading,
        }.load()
    }

    /// Reads until `required_total` units are loaded, then decodes.
    fn load(&self) -> (result: (Self, ScratchReadAction))
        requires
            self.min_units <= self.required_total,
            self.loaded <= self.required_total,
        ensures
            result == self.spec_load(),
            result.0.wf(),
    {
        if self.loaded < self.required_total {
            (
                ScratchReadPlan { phase: ScratchReadPhase::Reading, ..*self },
                ScratchReadAction::Read {
                    offset: self.loaded,
                    count: self.required_total - self.loaded,
                },
            )
        } else {
            (
                ScratchReadPlan { phase: ScratchReadPhase::Decoding, ..*self },
                ScratchReadAction::Decode(self.loaded),
            )
        }
    }

    /// Returns whether [`Self::next`] accepts `event` in the current phase:
    /// the check a driver makes before handing the event over.
    pub fn accepts_event(&self, event: ScratchReadEvent) -> (result: bool)
        ensures
            result == self.accepts(event),
    {
        match (self.phase, event) {
            (ScratchReadPhase::Reading, ScratchReadEvent::Read { read }) => self.loaded
                <= self.required_total && read <= self.required_total - self.loaded,
            (ScratchReadPhase::Decoding, ScratchReadEvent::Decoded { .. }) => true,
            (ScratchReadPhase::Decoding, ScratchReadEvent::Incomplete { .. }) => true,
            (ScratchReadPhase::Decoding, ScratchReadEvent::Invalid { .. }) => true,
            _ => false,
        }
    }

    /// Applies what the adapter observed and returns the next action.
    ///
    /// Every `Decode(len)` covers all `required_total` loaded units, at
    /// least `min_units`; every read asks for at least one unit and never
    /// past the units still needed; `Accept` and `Reject` never keep fewer
    /// than zero units.
    pub fn next(&mut self, event: ScratchReadEvent) -> (action: ScratchReadAction)
        requires
            old(self).wf(),
            old(self).accepts(event),
        ensures
            (*final(self), action) == old(self).spec_next(event),
            final(self).wf(),
            action matches ScratchReadAction::Decode(len) ==> len == final(self).required_total
                && final(self).min_units <= len,
            action matches ScratchReadAction::Read { offset, count } ==> offset
                == final(self).loaded && 0 < count && offset + count
                == final(self).required_total,
            action matches ScratchReadAction::Accept(count) ==> count <= old(self).loaded,
            action matches ScratchReadAction::Reject(count) ==> count <= old(self).loaded,
            old(self).phase is Decoding ==> match event {
                ScratchReadEvent::Decoded { consumed } => consumed.spec_get() <= old(self).loaded
                    ==> action == ScratchReadAction::Accept(consumed.spec_get()),
                ScratchReadEvent::Invalid { consumed: Some(count) } => count.spec_get()
                    <= old(self).loaded ==> action == ScratchReadAction::Reject(count.spec_get()),
                _ => true,
            },
    {
        let done = ScratchReadPlan { phase: ScratchReadPhase::Done, ..*self };
        let (plan, action) = match event {
            ScratchReadEvent::Read { read } => if read == 0 {
                (done, ScratchReadAction::FailEndOfInput)
            } else {
                ScratchReadPlan { loaded: self.loaded + read, ..*self }.load()
            },
            ScratchReadEvent::Decoded { consumed } => if consumed.get() > self.loaded {
                (done, ScratchReadAction::FailContract(ReadValueViolation::ConsumedBeyondWindow))
            } else {
                (done, ScratchReadAction::Accept(consumed.get()))
            },
            ScratchReadEvent::Incomplete { required_total } => if required_total.get()
                <= self.loaded {
                (done, ScratchReadAction::FailContract(ReadValueViolation::IncompleteWithinWindow))
            } else {
                ScratchReadPlan { required_total: required_total.get(), ..*self }.load()
            },
            ScratchReadEvent::Invalid { consumed } => match consumed {
                Some(count) => if count.get() > self.loaded {
                    (
                        done,
                        ScratchReadAction::FailContract(
                            ReadValueViolation::ErrorConsumedBeyondWindow,
                        ),
                    )
                } else {
                    (done, ScratchReadAction::Reject(count.get()))
                },
                None => (done, ScratchReadAction::Reject(0)),
            },
        };
        *self = plan;
        action
    }
}

/// A scratch read accepts exactly the units the codec reports for its value:
/// the units after them stay unread, so none is dropped; a rejected value
/// keeps everything after the units the codec knows to skip.
pub proof fn lemma_scratch_read_consumes_what_the_codec_reports(
    plan: ScratchReadPlan,
    event: ScratchReadEvent,
)
    ensures
        match event {
            ScratchReadEvent::Decoded { consumed } => consumed.spec_get() <= plan.loaded
                ==> plan.spec_next(event).1 == ScratchReadAction::Accept(consumed.spec_get()),
            ScratchReadEvent::Invalid { consumed: Some(count) } => count.spec_get() <= plan.loaded
                ==> plan.spec_next(event).1 == ScratchReadAction::Reject(count.spec_get()),
            _ => true,
        },
{
}

} // verus!
