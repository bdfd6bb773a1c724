//! The decisions of reading one codec value from a buffered unit input.
//!
//! The adapter owns the buffer and performs each [`ReadValueAction`]; it
//! reports what happened as a [`ReadValueEvent`] and asks the plan for the
//! next action, until the plan accepts, rejects or fails.

use vstd::prelude::*;

use crate::num::NonZeroUsize;

verus! {

/// A codec report that contradicts the window it was given.
#[derive(Clone, Copy, Debug, PartialEq, Eq, Hash, Structural)]
pub enum ReadValueViolation {
    /// A decoded value claims more units than the window held.
    ConsumedBeyondWindow,
    /// The codec asked for no more units than the window already held.
    IncompleteWithinWindow,
    /// An invalid-input report claims more units than the window held.
    ErrorConsumedBeyondWindow,
}

/// What the adapter must do next.
#[derive(Clone, Copy, Debug, PartialEq, Eq, Hash, Structural)]
pub enum ReadValueAction {
    /// Reserve buffer capacity for this many units.
    Reserve(usize),
    /// Fill the buffer until this many units are unread, or end of input.
    FillUntil(usize),
    /// Decode one value from this many leading unread units.
    Decode(usize),
    /// Consume this many units and return the decoded value.
    Accept(usize),
    /// Consume this many units and return the codec's error.
    Reject(usize),
    /// Consume every unread unit and fail: the input ended inside a value.
    FailEndOfInput,
    /// Fail: the codec broke its contract.
    FailContract(ReadValueViolation),
}

/// What the adapter observed after performing an action.
#[derive(Clone, Copy, Debug, PartialEq, Eq, Hash, Structural)]
pub enum ReadValueEvent {
    /// Capacity was reserved; the buffer now has this capacity and holds
    /// this many unread units.
    Reserved { capacity: usize, unread: usize },
    /// A fill returned whether it reached its target, and the unread count.
    Filled { reached: bool, unread: usize },
    /// The codec decoded a value occupying `consumed` units.
    Decoded { consumed: NonZeroUsize },
    /// The codec needs `required_total` units before it can decide.
    Incomplete { required_total: NonZeroUsize },
    /// The codec rejected the input, with the units it knows to skip.
    Invalid { consumed: Option<NonZeroUsize> },
}

/// Where a read stands.
#[derive(Clone, Copy, Debug, PartialEq, Eq, Hash, Structural)]
pub enum ReadValuePhase {
    /// Waiting for the first capacity reservation.
    AwaitReserve,
    /// Waiting for the reservation before refilling to `target` units.
    AwaitRefillReserve { target: usize },
    /// Waiting for the fill to the minimum value width.
    AwaitMinimumFill,
    /// Waiting for the fill to the maximum value width.
    AwaitWindowFill,
    /// Waiting for the codec's answer on a window of `window` units.
    AwaitDecode { window: usize },
    /// Waiting for the refill to `target` units.
    AwaitRefill { target: usize },
    /// The read ended.
    Done,
}

/// The state of one value read.
#[derive(Clone, Copy, Debug, PartialEq, Eq, Hash, Structural)]
pub struct ReadValuePlan {
    /// Fewest units any value occupies.
    pub min_units: usize,
    /// Most units one decode may look at: the larger of the codec's decode
    /// bound and `min_units`.
    pub max_units: usize,
    /// The codec's bound on the units one decoded value occupies.
    pub max_decode_units: usize,
    /// Buffer capacity last reported.
    pub capacity: usize,
    /// Unread units last reported.
    pub unread: usize,
    /// Current phase.
    pub phase: ReadValuePhase,
}

impl ReadValuePlan {
    /// The facts every reachable state keeps.
    pub open spec fn wf(self) -> bool {
        &&& self.min_units <= self.max_units
        &&& self.max_decode_units <= self.max_units
        &&& match self.phase {
            ReadValuePhase::AwaitWindowFill => self.min_units <= self.unread < self.max_units,
            ReadValuePhase::AwaitDecode { window } => {
                &&& self.min_units <= self.unread
                &&& window == if self.unread < self.max_units {
                    self.unread
                } else {
                    self.max_units
                }
            },
            ReadValuePhase::AwaitRefillReserve { target } => self.unread < target
                <= self.max_units,
            ReadValuePhase::AwaitRefill { target } => self.unread < target <= self.max_units,
            _ => true,
        }
    }

    /// The events that can follow the current phase: the one the pending
    /// action produces, with what the buffer and codec guarantee of it.
    pub open spec fn accepts(self, event: ReadValueEvent) -> bool {
        match (self.phase, event) {
            (ReadValuePhase::AwaitReserve, ReadValueEvent::Reserved { capacity, unread }) => {
                capacity >= self.min_units && unread == self.unread
            },
            (
                ReadValuePhase::AwaitRefillReserve { target },
                ReadValueEvent::Reserved { capacity, unread },
            ) => capacity >= target && unread == self.unread,
            (ReadValuePhase::AwaitMinimumFill, ReadValueEvent::Filled { reached, unread }) => {
                unread >= self.unread && (reached ==> unread >= self.min_units)
            },
            (ReadValuePhase::AwaitWindowFill, ReadValueEvent::Filled { reached, unread }) => {
                unread >= self.unread
            },
            (ReadValuePhase::AwaitRefill { target }, ReadValueEvent::Filled { reached, unread }) => {
                unread >= self.unread && (reached ==> unread >= target)
            },
            (ReadValuePhase::AwaitDecode { .. }, ReadValueEvent::Decoded { .. }) => true,
            (
                ReadValuePhase::AwaitDecode { .. },
                ReadValueEvent::Incomplete { required_total },
            ) => required_total.spec_get() <= self.max_decode_units,
            (ReadValuePhase::AwaitDecode { .. }, ReadValueEvent::Invalid { .. }) => true,
            _ => false,
        }
    }

    /// Chooses the window once `unread >= min_units` units are buffered:
    /// fill to the maximum width when the buffer can hold it, else decode.
    pub open spec fn spec_window(self) -> (ReadValuePlan, ReadValueAction) {
        if self.unread < self.max_units && self.max_units <= self.capacity {
            (
                ReadValuePlan { phase: ReadValuePhase::AwaitWindowFill, ..self },
                ReadValueAction::FillUntil(self.max_units),
            )
        } else {
            let window = if self.unread < self.max_units {
                self.unread
            } else {
                self.max_units
            };
            (
                ReadValuePlan { phase: ReadValuePhase::AwaitDecode { window }, ..self },
                ReadValueAction::Decode(window),
            )
        }
    }

    /// Starts an attempt with `self.unread` units buffered: fill to the
    /// minimum width first when fewer are buffered.
    pub open spec fn spec_attempt(self) -> (ReadValuePlan, ReadValueAction) {
        if self.unread < self.min_units {
            (
                ReadValuePlan { phase: ReadValuePhase::AwaitMinimumFill, ..self },
                ReadValueAction::FillUntil(self.min_units),
            )
        } else {
            self.spec_window()
        }
    }

    /// The next state and action after `event`.
    pub open spec fn spec_next(self, event: ReadValueEvent) -> (ReadValuePlan, ReadValueAction) {
        let done = ReadValuePlan { phase: ReadValuePhase::Done, ..self };
        match (self.phase, event) {
            (ReadValuePhase::AwaitReserve, ReadValueEvent::Reserved { capacity, unread }) => {
                ReadValuePlan { capacity, unread, ..self }.spec_attempt()
            },
            (
                ReadValuePhase::AwaitRefillReserve { target },
                ReadValueEvent::Reserved { capacity, unread },
            ) => (
                ReadValuePlan {
                    capacity,
                    unread,
                    phase: ReadValuePhase::AwaitRefill { target },
                    ..self
                },
                ReadValueAction::FillUntil(target),
            ),
            (ReadValuePhase::AwaitMinimumFill, ReadValueEvent::Filled { reached, unread }) => {
                if reached {
                    ReadValuePlan { unread, ..self }.spec_window()
                } else {
                    (ReadValuePlan { unread, ..done }, ReadValueAction::FailEndOfInput)
                }
            },
            (ReadValuePhase::AwaitWindowFill, ReadValueEvent::Filled { unread, .. }) => {
                let window = if unread < self.max_units {
                    unread
                } else {
                    self.max_units
                };
                (
                    ReadValuePlan {
                        unread,
                        phase: ReadValuePhase::AwaitDecode { window },
                        ..self
                    },
                    ReadValueAction::Decode(window),
                )
            },
            (ReadValuePhase::AwaitRefill { .. }, ReadValueEvent::Filled { reached, unread }) => {
                if reached {
                    ReadValuePlan { unread, ..self }.spec_attempt()
                } else {
                    (ReadValuePlan { unread, ..done }, ReadValueAction::FailEndOfInput)
                }
            },
            (ReadValuePhase::AwaitDecode { window }, ReadValueEvent::Decoded { consumed }) => {
                if consumed.spec_get() > window {
                    (
                        done,
                        ReadValueAction::FailContract(ReadValueViolation::ConsumedBeyondWindow),
                    )
                } else {
                    (done, ReadValueAction::Accept(consumed.spec_get()))
                }
            },
            (
                ReadValuePhase::AwaitDecode { window },
                ReadValueEvent::Incomplete { required_total },
            ) => {
                if window >= required_total.spec_get() {
                    (
                        done,
                        ReadValueAction::FailContract(ReadValueViolation::IncompleteWithinWindow),
                    )
                } else {
                    (
                        ReadValuePlan {
                            phase: ReadValuePhase::AwaitRefillReserve {
                                target: required_total.spec_get(),
                            },
                            ..self
                        },
                        ReadValueAction::Reserve(required_total.spec_get()),
                    )
                }
            },
            (ReadValuePhase::AwaitDecode { window }, ReadValueEvent::Invalid { consumed }) => {
                match consumed {
                    Some(count) => if count.spec_get() > window {
                        (
                            done,
                            ReadValueAction::FailContract(
                                ReadValueViolation::ErrorConsumedBeyondWindow,
                            ),
                        )
                    } else {
                        (done, ReadValueAction::Reject(count.spec_get()))
                    },
                    None => (done, ReadValueAction::Reject(0)),
                }
            },
            _ => (done, ReadValueAction::FailEndOfInput),
        }
    }

    /// Starts reading one value with `unread` units already buffered; the
    /// first action reserves capacity for the minimum value width.
    pub fn start(min_units_per_value: usize, max_decode_units_per_value: usize, unread: usize) -> (
        result: (Self, ReadValueAction))
        ensures
            result.0.wf(),
            result.0 == (ReadValuePlan {
                min_units: min_units_per_value,
                max_units: if max_decode_units_per_value < min_units_per_value {
                    min_units_per_value
                } else {
                    max_decode_units_per_value
                },
                max_decode_units: max_decode_units_per_value,
                capacity: 0,
                unread,
                phase: ReadValuePhase::AwaitReserve,
            }),
            result.1 == ReadValueAction::Reserve(min_units_per_value),
    {
        let max_units = if max_decode_units_per_value < min_units_per_value {
            min_units_per_value
        } else {
            max_decode_units_per_value
        };
        (
            ReadValuePlan {
                min_units: min_units_per_value,
                max_units,
                max_decode_units: max_decode_units_per_value,
                capacity: 0,
                unread,
                phase: ReadValuePhase::AwaitReserve,
            },
            ReadValueAction::Reserve(min_units_per_value),
        )
    }

    /// Chooses the window once at least `min_units` units are buffered.
    fn window(&self) -> (result: (Self, ReadValueAction))
        requires
            self.min_units <= self.max_units,
            self.max_decode_units <= self.max_units,
            self.min_units <= self.unread,
        ensures
            result == self.spec_window(),
            result.0.wf(),
    {
        if self.unread < self.max_units && self.max_units <= self.capacity {
            (
                ReadValuePlan { phase: ReadValuePhase::AwaitWindowFill, ..*self },
                ReadValueAction::FillUntil(self.max_units),
            )
        } else {
            let window = if self.unread < self.max_units {
                self.unread
            } else {
                self.max_units
            };
            (
                ReadValuePlan { phase: ReadValuePhase::AwaitDecode { window }, ..*self },
                ReadValueAction::Decode(window),
            )
        }
    }

    /// Starts an attempt with the currently buffered units.
    fn attempt(&self) -> (result: (Self, ReadValueAction))
        requires
            self.min_units <= self.max_units,
            self.max_decode_units <= self.max_units,
        ensures
            result == self.spec_attempt(),
            result.0.wf(),
    {
        if self.unread < self.min_units {
            (
                ReadValuePlan { phase: ReadValuePhase::AwaitMinimumFill, ..*self },
                ReadValueAction::FillUntil(self.min_units),
            )
        } else {
            self.window()
        }
    }

    /// Returns whether [`Self::next`] accepts `event` in the current phase:
    /// the check a driver makes before handing the event over.
    pub fn accepts_event(&self, event: ReadValueEvent) -> (result: bool)
        ensures
            result == self.accepts(event),
    {
        match (self.phase, event) {
            (ReadValuePhase::AwaitReserve, ReadValueEvent::Reserved { capacity, unread }) => {
                capacity >= self.min_units && unread == self.unread
            },
            (
                ReadValuePhase::AwaitRefillReserve { target },
                ReadValueEvent::Reserved { capacity, unread },
            ) => capacity >= target && unread == self.unread,
            (ReadValuePhase::AwaitMinimumFill, ReadValueEvent::Filled { reached, unread }) => {
                unread >= self.unread && (!reached || unread >= self.min_units)
            },
            (ReadValuePhase::AwaitWindowFill, ReadValueEvent::Filled { unread, .. }) => {
                unread >= self.unread
            },
            (ReadValuePhase::AwaitRefill { target }, ReadValueEvent::Filled { reached, unread }) => {
                unread >= self.unread && (!reached || unread >= target)
            },
            (ReadValuePhase::AwaitDecode { .. }, ReadValueEvent::Decoded { .. }) => true,
            (
                ReadValuePhase::AwaitDecode { .. },
                ReadValueEvent::Incomplete { required_total },
            ) => required_total.get() <= self.max_decode_units,
            (ReadValuePhase::AwaitDecode { .. }, ReadValueEvent::Invalid { .. }) => true,
            _ => false,
        }
    }

    /// Applies what the adapter observed and returns the next action.
    ///
    /// Every `Decode(window)` asked for covers at least `min_units` and at
    /// most `max_units` buffered units; every `Accept` or `Reject` consumes
    /// no more than the decoded window; every fill asks for more units than
    /// are buffered, and a refill asks for more than the window it follows.
    pub fn next(&mut self, event: ReadValueEvent) -> (action: ReadValueAction)
        requires
            old(self).wf(),
            old(self).accepts(event),
        ensures
            (*final(self), action) == old(self).spec_next(event),
            final(self).wf(),
            action matches ReadValueAction::Decode(window) ==> final(self).min_units <= window
                <= final(self).max_units && window <= final(self).unread,
            action matches ReadValueAction::FillUntil(target) ==> final(self).unread < target,
            action matches ReadValueAction::Accept(count) ==> old(self).phase matches ReadValuePhase::AwaitDecode { window } && count <= window,
            action matches ReadValueAction::Reject(count) ==> old(self).phase matches ReadValuePhase::AwaitDecode { window } && count <= window,
            action matches ReadValueAction::Reserve(target) ==> (old(self).phase matches ReadValuePhase::AwaitDecode { window } ==> window < target),
            old(self).phase is AwaitDecode ==> match event {
                ReadValueEvent::Decoded { consumed } => consumed.spec_get()
                    <= old(self).phase->window ==> action == ReadValueAction::Accept(
                    consumed.spec_get(),
                ),
                ReadValueEvent::Invalid { consumed: Some(count) } => count.spec_get()
                    <= old(self).phase->window ==> action == ReadValueAction::Reject(
                    count.spec_get(),
                ),
                ReadValueEvent::Invalid { consumed: None } => action == ReadValueAction::Reject(0),
                _ => true,
            },
    {
        let done = ReadValuePlan { phase: ReadValuePhase::Done, ..*self };
        let (plan, action) = match (self.phase, event) {
            (ReadValuePhase::AwaitReserve, ReadValueEvent::Reserved { capacity, unread }) => {
                ReadValuePlan { capacity, unread, ..*self }.attempt()
            },
            (
                ReadValuePhase::AwaitRefillReserve { target },
                ReadValueEvent::Reserved { capacity, unread },
            ) => (
                ReadValuePlan {
                    capacity,
                    unread,
                    phase: ReadValuePhase::AwaitRefill { target },
                    ..*self
                },
                ReadValueAction::FillUntil(target),
            ),
            (ReadValuePhase::AwaitMinimumFill, ReadValueEvent::Filled { reached, unread }) => {
                if reached {
                    ReadValuePlan { unread, ..*self }.window()
                } else {
                    (ReadValuePlan { unread, ..done }, ReadValueAction::FailEndOfInput)
                }
            },
            (ReadValuePhase::AwaitWindowFill, ReadValueEvent::Filled { unread, .. }) => {
                let window = if unread < self.max_units {
                    unread
                } else {
                    self.max_units
                };
                (
                    ReadValuePlan {
                        unread,
                        phase: ReadValuePhase::AwaitDecode { window },
                        ..*self
                    },
                    ReadValueAction::Decode(window),
                )
            },
            (ReadValuePhase::AwaitRefill { .. }, ReadValueEvent::Filled { reached, unread }) => {
                if reached {
                    ReadValuePlan { unread, ..*self }.attempt()
                } else {
                    (ReadValuePlan { unread, ..done }, ReadValueAction::FailEndOfInput)
                }
            },
            (ReadValuePhase::AwaitDecode { window }, ReadValueEvent::Decoded { consumed }) => {
                if consumed.get() > window {
                    (
                        done,
                        ReadValueAction::FailContract(ReadValueViolation::ConsumedBeyondWindow),
                    )
                } else {
                    (done, ReadValueAction::Accept(consumed.get()))
                }
            },
            (
                ReadValuePhase::AwaitDecode { window },
                ReadValueEvent::Incomplete { required_total },
            ) => {
                if window >= required_total.get() {
                    (
                        done,
                        ReadValueAction::FailContract(ReadValueViolation::IncompleteWithinWindow),
                    )
                } else {
                    (
                        ReadValuePlan {
                            phase: ReadValuePhase::AwaitRefillReserve {
                                target: required_total.get(),
                            },
                            ..*self
                        },
                        ReadValueAction::Reserve(required_total.get()),
                    )
                }
            },
            (ReadValuePhase::AwaitDecode { window }, ReadValueEvent::Invalid { consumed }) => {
                match consumed {
                    Some(count) => if count.get() > window {
                        (
                            done,
                            ReadValueAction::FailContract(
                                ReadValueViolation::ErrorConsumedBeyondWindow,
                            ),
                        )
                    } else {
                        (done, ReadValueAction::Reject(count.get()))
                    },
                    None => (done, ReadValueAction::Reject(0)),
                }
            },
            _ => (done, ReadValueAction::FailEndOfInput),
        };
        *self = plan;
        action
    }
}

/// A read accepts exactly the units the codec reports for its value: when
/// the codec decodes a value from the window it was given, the read consumes
/// the units the value occupied, no more and no fewer, so the next read
/// starts right after them; a rejected value consumes exactly the units the
/// codec knows to skip, or none.
pub proof fn lemma_read_consumes_what_the_codec_reports(plan: ReadValuePlan, event: ReadValueEvent)
    requires
        plan.phase is AwaitDecode,
    ensures
        match event {
            ReadValueEvent::Decoded { consumed } => consumed.spec_get() <= plan.phase->window
                ==> plan.spec_next(event).1 == ReadValueAction::Accept(consumed.spec_get()),
            ReadValueEvent::Invalid { consumed: Some(count) } => count.spec_get()
                <= plan.phase->window ==> plan.spec_next(event).1 == ReadValueAction::Reject(
                count.spec_get(),
            ),
            ReadValueEvent::Invalid { consumed: None } => plan.spec_next(event).1
                == ReadValueAction::Reject(0),
            _ => true,
        },
{
}

} // verus!
