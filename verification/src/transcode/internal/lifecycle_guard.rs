//! Enforcement of the `reset -> transcode -> finish` stream lifecycle.

use vstd::prelude::*;

use crate::transcode::transcode_failure::TranscodeFailure;
use super::lifecycle_phase::LifecyclePhase;

verus! {

/// The answer to a `transcode` call in `phase`, and the phase after it.
pub open spec fn transcode_transition(phase: LifecyclePhase) -> (
    Result<(), TranscodeFailure>,
    LifecyclePhase,
) {
    match phase {
        LifecyclePhase::Uninitialized => (Err(TranscodeFailure::TranscodeBeforeReset), phase),
        LifecyclePhase::Finished => (Err(TranscodeFailure::TranscodeAfterFinish), phase),
        LifecyclePhase::Poisoned => (Err(TranscodeFailure::LifecyclePoisoned), phase),
        LifecyclePhase::Fresh => (Ok(()), LifecyclePhase::Streaming),
        LifecyclePhase::Streaming => (Ok(()), LifecyclePhase::Streaming),
    }
}

/// The answer to a `finish` attempt in `phase`.
pub open spec fn finish_attempt_answer(phase: LifecyclePhase) -> Result<(), TranscodeFailure> {
    match phase {
        LifecyclePhase::Uninitialized => Err(TranscodeFailure::FinishBeforeReset),
        LifecyclePhase::Finished => Err(TranscodeFailure::FinishAfterFinish),
        LifecyclePhase::Poisoned => Err(TranscodeFailure::LifecyclePoisoned),
        LifecyclePhase::Fresh | LifecyclePhase::Streaming => Ok(()),
    }
}

/// Tracks the lifecycle phase of one transcoder and refuses calls that break
/// the `reset -> transcode -> finish` order.
///
/// Reset and finish are bracketed: starting either poisons the guard, and only
/// the matching success clears it, so a hook that fails midway leaves the
/// transcoder unusable until a successful reset.
#[derive(Debug)]
pub struct LifecycleGuard {
    phase: LifecyclePhase,
}

impl LifecycleGuard {
    /// The current phase.
    pub closed spec fn spec_phase(&self) -> LifecyclePhase {
        self.phase
    }

    /// Creates a guard for a transcoder that is ready for a new stream.
    pub fn new() -> (guard: Self)
        ensures
            guard.spec_phase() == LifecyclePhase::Fresh,
    {
        LifecycleGuard { phase: LifecyclePhase::Fresh }
    }

    /// Records that a reset started; until it succeeds the guard is poisoned.
    pub fn on_reset_start(&mut self)
        ensures
            final(self).spec_phase() == LifecyclePhase::Poisoned,
    {
        self.phase = LifecyclePhase::Poisoned;
    }

    /// Records a successful reset.
    pub fn on_reset_success(&mut self)
        ensures
            final(self).spec_phase() == LifecyclePhase::Fresh,
    {
        self.phase = LifecyclePhase::Fresh;
    }

    /// Checks and records a `transcode` call.
    pub fn on_transcode(&mut self) -> (result: Result<(), TranscodeFailure>)
        ensures
            (result, final(self).spec_phase()) == transcode_transition(old(self).spec_phase()),
    {
        match self.phase {
            LifecyclePhase::Uninitialized => {
                return Err(TranscodeFailure::TranscodeBeforeReset);
            },
            LifecyclePhase::Finished => {
                return Err(TranscodeFailure::TranscodeAfterFinish);
            },
            LifecyclePhase::Poisoned => {
                return Err(TranscodeFailure::LifecyclePoisoned);
            },
            LifecyclePhase::Fresh | LifecyclePhase::Streaming => {},
        }
        if self.phase == LifecyclePhase::Fresh {
            self.phase = LifecyclePhase::Streaming;
        }
        Ok(())
    }

    /// Checks whether `finish` may run in the current phase.
    pub fn on_finish_attempt(&self) -> (result: Result<(), TranscodeFailure>)
        ensures
            result == finish_attempt_answer(self.spec_phase()),
    {
        match self.phase {
            LifecyclePhase::Uninitialized => Err(TranscodeFailure::FinishBeforeReset),
            LifecyclePhase::Finished => Err(TranscodeFailure::FinishAfterFinish),
            LifecyclePhase::Poisoned => Err(TranscodeFailure::LifecyclePoisoned),
            LifecyclePhase::Fresh | LifecyclePhase::Streaming => Ok(()),
        }
    }

    /// Records that a finish started; until it succeeds the guard is poisoned.
    pub fn on_finish_start(&mut self)
        ensures
            final(self).spec_phase() == LifecyclePhase::Poisoned,
    {
        self.phase = LifecyclePhase::Poisoned;
    }

    /// Records a successful finish.
    pub fn on_finish_success(&mut self)
        ensures
            final(self).spec_phase() == LifecyclePhase::Finished,
    {
        self.phase = LifecyclePhase::Finished;
    }
}

impl Default for LifecycleGuard {
    /// Creates a guard for a transcoder that was never reset.
    fn default() -> (guard: Self)
        ensures
            guard.spec_phase() == LifecyclePhase::Uninitialized,
    {
        LifecycleGuard { phase: LifecyclePhase::Uninitialized }
    }
}

/// After a successful reset (which leaves the guard `Fresh` from any phase),
/// the stream accepts input and may be finished.
pub proof fn lemma_reset_enables_stream()
    ensures
        transcode_transition(LifecyclePhase::Fresh) == (
            Ok::<(), TranscodeFailure>(()),
            LifecyclePhase::Streaming,
        ),
        finish_attempt_answer(LifecyclePhase::Fresh) is Ok,
        finish_attempt_answer(transcode_transition(LifecyclePhase::Fresh).1) is Ok,
{
}

/// Any number of `transcode` calls leaves a streaming transcoder streaming,
/// and a refused call never changes the phase.
pub proof fn lemma_transcode_keeps_phase_or_streams(phase: LifecyclePhase)
    ensures
        transcode_transition(phase).0 is Err ==> transcode_transition(phase).1 == phase,
        transcode_transition(phase).0 is Ok ==> transcode_transition(phase).1
            == LifecyclePhase::Streaming,
{
}

/// Once finished, input and a second finish are refused until a reset.
pub proof fn lemma_finished_refuses_until_reset()
    ensures
        transcode_transition(LifecyclePhase::Finished) == (
            Err::<(), TranscodeFailure>(TranscodeFailure::TranscodeAfterFinish),
            LifecyclePhase::Finished,
        ),
        finish_attempt_answer(LifecyclePhase::Finished) == Err::<(), TranscodeFailure>(
            TranscodeFailure::FinishAfterFinish,
        ),
{
}

/// A reset or finish that started but did not succeed poisons the lifecycle:
/// every later input or finish is refused with
/// [`TranscodeFailure::LifecyclePoisoned`] until a reset succeeds.
pub proof fn lemma_interrupted_hook_poisons()
    ensures
        transcode_transition(LifecyclePhase::Poisoned) == (
            Err::<(), TranscodeFailure>(TranscodeFailure::LifecyclePoisoned),
            LifecyclePhase::Poisoned,
        ),
        finish_attempt_answer(LifecyclePhase::Poisoned) == Err::<(), TranscodeFailure>(
            TranscodeFailure::LifecyclePoisoned,
        ),
{
}

/// A transcoder that was never reset refuses input and finishing.
pub proof fn lemma_reset_required_first()
    ensures
        transcode_transition(LifecyclePhase::Uninitialized).0 == Err::<(), TranscodeFailure>(
            TranscodeFailure::TranscodeBeforeReset,
        ),
        finish_attempt_answer(LifecyclePhase::Uninitialized) == Err::<(), TranscodeFailure>(
            TranscodeFailure::FinishBeforeReset,
        ),
{
}

/// One recorded lifecycle event of a [`LifecycleGuard`].
pub enum LifecycleEvent {
    /// [`LifecycleGuard::on_reset_start`].
    ResetStart,
    /// [`LifecycleGuard::on_reset_success`].
    ResetSuccess,
    /// [`LifecycleGuard::on_transcode`].
    Transcode,
    /// [`LifecycleGuard::on_finish_start`].
    FinishStart,
    /// [`LifecycleGuard::on_finish_success`].
    FinishSuccess,
}

/// The phase the guard's recorder for `event` leaves after `phase`.
pub open spec fn lifecycle_step(phase: LifecyclePhase, event: LifecycleEvent) -> LifecyclePhase {
    match event {
        LifecycleEvent::ResetStart => LifecyclePhase::Poisoned,
        LifecycleEvent::ResetSuccess => LifecyclePhase::Fresh,
        LifecycleEvent::Transcode => transcode_transition(phase).1,
        LifecycleEvent::FinishStart => LifecyclePhase::Poisoned,
        LifecycleEvent::FinishSuccess => LifecyclePhase::Finished,
    }
}

/// The phase of a guard that was never reset after recording `events`.
pub open spec fn lifecycle_replay(events: Seq<LifecycleEvent>) -> LifecyclePhase
    decreases events.len(),
{
    if events.len() == 0 {
        LifecyclePhase::Uninitialized
    } else {
        lifecycle_step(lifecycle_replay(events.drop_last()), events.last())
    }
}

/// Some reset succeeded, and only `transcode` calls were recorded after the
/// last one: read from the end, the history is a run of `transcode` calls
/// preceded by a successful reset.
pub open spec fn streaming_since_reset(events: Seq<LifecycleEvent>) -> bool
    decreases events.len(),
{
    if events.len() == 0 {
        false
    } else {
        match events.last() {
            LifecycleEvent::ResetSuccess => true,
            LifecycleEvent::Transcode => streaming_since_reset(events.drop_last()),
            _ => false,
        }
    }
}

/// Over any history of a guard that started never reset, `transcode` and
/// `finish` are accepted exactly when a reset succeeded and nothing but
/// `transcode` calls followed the last one: a finish, or a reset or finish
/// that started, closes the stream until the next successful reset.
pub proof fn lemma_history_accepts_exactly_after_reset(events: Seq<LifecycleEvent>)
    ensures
        transcode_transition(lifecycle_replay(events)).0 is Ok <==> streaming_since_reset(events),
        finish_attempt_answer(lifecycle_replay(events)) is Ok <==> streaming_since_reset(events),
    decreases events.len(),
{
    if events.len() > 0 {
        lemma_history_accepts_exactly_after_reset(events.drop_last());
    }
}

} // verus!
