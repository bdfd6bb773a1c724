//! Cursor state of one encode transcode call.

use vstd::prelude::*;

use crate::num::NonZeroUsize;
use crate::transcode::transcode_progress::TranscodeProgress;
use crate::transcode::transcode_status::TranscodeStatus;
use super::encode_step::EncodeOutcome;
use super::transcode_state::TranscodeState;

verus! {

/// Cursor state of a call that encodes input values into output units.
pub struct EncodeState<'a, Value> {
    state: TranscodeState<'a, Value>,
}

impl<'a, Value> EncodeState<'a, Value> {
    /// The underlying cursor state.
    pub closed spec fn spec_state(&self) -> TranscodeState<'a, Value> {
        self.state
    }

    /// Creates encode state at the call's start indices.
    pub fn new(input: &'a [Value], input_index: usize, output_len: usize, output_index: usize) -> (state:
        Self)
        requires
            input_index <= input@.len(),
            output_index <= output_len,
        ensures
            state.spec_state().wf(),
            state.spec_state().spec_input() == input@,
            state.spec_state().spec_output_len() == output_len,
            state.spec_state().spec_input_cursor() == input_index,
            state.spec_state().spec_input_start() == input_index,
            state.spec_state().spec_output_cursor() == output_index,
            state.spec_state().spec_output_start() == output_index,
    {
        EncodeState { state: TranscodeState::new(input, input_index, output_len, output_index) }
    }

    /// Returns whether unread input values remain.
    pub fn has_input(&self) -> (result: bool)
        ensures
            result == (self.spec_state().spec_input_cursor() < self.spec_state().spec_input().len()),
    {
        self.state.has_input()
    }

    /// Returns the free output units.
    pub fn available_output(&self) -> (available: usize)
        requires
            self.spec_state().wf(),
        ensures
            available == self.spec_state().spec_output_len()
                - self.spec_state().spec_output_cursor(),
    {
        self.state.available_output()
    }

    /// Accepts one encoded value that wrote `written` units.
    pub fn accept_written_value(&mut self, written: usize)
        requires
            old(self).spec_state().wf(),
            old(self).spec_state().spec_input_cursor() < old(self).spec_state().spec_input().len(),
            written <= old(self).spec_state().spec_output_len() - old(
                self,
            ).spec_state().spec_output_cursor(),
        ensures
            final(self).spec_state().wf(),
            final(self).spec_state().same_call(&old(self).spec_state()),
            final(self).spec_state().spec_input_cursor() == old(self).spec_state().spec_input_cursor()
                + 1,
            final(self).spec_state().spec_output_cursor() == old(self).spec_state().spec_output_cursor()
                + written,
    {
        self.state.advance(1, written);
    }

    /// Progress of a call that consumed all visible input.
    pub fn complete_progress(&self) -> (progress: TranscodeProgress)
        requires
            self.spec_state().wf(),
        ensures
            progress.spec_status() == TranscodeStatus::Complete,
            progress.spec_read() == self.spec_state().spec_input_cursor()
                - self.spec_state().spec_input_start(),
            progress.spec_written() == self.spec_state().spec_output_cursor()
                - self.spec_state().spec_output_start(),
    {
        self.state.complete_progress()
    }

    /// Progress of a call that stopped for more output room.
    pub fn need_output_progress_with(&self, required: NonZeroUsize, available: usize) -> (progress:
        TranscodeProgress)
        requires
            self.spec_state().wf(),
        ensures
            progress.spec_status() == (TranscodeStatus::NeedOutput {
                output_index: self.spec_state().spec_output_cursor(),
                required,
                available,
            }),
            progress.spec_read() == self.spec_state().spec_input_cursor()
                - self.spec_state().spec_input_start(),
            progress.spec_written() == self.spec_state().spec_output_cursor()
                - self.spec_state().spec_output_start(),
    {
        self.state.need_output_progress(required, available)
    }

    /// Applies what encoding the value at the cursor reported: a consumed
    /// value advances both cursors, and a need-output outcome, which must ask
    /// for more than the free room, ends the call with the matching progress.
    pub fn apply_encode_outcome(&mut self, outcome: EncodeOutcome) -> (stop: Option<
        TranscodeProgress,
    >)
        requires
            old(self).spec_state().wf(),
            outcome matches EncodeOutcome::Consumed { written } ==> old(
                self,
            ).spec_state().spec_input_cursor() < old(self).spec_state().spec_input().len()
                && written <= old(self).spec_state().spec_output_len() - old(
                self,
            ).spec_state().spec_output_cursor(),
            outcome matches EncodeOutcome::NeedOutput { required } ==> required.spec_get() > old(
                self,
            ).spec_state().spec_output_len() - old(self).spec_state().spec_output_cursor(),
        ensures
            final(self).spec_state().wf(),
            final(self).spec_state().same_call(&old(self).spec_state()),
            match outcome {
                EncodeOutcome::Consumed { written } => {
                    &&& stop is None
                    &&& final(self).spec_state().spec_input_cursor() == old(
                        self,
                    ).spec_state().spec_input_cursor() + 1
                    &&& final(self).spec_state().spec_output_cursor() == old(
                        self,
                    ).spec_state().spec_output_cursor() + written
                },
                EncodeOutcome::NeedOutput { required } => {
                    &&& final(self).spec_state() == old(self).spec_state()
                    &&& stop matches Some(progress) && progress.spec_status() == (
                    TranscodeStatus::NeedOutput {
                        output_index: old(self).spec_state().spec_output_cursor(),
                        required,
                        available: (old(self).spec_state().spec_output_len() - old(
                            self,
                        ).spec_state().spec_output_cursor()) as usize,
                    })
                },
            },
    {
        match outcome {
            EncodeOutcome::Consumed { written } => {
                self.accept_written_value(written);
                None
            },
            EncodeOutcome::NeedOutput { required } => {
                let available = self.available_output();
                Some(self.need_output_progress_with(required, available))
            },
        }
    }
}

} // verus!
