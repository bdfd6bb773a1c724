//! Cursor state of one unit-to-unit conversion call.

use vstd::prelude::*;

use crate::num::NonZeroUsize;
use crate::transcode::transcode_progress::TranscodeProgress;
use crate::transcode::transcode_status::TranscodeStatus;
use super::decode_step::DecodeStep;
use super::encode_step::EncodeOutcome;
use super::pending_value::PendingValue;
use super::transcode_state::TranscodeState;

verus! {

/// What a conversion call does after applying one decode step.
#[derive(Clone, Copy, Debug, PartialEq, Eq, Hash)]
pub enum ConvertDecodeAction<Value> {
    /// Encode this decoded value into the target side, then continue.
    Encode(PendingValue<Value>),
    /// Continue decoding.
    Continue,
    /// Stop and report this progress.
    Stop(TranscodeProgress),
}

/// Cursor state of a call that converts source units into target units.
pub struct ConvertState<'a, Input> {
    state: TranscodeState<'a, Input>,
}

impl<'a, Input> ConvertState<'a, Input> {
    /// The underlying cursor state.
    pub closed spec fn spec_state(&self) -> TranscodeState<'a, Input> {
        self.state
    }

    /// Creates conversion state at the call's start indices.
    pub fn new(input: &'a [Input], input_index: usize, output_len: usize, output_index: usize) -> (state:
        Self)
        requires
            input_index <= input@.len(),
            output_index <= output_len,
        ensures
            state.spec_state().wf(),
            state.spec_state().spec_input() == input@,
            state.spec_state().spec_output_len() == output_len,
            state.spec_state().spec_input_cursor() == input_index,
            state.spec_state().spec_input_start() == input_index,
            state.spec_state().spec_output_cursor() == output_index,
            state.spec_state().spec_output_start() == output_index,
    {
        ConvertState { state: TranscodeState::new(input, input_index, output_len, output_index) }
    }

    /// Returns the input slice.
    pub fn input(&self) -> (input: &'a [Input])
        ensures
            input@ == self.spec_state().spec_input(),
    {
        self.state.input()
    }

    /// Returns the output cursor.
    pub fn output_cursor(&self) -> (index: usize)
        ensures
            index == self.spec_state().spec_output_cursor(),
    {
        self.state.output_cursor()
    }

    /// Returns whether unread input remains.
    pub fn has_input(&self) -> (result: bool)
        ensures
            result == (self.spec_state().spec_input_cursor() < self.spec_state().spec_input().len()),
    {
        self.state.has_input()
    }

    /// Returns the unread input units.
    pub fn available_input(&self) -> (available: usize)
        requires
            self.spec_state().wf(),
        ensures
            available == self.spec_state().spec_input().len()
                - self.spec_state().spec_input_cursor(),
    {
        self.state.available_input()
    }

    /// Returns the free output units.
    pub fn available_output(&self) -> (available: usize)
        requires
            self.spec_state().wf(),
        ensures
            available == self.spec_state().spec_output_len()
                - self.spec_state().spec_output_cursor(),
    {
        self.state.available_output()
    }

    /// Advances the input cursor by `read` units.
    pub fn advance_input(&mut self, read: usize)
        requires
            old(self).spec_state().wf(),
            read <= old(self).spec_state().spec_input().len() - old(
                self,
            ).spec_state().spec_input_cursor(),
        ensures
            final(self).spec_state().wf(),
            final(self).spec_state().same_call(&old(self).spec_state()),
            final(self).spec_state().spec_input_cursor() == old(self).spec_state().spec_input_cursor()
                + read,
            final(self).spec_state().spec_output_cursor()
                == old(self).spec_state().spec_output_cursor(),
    {
        self.state.advance_input(read);
    }

    /// Advances the output cursor by `written` units.
    pub fn advance_output(&mut self, written: usize)
        requires
            old(self).spec_state().wf(),
            written <= old(self).spec_state().spec_output_len() - old(
                self,
            ).spec_state().spec_output_cursor(),
        ensures
            final(self).spec_state().wf(),
            final(self).spec_state().same_call(&old(self).spec_state()),
            final(self).spec_state().spec_output_cursor() == old(self).spec_state().spec_output_cursor()
                + written,
            final(self).spec_state().spec_input_cursor()
                == old(self).spec_state().spec_input_cursor(),
    {
        self.state.advance_output(written);
    }

    /// Returns the input units consumed since the call started.
    pub fn read(&self) -> (read: usize)
        requires
            self.spec_state().wf(),
        ensures
            read == self.spec_state().spec_input_cursor() - self.spec_state().spec_input_start(),
    {
        self.state.read()
    }

    /// Returns the output units written since the call started.
    pub fn written(&self) -> (written: usize)
        requires
            self.spec_state().wf(),
        ensures
            written == self.spec_state().spec_output_cursor()
                - self.spec_state().spec_output_start(),
    {
        self.state.written()
    }

    /// Progress of a call that consumed all visible input.
    pub fn complete_progress(&self) -> (progress: TranscodeProgress)
        requires
            self.spec_state().wf(),
        ensures
            progress.spec_status() == TranscodeStatus::Complete,
            progress.spec_read() == self.spec_state().spec_input_cursor()
                - self.spec_state().spec_input_start(),
            progress.spec_written() == self.spec_state().spec_output_cursor()
                - self.spec_state().spec_output_start(),
    {
        self.state.complete_progress()
    }

    /// Progress of a call that stopped for more input.
    pub fn need_input_progress(&self, required: NonZeroUsize, available: usize) -> (progress:
        TranscodeProgress)
        requires
            self.spec_state().wf(),
        ensures
            progress.spec_status() == (TranscodeStatus::NeedInput {
                input_index: self.spec_state().spec_input_cursor(),
                required,
                available,
            }),
            progress.spec_read() == self.spec_state().spec_input_cursor()
                - self.spec_state().spec_input_start(),
            progress.spec_written() == self.spec_state().spec_output_cursor()
                - self.spec_state().spec_output_start(),
    {
        self.state.need_input_progress(required, available)
    }

    /// Progress of a call that stopped for more output room.
    pub fn need_output_progress(&self, required: NonZeroUsize, available: usize) -> (progress:
        TranscodeProgress)
        requires
            self.spec_state().wf(),
        ensures
            progress.spec_status() == (TranscodeStatus::NeedOutput {
                output_index: self.spec_state().spec_output_cursor(),
                required,
                available,
            }),
            progress.spec_read() == self.spec_state().spec_input_cursor()
                - self.spec_state().spec_input_start(),
            progress.spec_written() == self.spec_state().spec_output_cursor()
                - self.spec_state().spec_output_start(),
    {
        self.state.need_output_progress(required, available)
    }

    /// Applies one decode step: a decoded or skipped step advances the input
    /// cursor by the units it covered (a decoded value is then handed back
    /// for encoding), and a need-input step stops the call with the matching
    /// progress.
    pub fn apply_decode_step<Value>(&mut self, step: DecodeStep<Value>) -> (action:
        ConvertDecodeAction<Value>)
        requires
            old(self).spec_state().wf(),
            step matches DecodeStep::Decoded { consumed, .. } ==> consumed.spec_get() <= old(
                self,
            ).spec_state().spec_input().len() - old(self).spec_state().spec_input_cursor(),
            step matches DecodeStep::Skipped { consumed } ==> consumed.spec_get() <= old(
                self,
            ).spec_state().spec_input().len() - old(self).spec_state().spec_input_cursor(),
        ensures
            final(self).spec_state().wf(),
            final(self).spec_state().same_call(&old(self).spec_state()),
            final(self).spec_state().spec_output_cursor()
                == old(self).spec_state().spec_output_cursor(),
            match step {
                DecodeStep::Decoded { value, consumed, input_index } => {
                    &&& final(self).spec_state().spec_input_cursor() == old(
                        self,
                    ).spec_state().spec_input_cursor() + consumed.spec_get()
                    &&& action == ConvertDecodeAction::Encode(PendingValue { value, input_index })
                },
                DecodeStep::Skipped { consumed } => {
                    &&& final(self).spec_state().spec_input_cursor() == old(
                        self,
                    ).spec_state().spec_input_cursor() + consumed.spec_get()
                    &&& action == ConvertDecodeAction::<Value>::Continue
                },
                DecodeStep::NeedInput { required, available } => {
                    &&& final(self).spec_state() == old(self).spec_state()
                    &&& action matches ConvertDecodeAction::Stop(progress) && progress.spec_status()
                        == (TranscodeStatus::NeedInput {
                        input_index: old(self).spec_state().spec_input_cursor(),
                        required,
                        available,
                    }) && progress.spec_read() == old(self).spec_state().spec_input_cursor()
                        - old(self).spec_state().spec_input_start() && progress.spec_written()
                        == old(self).spec_state().spec_output_cursor() - old(
                        self,
                    ).spec_state().spec_output_start()
                },
            },
    {
        match step {
            DecodeStep::Decoded { value, consumed, input_index } => {
                self.advance_input(consumed.get());
                ConvertDecodeAction::Encode(PendingValue::new(value, input_index))
            },
            DecodeStep::Skipped { consumed } => {
                self.advance_input(consumed.get());
                ConvertDecodeAction::Continue
            },
            DecodeStep::NeedInput { required, available } => ConvertDecodeAction::Stop(
                self.need_input_progress(required, available),
            ),
        }
    }

    /// Applies what encoding a converted value reported: written units
    /// advance the output cursor, and a need-output outcome, which must ask
    /// for more than the free room, ends the call with the matching progress.
    pub fn apply_encode_outcome(&mut self, outcome: EncodeOutcome) -> (stop: Option<
        TranscodeProgress,
    >)
        requires
            old(self).spec_state().wf(),
            outcome matches EncodeOutcome::Consumed { written } ==> written <= old(
                self,
            ).spec_state().spec_output_len() - old(self).spec_state().spec_output_cursor(),
            outcome matches EncodeOutcome::NeedOutput { required } ==> required.spec_get() > old(
                self,
            ).spec_state().spec_output_len() - old(self).spec_state().spec_output_cursor(),
        ensures
            final(self).spec_state().wf(),
            final(self).spec_state().same_call(&old(self).spec_state()),
            match outcome {
                EncodeOutcome::Consumed { written } => {
                    &&& stop is None
                    &&& final(self).spec_state().spec_input_cursor() == old(
                        self,
                    ).spec_state().spec_input_cursor()
                    &&& final(self).spec_state().spec_output_cursor() == old(
                        self,
                    ).spec_state().spec_output_cursor() + written
                },
                EncodeOutcome::NeedOutput { required } => {
                    &&& final(self).spec_state() == old(self).spec_state()
                    &&& stop matches Some(progress) && progress.spec_status() == (
                    TranscodeStatus::NeedOutput {
                        output_index: old(self).spec_state().spec_output_cursor(),
                        required,
                        available: (old(self).spec_state().spec_output_len() - old(
                            self,
                        ).spec_state().spec_output_cursor()) as usize,
                    })
                },
            },
    {
        match outcome {
            EncodeOutcome::Consumed { written } => {
                self.advance_output(written);
                None
            },
            EncodeOutcome::NeedOutput { required } => {
                let available = self.available_output();
                Some(self.need_output_progress(required, available))
            },
        }
    }
}

} // verus!
