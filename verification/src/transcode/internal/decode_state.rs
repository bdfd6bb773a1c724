//! Cursor state of one decode transcode call.

use vstd::prelude::*;

use crate::num::NonZeroUsize;
use crate::transcode::transcode_progress::TranscodeProgress;
use crate::transcode::transcode_status::TranscodeStatus;
use super::decode_step::DecodeStep;
use super::transcode_state::TranscodeState;

verus! {

/// Cursor state of a call that decodes input units into output values.
pub struct DecodeState<'a, Unit> {
    state: TranscodeState<'a, Unit>,
}

impl<'a, Unit> DecodeState<'a, Unit> {
    /// The underlying cursor state.
    pub closed spec fn spec_state(&self) -> TranscodeState<'a, Unit> {
        self.state
    }

    /// Creates decode state at the call's start indices.
    pub fn new(input: &'a [Unit], input_index: usize, output_len: usize, output_index: usize) -> (state:
        Self)
        requires
            input_index <= input@.len(),
            output_index <= output_len,
        ensures
            state.spec_state().wf(),
            state.spec_state().spec_input() == input@,
            state.spec_state().spec_output_len() == output_len,
            state.spec_state().spec_input_cursor() == input_index,
            state.spec_state().spec_input_start() == input_index,
            state.spec_state().spec_output_cursor() == output_index,
            state.spec_state().spec_output_start() == output_index,
    {
        DecodeState { state: TranscodeState::new(input, input_index, output_len, output_index) }
    }

    /// Returns the input slice.
    pub fn input(&self) -> (input: &'a [Unit])
        ensures
            input@ == self.spec_state().spec_input(),
    {
        self.state.input()
    }

    /// Returns whether unread input remains.
    pub fn has_input(&self) -> (result: bool)
        ensures
            result == (self.spec_state().spec_input_cursor() < self.spec_state().spec_input().len()),
    {
        self.state.has_input()
    }

    /// Returns whether the output is full.
    pub fn needs_output(&self) -> (result: bool)
        ensures
            result == (self.spec_state().spec_output_cursor()
                == self.spec_state().spec_output_len()),
    {
        self.state.needs_output()
    }

    /// Returns the unread input units.
    pub fn available(&self) -> (available: usize)
        requires
            self.spec_state().wf(),
        ensures
            available == self.spec_state().spec_input().len()
                - self.spec_state().spec_input_cursor(),
    {
        self.state.available_input()
    }

    /// Skips `consumed` invalid input units.
    pub fn skip(&mut self, consumed: NonZeroUsize)
        requires
            old(self).spec_state().wf(),
            consumed.spec_get() <= old(self).spec_state().spec_input().len() - old(
                self,
            ).spec_state().spec_input_cursor(),
        ensures
            final(self).spec_state().wf(),
            final(self).spec_state().same_call(&old(self).spec_state()),
            final(self).spec_state().spec_input_cursor() == old(self).spec_state().spec_input_cursor()
                + consumed.spec_get(),
            final(self).spec_state().spec_output_cursor()
                == old(self).spec_state().spec_output_cursor(),
    {
        let consumed = consumed.get();
        self.state.advance_input(consumed);
    }

    /// Writes `value` at the output cursor and advances past its `consumed`
    /// input units.
    pub fn emit<Value>(&mut self, output: &mut [Value], value: Value, consumed: NonZeroUsize)
        requires
            old(self).spec_state().wf(),
            old(output)@.len() == old(self).spec_state().spec_output_len(),
            consumed.spec_get() <= old(self).spec_state().spec_input().len() - old(
                self,
            ).spec_state().spec_input_cursor(),
            old(self).spec_state().spec_output_cursor() < old(self).spec_state().spec_output_len(),
        ensures
            final(output)@ == old(output)@.update(
                old(self).spec_state().spec_output_cursor() as int,
                value,
            ),
            final(self).spec_state().wf(),
            final(self).spec_state().same_call(&old(self).spec_state()),
            final(self).spec_state().spec_input_cursor() == old(self).spec_state().spec_input_cursor()
                + consumed.spec_get(),
            final(self).spec_state().spec_output_cursor() == old(self).spec_state().spec_output_cursor()
                + 1,
    {
        let consumed = consumed.get();
        let output_cursor = self.state.output_cursor();
        output[output_cursor] = value;
        self.state.advance(consumed, 1);
    }

    /// Progress of a call that consumed all visible input.
    pub fn complete_progress(&self) -> (progress: TranscodeProgress)
        requires
            self.spec_state().wf(),
        ensures
            progress.spec_status() == TranscodeStatus::Complete,
            progress.spec_read() == self.spec_state().spec_input_cursor()
                - self.spec_state().spec_input_start(),
            progress.spec_written() == self.spec_state().spec_output_cursor()
                - self.spec_state().spec_output_start(),
    {
        self.state.complete_progress()
    }

    /// Progress of a call that filled its output: one more slot is needed.
    pub fn need_output_progress(&self) -> (progress: TranscodeProgress)
        requires
            self.spec_state().wf(),
        ensures
            progress.spec_status() matches TranscodeStatus::NeedOutput {
                output_index,
                required,
                available,
            } && output_index == self.spec_state().spec_output_cursor() && required.spec_get() == 1
                && available == 0,
            progress.spec_read() == self.spec_state().spec_input_cursor()
                - self.spec_state().spec_input_start(),
            progress.spec_written() == self.spec_state().spec_output_cursor()
                - self.spec_state().spec_output_start(),
    {
        self.state.need_output_progress(NonZeroUsize::one(), 0)
    }

    /// Progress of a call that stopped for more input.
    pub fn need_input_progress_with(&self, required: NonZeroUsize, available: usize) -> (progress:
        TranscodeProgress)
        requires
            self.spec_state().wf(),
        ensures
            progress.spec_status() == (TranscodeStatus::NeedInput {
                input_index: self.spec_state().spec_input_cursor(),
                required,
                available,
            }),
            progress.spec_read() == self.spec_state().spec_input_cursor()
                - self.spec_state().spec_input_start(),
            progress.spec_written() == self.spec_state().spec_output_cursor()
                - self.spec_state().spec_output_start(),
    {
        self.state.need_input_progress(required, available)
    }

    /// Applies one decode step: a decoded value is written and its units
    /// consumed, skipped units are consumed, and a need-input step ends the
    /// call with the matching progress.
    pub fn apply_decode_step<Value>(&mut self, output: &mut [Value], step: DecodeStep<Value>) -> (stop:
        Option<TranscodeProgress>)
        requires
            old(self).spec_state().wf(),
            old(output)@.len() == old(self).spec_state().spec_output_len(),
            step matches DecodeStep::Decoded { consumed, .. } ==> consumed.spec_get() <= old(
                self,
            ).spec_state().spec_input().len() - old(self).spec_state().spec_input_cursor()
                && old(self).spec_state().spec_output_cursor() < old(
                self,
            ).spec_state().spec_output_len(),
            step matches DecodeStep::Skipped { consumed } ==> consumed.spec_get() <= old(
                self,
            ).spec_state().spec_input().len() - old(self).spec_state().spec_input_cursor(),
        ensures
            final(self).spec_state().wf(),
            final(self).spec_state().same_call(&old(self).spec_state()),
            final(output)@.len() == old(output)@.len(),
            stop is Some <==> step is NeedInput,
            match step {
                DecodeStep::Decoded { value, consumed, .. } => {
                    &&& final(output)@ == old(output)@.update(
                        old(self).spec_state().spec_output_cursor() as int,
                        value,
                    )
                    &&& final(self).spec_state().spec_input_cursor() == old(
                        self,
                    ).spec_state().spec_input_cursor() + consumed.spec_get()
                    &&& final(self).spec_state().spec_output_cursor() == old(
                        self,
                    ).spec_state().spec_output_cursor() + 1
                },
                DecodeStep::Skipped { consumed } => {
                    &&& final(output)@ == old(output)@
                    &&& final(self).spec_state().spec_input_cursor() == old(
                        self,
                    ).spec_state().spec_input_cursor() + consumed.spec_get()
                    &&& final(self).spec_state().spec_output_cursor() == old(
                        self,
                    ).spec_state().spec_output_cursor()
                },
                DecodeStep::NeedInput { required, available } => {
                    &&& final(output)@ == old(output)@
                    &&& final(self).spec_state() == old(self).spec_state()
                    &&& stop matches Some(progress) && progress.spec_status() == (
                    TranscodeStatus::NeedInput {
                        input_index: old(self).spec_state().spec_input_cursor(),
                        required,
                        available,
                    }) && progress.spec_read() == old(self).spec_state().spec_input_cursor() - old(
                        self,
                    ).spec_state().spec_input_start() && progress.spec_written() == old(
                        self,
                    ).spec_state().spec_output_cursor() - old(self).spec_state().spec_output_start()
                },
            },
    {
        match step {
            DecodeStep::Decoded { value, consumed, .. } => {
                self.emit(output, value, consumed);
                None
            },
            DecodeStep::Skipped { consumed } => {
                self.skip(consumed);
                None
            },
            DecodeStep::NeedInput { required, available } => Some(
                self.need_input_progress_with(required, available),
            ),
        }
    }
}

} // verus!
