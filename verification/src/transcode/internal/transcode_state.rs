//! Input and output cursors of one transcode call.

use vstd::prelude::*;

use crate::num::NonZeroUsize;
use crate::transcode::transcode_progress::TranscodeProgress;
use crate::transcode::transcode_status::TranscodeStatus;

verus! {

/// Cursor bookkeeping for one transcode call over `input` and an output slice
/// of `output_len` units.
///
/// Both cursors start at the call's indices and only move forward, never past
/// the end of their buffer; the progress values it builds therefore always
/// satisfy [`TranscodeProgress::validate`] for the call's bounds.
pub struct TranscodeState<'a, Input> {
    input: &'a [Input],
    output_len: usize,
    input_start: usize,
    output_start: usize,
    input_cursor: usize,
    output_cursor: usize,
}

impl<'a, Input> TranscodeState<'a, Input> {
    /// The input slice of the call.
    pub closed spec fn spec_input(&self) -> Seq<Input> {
        self.input@
    }

    /// The output length of the call.
    pub closed spec fn spec_output_len(&self) -> usize {
        self.output_len
    }

    /// The input index the call started at.
    pub closed spec fn spec_input_start(&self) -> usize {
        self.input_start
    }

    /// The output index the call started at.
    pub closed spec fn spec_output_start(&self) -> usize {
        self.output_start
    }

    /// The current input cursor.
    pub closed spec fn spec_input_cursor(&self) -> usize {
        self.input_cursor
    }

    /// The current output cursor.
    pub closed spec fn spec_output_cursor(&self) -> usize {
        self.output_cursor
    }

    /// Cursors lie between their start and the end of their buffer.
    pub open spec fn wf(&self) -> bool {
        &&& self.spec_input_start() <= self.spec_input_cursor() <= self.spec_input().len()
        &&& self.spec_input().len() <= usize::MAX
        &&& self.spec_output_start() <= self.spec_output_cursor() <= self.spec_output_len()
    }

    /// Creates cursor state at the call's start indices.
    pub fn new(input: &'a [Input], input_index: usize, output_len: usize, output_index: usize) -> (state:
        Self)
        requires
            input_index <= input@.len(),
            output_index <= output_len,
        ensures
            state.wf(),
            state.spec_input() == input@,
            state.spec_output_len() == output_len,
            state.spec_input_start() == input_index,
            state.spec_input_cursor() == input_index,
            state.spec_output_start() == output_index,
            state.spec_output_cursor() == output_index,
    {
        let _input_len = input.len();
        TranscodeState {
            input,
            output_len,
            input_start: input_index,
            output_start: output_index,
            input_cursor: input_index,
            output_cursor: output_index,
        }
    }

    /// Returns the input slice.
    pub fn input(&self) -> (input: &'a [Input])
        ensures
            input@ == self.spec_input(),
    {
        self.input
    }

    /// Returns the input index the call started at.
    pub fn input_start(&self) -> (index: usize)
        ensures
            index == self.spec_input_start(),
    {
        self.input_start
    }

    /// Returns the output index the call started at.
    pub fn output_start(&self) -> (index: usize)
        ensures
            index == self.spec_output_start(),
    {
        self.output_start
    }

    /// Returns the current input cursor.
    pub fn input_cursor(&self) -> (index: usize)
        ensures
            index == self.spec_input_cursor(),
    {
        self.input_cursor
    }

    /// Returns the current output cursor.
    pub fn output_cursor(&self) -> (index: usize)
        ensures
            index == self.spec_output_cursor(),
    {
        self.output_cursor
    }

    /// Returns whether unread input remains.
    pub fn has_input(&self) -> (result: bool)
        ensures
            result == (self.spec_input_cursor() < self.spec_input().len()),
    {
        self.input_cursor < self.input.len()
    }

    /// Returns whether the output is full.
    pub fn needs_output(&self) -> (result: bool)
        ensures
            result == (self.spec_output_cursor() == self.spec_output_len()),
    {
        self.output_cursor == self.output_len
    }

    /// Returns the unread input units.
    pub fn available_input(&self) -> (available: usize)
        requires
            self.wf(),
        ensures
            available == self.spec_input().len() - self.spec_input_cursor(),
    {
        self.input.len() - self.input_cursor
    }

    /// Returns the free output slots.
    pub fn available_output(&self) -> (available: usize)
        requires
            self.wf(),
        ensures
            available == self.spec_output_len() - self.spec_output_cursor(),
    {
        self.output_len - self.output_cursor
    }

    /// Returns the input units consumed since the call started.
    pub fn read(&self) -> (read: usize)
        requires
            self.wf(),
        ensures
            read == self.spec_input_cursor() - self.spec_input_start(),
    {
        self.input_cursor - self.input_start
    }

    /// Returns the output units written since the call started.
    pub fn written(&self) -> (written: usize)
        requires
            self.wf(),
        ensures
            written == self.spec_output_cursor() - self.spec_output_start(),
    {
        self.output_cursor - self.output_start
    }

    /// Moves the input cursor forward by `read` units.
    pub fn advance_input(&mut self, read: usize)
        requires
            old(self).wf(),
            read <= old(self).spec_input().len() - old(self).spec_input_cursor(),
        ensures
            final(self).wf(),
            final(self).spec_input_cursor() == old(self).spec_input_cursor() + read,
            final(self).spec_output_cursor() == old(self).spec_output_cursor(),
            final(self).same_call(old(self)),
    {
        self.input_cursor = self.input_cursor + read;
    }

    /// Moves the output cursor forward by `written` units.
    pub fn advance_output(&mut self, written: usize)
        requires
            old(self).wf(),
            written <= old(self).spec_output_len() - old(self).spec_output_cursor(),
        ensures
            final(self).wf(),
            final(self).spec_output_cursor() == old(self).spec_output_cursor() + written,
            final(self).spec_input_cursor() == old(self).spec_input_cursor(),
            final(self).same_call(old(self)),
    {
        self.output_cursor = self.output_cursor + written;
    }

    /// Moves both cursors forward.
    pub fn advance(&mut self, read: usize, written: usize)
        requires
            old(self).wf(),
            read <= old(self).spec_input().len() - old(self).spec_input_cursor(),
            written <= old(self).spec_output_len() - old(self).spec_output_cursor(),
        ensures
            final(self).wf(),
            final(self).spec_input_cursor() == old(self).spec_input_cursor() + read,
            final(self).spec_output_cursor() == old(self).spec_output_cursor() + written,
            final(self).same_call(old(self)),
    {
        self.advance_input(read);
        self.advance_output(written);
    }

    /// Whether `self` and `other` describe the same call: same buffers and
    /// start indices.
    pub open spec fn same_call(&self, other: &Self) -> bool {
        &&& self.spec_input() == other.spec_input()
        &&& self.spec_output_len() == other.spec_output_len()
        &&& self.spec_input_start() == other.spec_input_start()
        &&& self.spec_output_start() == other.spec_output_start()
    }

    /// Progress of a call that consumed all visible input.
    pub fn complete_progress(&self) -> (progress: TranscodeProgress)
        requires
            self.wf(),
        ensures
            progress.spec_status() == TranscodeStatus::Complete,
            progress.spec_read() == self.spec_input_cursor() - self.spec_input_start(),
            progress.spec_written() == self.spec_output_cursor() - self.spec_output_start(),
    {
        TranscodeProgress::complete(self.read(), self.written())
    }

    /// Progress of a call that stopped at the input cursor for more input.
    pub fn need_input_progress(&self, required: NonZeroUsize, available: usize) -> (progress:
        TranscodeProgress)
        requires
            self.wf(),
        ensures
            progress.spec_status() == (TranscodeStatus::NeedInput {
                input_index: self.spec_input_cursor(),
                required,
                available,
            }),
            progress.spec_read() == self.spec_input_cursor() - self.spec_input_start(),
            progress.spec_written() == self.spec_output_cursor() - self.spec_output_start(),
    {
        TranscodeProgress::need_input(
            self.input_cursor,
            required,
            available,
            self.read(),
            self.written(),
        )
    }

    /// Progress of a call that stopped at the output cursor for more room.
    pub fn need_output_progress(&self, required: NonZeroUsize, available: usize) -> (progress:
        TranscodeProgress)
        requires
            self.wf(),
        ensures
            progress.spec_status() == (TranscodeStatus::NeedOutput {
                output_index: self.spec_output_cursor(),
                required,
                available,
            }),
            progress.spec_read() == self.spec_input_cursor() - self.spec_input_start(),
            progress.spec_written() == self.spec_output_cursor() - self.spec_output_start(),
    {
        TranscodeProgress::need_output(
            self.output_cursor,
            required,
            available,
            self.read(),
            self.written(),
        )
    }
}

/// Progress built from well-formed cursor state satisfies
/// [`TranscodeProgress::validate`] for the call's bounds: when complete with
/// every visible input unit read, and at a need-input or need-output stop
/// whenever the status
/// reports what is visible at the cursor and asks for more than that.
pub proof fn lemma_state_progress_is_valid<Input>(
    state: TranscodeState<'_, Input>,
    progress: TranscodeProgress,
)
    requires
        state.wf(),
        progress.spec_read() == state.spec_input_cursor() - state.spec_input_start(),
        progress.spec_written() == state.spec_output_cursor() - state.spec_output_start(),
        progress.spec_status() is Complete ==> state.spec_input_cursor() == state.spec_input().len(),
        progress.spec_status() matches TranscodeStatus::NeedInput { input_index, required, available }
            ==> input_index == state.spec_input_cursor() && available == state.spec_input().len()
            - state.spec_input_cursor() && required.spec_get() > available,
        progress.spec_status() matches TranscodeStatus::NeedOutput {
            output_index,
            required,
            available,
        } ==> output_index == state.spec_output_cursor() && available == state.spec_output_len()
            - state.spec_output_cursor() && required.spec_get() > available,
    ensures
        progress.spec_validate(
            state.spec_input_start(),
            (state.spec_input().len() - state.spec_input_start()) as usize,
            state.spec_output_start(),
            (state.spec_output_len() - state.spec_output_start()) as usize,
        ) is Ok,
{
}

} // verus!
