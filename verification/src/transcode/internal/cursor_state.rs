//! Start and current indices of one transcode call.

use vstd::prelude::*;

verus! {

/// The start indices of a transcode call and the cursors advanced from them.
#[derive(Clone, Copy, Debug, PartialEq, Eq, Structural)]
pub struct CursorState {
    input_start: usize,
    output_start: usize,
    input_cursor: usize,
    output_cursor: usize,
}

impl CursorState {
    /// The input index the call started at.
    pub closed spec fn spec_input_start(&self) -> usize {
        self.input_start
    }

    /// The output index the call started at.
    pub closed spec fn spec_output_start(&self) -> usize {
        self.output_start
    }

    /// The current input cursor.
    pub closed spec fn spec_input_cursor(&self) -> usize {
        self.input_cursor
    }

    /// The current output cursor.
    pub closed spec fn spec_output_cursor(&self) -> usize {
        self.output_cursor
    }

    /// Cursors never lie before their start.
    pub open spec fn wf(&self) -> bool {
        &&& self.spec_input_start() <= self.spec_input_cursor()
        &&& self.spec_output_start() <= self.spec_output_cursor()
    }

    /// Creates cursors at the given start indices.
    pub fn new(input_start: usize, output_start: usize) -> (state: Self)
        ensures
            state.wf(),
            state.spec_input_start() == input_start,
            state.spec_output_start() == output_start,
            state.spec_input_cursor() == input_start,
            state.spec_output_cursor() == output_start,
    {
        CursorState {
            input_start,
            output_start,
            input_cursor: input_start,
            output_cursor: output_start,
        }
    }

    /// Returns the input start index.
    pub fn input_start(&self) -> (index: usize)
        ensures
            index == self.spec_input_start(),
    {
        self.input_start
    }

    /// Returns the output start index.
    pub fn output_start(&self) -> (index: usize)
        ensures
            index == self.spec_output_start(),
    {
        self.output_start
    }

    /// Returns the input cursor.
    pub fn input_cursor(&self) -> (index: usize)
        ensures
            index == self.spec_input_cursor(),
    {
        self.input_cursor
    }

    /// Returns the output cursor.
    pub fn output_cursor(&self) -> (index: usize)
        ensures
            index == self.spec_output_cursor(),
    {
        self.output_cursor
    }

    /// Returns the input units consumed since the start.
    pub fn read(&self) -> (read: usize)
        requires
            self.wf(),
        ensures
            read == self.spec_input_cursor() - self.spec_input_start(),
    {
        self.input_cursor - self.input_start
    }

    /// Returns the output units written since the start.
    pub fn written(&self) -> (written: usize)
        requires
            self.wf(),
        ensures
            written == self.spec_output_cursor() - self.spec_output_start(),
    {
        self.output_cursor - self.output_start
    }

    /// Advances the input cursor.
    pub fn advance_input(&mut self, read: usize)
        requires
            old(self).wf(),
            old(self).spec_input_cursor() + read <= usize::MAX,
        ensures
            final(self).wf(),
            final(self).spec_input_cursor() == old(self).spec_input_cursor() + read,
            final(self).spec_output_cursor() == old(self).spec_output_cursor(),
            final(self).spec_input_start() == old(self).spec_input_start(),
            final(self).spec_output_start() == old(self).spec_output_start(),
    {
        self.input_cursor = self.input_cursor + read;
    }

    /// Advances the output cursor.
    pub fn advance_output(&mut self, written: usize)
        requires
            old(self).wf(),
            old(self).spec_output_cursor() + written <= usize::MAX,
        ensures
            final(self).wf(),
            final(self).spec_output_cursor() == old(self).spec_output_cursor() + written,
            final(self).spec_input_cursor() == old(self).spec_input_cursor(),
            final(self).spec_input_start() == old(self).spec_input_start(),
            final(self).spec_output_start() == old(self).spec_output_start(),
    {
        self.output_cursor = self.output_cursor + written;
    }

    /// Advances both cursors.
    pub fn advance(&mut self, read: usize, written: usize)
        requires
            old(self).wf(),
            old(self).spec_input_cursor() + read <= usize::MAX,
            old(self).spec_output_cursor() + written <= usize::MAX,
        ensures
            final(self).wf(),
            final(self).spec_input_cursor() == old(self).spec_input_cursor() + read,
            final(self).spec_output_cursor() == old(self).spec_output_cursor() + written,
            final(self).spec_input_start() == old(self).spec_input_start(),
            final(self).spec_output_start() == old(self).spec_output_start(),
    {
        self.advance_input(read);
        self.advance_output(written);
    }
}

} // verus!
