//! The caller-buffered streaming transcode contract.

use vstd::prelude::*;
use vstd::std_specs::convert::FromSpec;

use super::capacity_error::CapacityError;
use super::transcode_failure::{
    capacity_failure, output_capacity_check, transcode_indices_check, TranscodeFailure,
};
use super::transcode_progress::TranscodeProgress;
use super::transcode_status::TranscodeStatus;

verus! {

/// The sum of two output-capacity bounds, or an overflow error.
pub open spec fn spec_add_output_bounds(first: usize, second: usize) -> Result<usize, CapacityError> {
    if first + second <= usize::MAX {
        Ok((first + second) as usize)
    } else {
        Err(CapacityError::OutputLengthOverflow)
    }
}

/// The complete-lifecycle bound built from the reset, transcode and finish
/// bounds, propagating the first capacity error in that order.
pub open spec fn spec_total_output_bound(
    reset: Result<usize, CapacityError>,
    transcode: Result<usize, CapacityError>,
    finish: Result<usize, CapacityError>,
) -> Result<usize, CapacityError> {
    match reset {
        Err(error) => Err(error),
        Ok(r) => match transcode {
            Err(error) => Err(error),
            Ok(t) => match finish {
                Err(error) => Err(error),
                Ok(f) => match spec_add_output_bounds(r, t) {
                    Err(error) => Err(error),
                    Ok(rt) => spec_add_output_bounds(rt, f),
                },
            },
        },
    }
}

/// The failure that [`complete_progress_written`] reports for a progress
/// value that stopped early.
pub open spec fn spec_complete_progress_written(
    progress: TranscodeProgress,
    input_len: usize,
    output_index: usize,
    output_len: usize,
) -> Result<usize, TranscodeFailure> {
    match progress.spec_status() {
        TranscodeStatus::Complete => Ok(progress.spec_written()),
        TranscodeStatus::NeedOutput { required, .. } => Err(
            TranscodeFailure::InsufficientOutput {
                output_index: (output_index + progress.spec_written()) as usize,
                required: required.spec_get(),
                available: (output_len - output_index - progress.spec_written()) as usize,
            },
        ),
        TranscodeStatus::NeedInput { required, .. } => Err(
            TranscodeFailure::IncompleteInput {
                input_index: progress.spec_read(),
                required: required.spec_get(),
                available: (input_len - progress.spec_read()) as usize,
            },
        ),
    }
}

/// Returns the output count of a one-shot transcode that must have consumed
/// its whole input, or the failure describing why it stopped early.
pub fn complete_progress_written(
    progress: TranscodeProgress,
    input_len: usize,
    output_index: usize,
    output_len: usize,
) -> (result: Result<usize, TranscodeFailure>)
    requires
        output_index <= output_len,
        progress.spec_validate(0, input_len, output_index, (output_len - output_index) as usize)
            is Ok,
    ensures
        result == spec_complete_progress_written(progress, input_len, output_index, output_len),
{
    match progress.status() {
        TranscodeStatus::Complete => Ok(progress.written()),
        TranscodeStatus::NeedOutput { required, .. } => Err(
            TranscodeFailure::insufficient_output(
                output_index + progress.written(),
                required.get(),
                output_len - output_index - progress.written(),
            ),
        ),
        TranscodeStatus::NeedInput { required, .. } => Err(
            TranscodeFailure::incomplete_input(
                progress.read(),
                required.get(),
                input_len - progress.read(),
            ),
        ),
    }
}

/// At end of input only a request for more input is refused: a report that
/// passes validation and does not ask for more input, whether it completed
/// or stopped for want of output room, is returned as it is.
pub proof fn lemma_eof_keeps_valid_progress<E: From<TranscodeFailure>>(
    progress: TranscodeProgress,
    input_index: usize,
    available_input: usize,
    output_index: usize,
    available_output: usize,
)
    requires
        progress.spec_validate(input_index, available_input, output_index, available_output) is Ok,
        !(progress.spec_status() is NeedInput),
    ensures
        spec_eof_outcome::<E>(progress, input_index, available_input, output_index, available_output)
            == Ok::<TranscodeProgress, E>(progress),
{
}

/// Whether a complete stream is refused before any hook runs: a phase bound
/// fails or overflows in the sum, or `output_len` units cannot hold the sum.
pub open spec fn spec_complete_preflight_fails(
    reset: Result<usize, CapacityError>,
    transcode: Result<usize, CapacityError>,
    finish: Result<usize, CapacityError>,
    output_len: usize,
) -> bool {
    match spec_total_output_bound(reset, transcode, finish) {
        Err(_) => true,
        Ok(total) => output_capacity_check(output_len, 0, total) is Err,
    }
}

/// What [`transcode_eof_by_transcode`] answers for the progress
/// that `transcode` reported over `available_input` units from
/// `input_index` and `available_output` units from `output_index`: progress
/// that breaks its contract is invalid progress, a request for more input is
/// an incomplete input at the tail, and anything else is returned.
pub open spec fn spec_eof_outcome<E: From<TranscodeFailure>>(
    progress: TranscodeProgress,
    input_index: usize,
    available_input: usize,
    output_index: usize,
    available_output: usize,
) -> Result<TranscodeProgress, E> {
    match progress.spec_validate(input_index, available_input, output_index, available_output) {
        Err(error) => Err(E::from_spec(TranscodeFailure::InvalidProgress { source: error })),
        Ok(()) => match progress.spec_status() {
            TranscodeStatus::NeedInput { required, .. } => Err(
                E::from_spec(
                    TranscodeFailure::IncompleteInput {
                        input_index: (input_index + progress.spec_read()) as usize,
                        required: required.spec_get(),
                        available: (available_input - progress.spec_read()) as usize,
                    },
                ),
            ),
            _ => Ok(progress),
        },
    }
}

/// Adds two independent output-capacity bounds.
pub fn add_output_bounds(first: usize, second: usize) -> (result: Result<usize, CapacityError>)
    ensures
        result == spec_add_output_bounds(first, second),
{
    match first.checked_add(second) {
        Some(sum) => Ok(sum),
        None => Err(CapacityError::OutputLengthOverflow),
    }
}

/// Adds the reset, transcode, and finish output-capacity bounds.
pub fn sum_output_bounds(reset: usize, transcode: usize, finish: usize) -> (result: Result<
    usize,
    CapacityError,
>)
    ensures
        result == spec_total_output_bound(Ok(reset), Ok(transcode), Ok(finish)),
{
    let before_finish = add_output_bounds(reset, transcode)?;
    add_output_bounds(before_finish, finish)
}

/// The end-of-input transcode of a transcoder without an end-of-input rule
/// of its own: checks the indices, runs [`Transcoder::transcode`], refuses
/// progress that breaks its contract as invalid progress and a request for
/// more input as an incomplete tail, and otherwise returns the progress.
pub fn transcode_eof_by_transcode<T: Transcoder>(
    transcoder: &mut T,
    input: &[T::Input],
    input_index: usize,
    output: &mut [T::Output],
    output_index: usize,
) -> (result: Result<TranscodeProgress, T::Error>)
    ensures
        final(output)@.len() == old(output)@.len(),
        transcode_indices_check(input.len(), input_index, old(output).len(), output_index) is Err
            ==> {
            &&& result is Err
            &&& *final(transcoder) == *old(transcoder)
            &&& <T::Error as FromSpec<TranscodeFailure>>::obeys_from_spec() ==> result == Err::<
                TranscodeProgress,
                T::Error,
            >(
                T::Error::from_spec(
                    transcode_indices_check(input.len(), input_index, old(output).len(), output_index)->Err_0,
                ),
            )
        },
        transcode_indices_check(input.len(), input_index, old(output).len(), output_index) is Ok
            ==> {
            &&& *final(transcoder) == old(transcoder).spec_after_transcode(
                input,
                input_index,
                old(output)@.len() as usize,
                output_index,
            )
            &&& match old(transcoder).spec_transcode(
                input,
                input_index,
                old(output)@.len() as usize,
                output_index,
            ) {
                Err(error) => result == Err::<TranscodeProgress, T::Error>(error),
                Ok(progress) => (spec_eof_outcome::<T::Error>(
                    progress,
                    input_index,
                    (input@.len() - input_index) as usize,
                    output_index,
                    (old(output)@.len() - output_index) as usize,
                ) is Err ==> result is Err) && (
                <T::Error as FromSpec<TranscodeFailure>>::obeys_from_spec()
                    || spec_eof_outcome::<T::Error>(
                    progress,
                    input_index,
                    (input@.len() - input_index) as usize,
                    output_index,
                    (old(output)@.len() - output_index) as usize,
                ) is Ok ==> result == spec_eof_outcome::<T::Error>(
                    progress,
                    input_index,
                    (input@.len() - input_index) as usize,
                    output_index,
                    (old(output)@.len() - output_index) as usize,
                )),
            }
        },
        transcode_indices_check(input.len(), input_index, old(output).len(), output_index) is Ok
            ==> match old(transcoder).spec_transcode(
            input,
            input_index,
            old(output)@.len() as usize,
            output_index,
        ) {
            Ok(progress) => progress.spec_validate(
                input_index,
                (input@.len() - input_index) as usize,
                output_index,
                (old(output)@.len() - output_index) as usize,
            ) is Ok && !(progress.spec_status() is NeedInput) ==> result == Ok::<
                TranscodeProgress,
                T::Error,
            >(progress),
            Err(_) => true,
        },
        result matches Ok(progress) ==> {
            &&& input_index <= input@.len()
            &&& output_index <= old(output)@.len()
            &&& progress.spec_validate(
                input_index,
                (input@.len() - input_index) as usize,
                output_index,
                (old(output)@.len() - output_index) as usize,
            ) is Ok
            &&& !(progress.spec_status() is NeedInput)
        },
{
    match TranscodeFailure::ensure_transcode_indices(
        input.len(),
        input_index,
        output.len(),
        output_index,
    ) {
        Ok(()) => {},
        Err(failure) => {
            return Err(T::Error::from(failure));
        },
    }
    let available_input = input.len() - input_index;
    let available_output = output.len() - output_index;
    let progress = transcoder.transcode(input, input_index, output, output_index)?;
    match progress.validate(input_index, available_input, output_index, available_output) {
        Ok(()) => {},
        Err(error) => {
            return Err(T::Error::from(TranscodeFailure::invalid_progress(error)));
        },
    }
    match progress.status() {
        TranscodeStatus::NeedInput { required, .. } => Err(
            T::Error::from(
                TranscodeFailure::incomplete_input(
                    input_index + progress.read(),
                    required.get(),
                    available_input - progress.read(),
                ),
            ),
        ),
        _ => Ok(progress),
    }
}

/// Converts one logical stream of input units into one logical stream of
/// output units over caller-provided buffers.
///
/// A transcoder follows `reset -> transcode / transcode_eof -> finish`. A
/// successful `transcode` call stops with exactly one meaning: all visible
/// input was consumed (`Complete`), an incomplete tail remains caller-owned
/// (`NeedInput`), or output capacity prevented progress (`NeedOutput`).
///
/// The three output bounds depend only on configuration, never on transient
/// stream state, so the conversion hooks leave them unchanged; reset and finish
/// never write more than their bound or than the output visible from the
/// given index. Every hook's answer and the state it leaves are functions of
/// the state it starts from and its arguments; an implementation names them
/// with the `spec_*` functions below.
pub trait Transcoder: Sized {
    /// Input unit type.
    type Input;
    /// Output unit type.
    type Output;
    /// Error reported by the conversion hooks.
    type Error: From<TranscodeFailure>;

    /// The bound [`Transcoder::max_reset_output_len`] reports.
    spec fn spec_max_reset_output_len(&self) -> Result<usize, CapacityError>;

    /// The bound [`Transcoder::max_transcode_output_len`] reports.
    spec fn spec_max_transcode_output_len(&self, input_len: usize) -> Result<usize, CapacityError>;

    /// The bound [`Transcoder::max_finish_output_len`] reports.
    spec fn spec_max_finish_output_len(&self) -> Result<usize, CapacityError>;

    /// What [`Transcoder::reset`] answers in the current state for an output
    /// of `output_len` units written from `output_index`.
    spec fn spec_reset(&self, output_len: usize, output_index: usize) -> Result<usize, Self::Error>;

    /// What [`Transcoder::transcode`] answers in the current state.
    spec fn spec_transcode(
        &self,
        input: &[Self::Input],
        input_index: usize,
        output_len: usize,
        output_index: usize,
    ) -> Result<TranscodeProgress, Self::Error>;

    /// What [`Transcoder::finish`] answers in the current state for an output
    /// of `output_len` units written from `output_index`.
    spec fn spec_finish(&self, output_len: usize, output_index: usize) -> Result<usize, Self::Error>;

    /// What [`Transcoder::transcode_eof`] answers in the current state.
    spec fn spec_transcode_eof(
        &self,
        input: &[Self::Input],
        input_index: usize,
        output_len: usize,
        output_index: usize,
    ) -> Result<TranscodeProgress, Self::Error>;

    /// The state [`Transcoder::reset`] leaves.
    spec fn spec_after_reset(&self, output_len: usize, output_index: usize) -> Self;

    /// The state [`Transcoder::transcode`] leaves.
    spec fn spec_after_transcode(
        &self,
        input: &[Self::Input],
        input_index: usize,
        output_len: usize,
        output_index: usize,
    ) -> Self;

    /// The state [`Transcoder::transcode_eof`] leaves.
    spec fn spec_after_transcode_eof(
        &self,
        input: &[Self::Input],
        input_index: usize,
        output_len: usize,
        output_index: usize,
    ) -> Self;

    /// The state [`Transcoder::finish`] leaves.
    spec fn spec_after_finish(&self, output_len: usize, output_index: usize) -> Self;

    /// Returns an upper bound for output emitted by [`Transcoder::reset`].
    fn max_reset_output_len(&self) -> (result: Result<usize, CapacityError>)
        ensures
            result == self.spec_max_reset_output_len(),
    ;

    /// Returns an upper bound for output produced from `input_len` units
    /// during the streaming transcode phase.
    fn max_transcode_output_len(&self, input_len: usize) -> (result: Result<usize, CapacityError>)
        ensures
            result == self.spec_max_transcode_output_len(input_len),
    ;

    /// Returns an upper bound for a complete `reset -> transcode -> finish`
    /// stream: the checked sum of the three phase bounds.
    fn max_total_output_len(&self, input_len: usize) -> (result: Result<usize, CapacityError>)
        ensures
            result == spec_total_output_bound(
                self.spec_max_reset_output_len(),
                self.spec_max_transcode_output_len(input_len),
                self.spec_max_finish_output_len(),
            ),
    {
        let reset = self.max_reset_output_len()?;
        let transcode = self.max_transcode_output_len(input_len)?;
        let finish = self.max_finish_output_len()?;
        sum_output_bounds(reset, transcode, finish)
    }

    /// Returns an upper bound for output emitted by [`Transcoder::finish`].
    fn max_finish_output_len(&self) -> (result: Result<usize, CapacityError>)
        ensures
            result == self.spec_max_finish_output_len(),
    ;

    /// Resets stream state and emits stream-start output into `output`.
    fn reset(&mut self, output: &mut [Self::Output], output_index: usize) -> (result: Result<
        usize,
        Self::Error,
    >)
        ensures
            final(output)@.len() == old(output)@.len(),
            final(self).spec_max_reset_output_len() == old(self).spec_max_reset_output_len(),
            final(self).spec_max_finish_output_len() == old(self).spec_max_finish_output_len(),
            forall|n: usize| #[trigger]
                final(self).spec_max_transcode_output_len(n)
                    == old(self).spec_max_transcode_output_len(n),
            result == old(self).spec_reset(old(output)@.len() as usize, output_index),
            *final(self) == old(self).spec_after_reset(old(output)@.len() as usize, output_index),
            result matches Ok(written) ==> output_index <= old(output)@.len() && written
                <= old(output)@.len() - output_index && (old(self).spec_max_reset_output_len() matches Ok(
                bound,
            ) ==> written <= bound),
    ;

    /// Converts available input units into output units without closing the
    /// logical input stream.
    fn transcode(
        &mut self,
        input: &[Self::Input],
        input_index: usize,
        output: &mut [Self::Output],
        output_index: usize,
    ) -> (result: Result<TranscodeProgress, Self::Error>)
        ensures
            final(output)@.len() == old(output)@.len(),
            final(self).spec_max_reset_output_len() == old(self).spec_max_reset_output_len(),
            final(self).spec_max_finish_output_len() == old(self).spec_max_finish_output_len(),
            forall|n: usize| #[trigger]
                final(self).spec_max_transcode_output_len(n)
                    == old(self).spec_max_transcode_output_len(n),
            result == old(self).spec_transcode(input, input_index, old(output)@.len() as usize, output_index),
            *final(self) == old(self).spec_after_transcode(
                input,
                input_index,
                old(output)@.len() as usize,
                output_index,
            ),
    ;

    /// Converts source units after the caller has established end of input.
    ///
    /// On success the indices were valid, the progress passes
    /// [`TranscodeProgress::validate`] against the supplied buffers, and it
    /// does not ask for more input. A transcoder without an end-of-input rule
    /// of its own implements it with [`transcode_eof_by_transcode`], which
    /// delegates to [`Transcoder::transcode`], reports
    /// [`TranscodeFailure::InvalidProgress`] for progress that breaks the
    /// contract and [`TranscodeFailure::IncompleteInput`] for a remaining
    /// incomplete tail.
    fn transcode_eof(
        &mut self,
        input: &[Self::Input],
        input_index: usize,
        output: &mut [Self::Output],
        output_index: usize,
    ) -> (result: Result<TranscodeProgress, Self::Error>)
        ensures
            final(output)@.len() == old(output)@.len(),
            final(self).spec_max_reset_output_len() == old(self).spec_max_reset_output_len(),
            final(self).spec_max_finish_output_len() == old(self).spec_max_finish_output_len(),
            forall|n: usize| #[trigger]
                final(self).spec_max_transcode_output_len(n)
                    == old(self).spec_max_transcode_output_len(n),
            transcode_indices_check(input.len(), input_index, old(output).len(), output_index) is Err
                ==> (<Self::Error as FromSpec<TranscodeFailure>>::obeys_from_spec() ==> result
                == Err::<TranscodeProgress, Self::Error>(
                Self::Error::from_spec(
                    transcode_indices_check(input.len(), input_index, old(output).len(), output_index)->Err_0,
                ),
            )),
            result matches Ok(progress) ==> {
                &&& input_index <= input@.len()
                &&& output_index <= old(output)@.len()
                &&& progress.spec_validate(
                    input_index,
                    (input@.len() - input_index) as usize,
                    output_index,
                    (old(output)@.len() - output_index) as usize,
                ) is Ok
                &&& !(progress.spec_status() is NeedInput)
            },
            result == old(self).spec_transcode_eof(
                input,
                input_index,
                old(output)@.len() as usize,
                output_index,
            ),
            *final(self) == old(self).spec_after_transcode_eof(
                input,
                input_index,
                old(output)@.len() as usize,
                output_index,
            ),
    ;

    /// Finishes internally retained output after all input has been supplied.
    fn finish(&mut self, output: &mut [Self::Output], output_index: usize) -> (result: Result<
        usize,
        Self::Error,
    >)
        ensures
            final(output)@.len() == old(output)@.len(),
            final(self).spec_max_reset_output_len() == old(self).spec_max_reset_output_len(),
            final(self).spec_max_finish_output_len() == old(self).spec_max_finish_output_len(),
            forall|n: usize| #[trigger]
                final(self).spec_max_transcode_output_len(n)
                    == old(self).spec_max_transcode_output_len(n),
            result == old(self).spec_finish(old(output)@.len() as usize, output_index),
            *final(self) == old(self).spec_after_finish(old(output)@.len() as usize, output_index),
            result matches Ok(written) ==> output_index <= old(output)@.len() && written
                <= old(output)@.len() - output_index && (old(self).spec_max_finish_output_len() matches Ok(
                bound,
            ) ==> written <= bound),
    ;

    /// Runs one complete `reset -> transcode_eof -> finish` stream over the
    /// whole `input`, writing from the start of `output`.
    ///
    /// Before any hook runs, the three phase bounds are summed and the output
    /// must hold that total; otherwise the capacity failure is returned. On
    /// success returns the total number of units written.
    fn transcode_complete_into(&mut self, input: &[Self::Input], output: &mut [Self::Output]) -> (result:
        Result<usize, Self::Error>)
        ensures
            final(output)@.len() == old(output)@.len(),
            final(self).spec_max_reset_output_len() == old(self).spec_max_reset_output_len(),
            final(self).spec_max_finish_output_len() == old(self).spec_max_finish_output_len(),
            forall|n: usize| #[trigger]
                final(self).spec_max_transcode_output_len(n)
                    == old(self).spec_max_transcode_output_len(n),
            <Self::Error as FromSpec<TranscodeFailure>>::obeys_from_spec() ==> (match spec_total_output_bound(
                old(self).spec_max_reset_output_len(),
                old(self).spec_max_transcode_output_len(input.len()),
                old(self).spec_max_finish_output_len(),
            ) {
                Err(error) => result == Err::<usize, Self::Error>(
                    Self::Error::from_spec(TranscodeFailure::OutputLengthOverflow),
                ),
                Ok(total) => output_capacity_check(old(output).len(), 0, total) is Err
                    ==> result == Err::<usize, Self::Error>(
                    Self::Error::from_spec(
                        output_capacity_check(old(output).len(), 0, total)->Err_0,
                    ),
                ),
            }),
            result matches Ok(written) ==> written <= old(output)@.len(),
            spec_complete_preflight_fails(
                old(self).spec_max_reset_output_len(),
                old(self).spec_max_transcode_output_len(input.len()),
                old(self).spec_max_finish_output_len(),
                old(output)@.len() as usize,
            ) ==> {
                &&& result is Err
                &&& final(output)@ == old(output)@
                &&& *final(self) == *old(self)
            },
            !spec_complete_preflight_fails(
                old(self).spec_max_reset_output_len(),
                old(self).spec_max_transcode_output_len(input.len()),
                old(self).spec_max_finish_output_len(),
                old(output)@.len() as usize,
            ) ==> match old(self).spec_reset(old(output)@.len() as usize, 0) {
                Err(error) => result == Err::<usize, Self::Error>(error),
                Ok(reset) => {
                    let reset_state = old(self).spec_after_reset(old(output)@.len() as usize, 0);
                    match reset_state.spec_transcode_eof(input, 0, old(output)@.len() as usize, reset) {
                        Err(error) => result == Err::<usize, Self::Error>(error),
                        Ok(progress) => {
                            let eof_state = reset_state.spec_after_transcode_eof(
                                input,
                                0,
                                old(output)@.len() as usize,
                                reset,
                            );
                            match spec_complete_progress_written(
                                progress,
                                input.len(),
                                reset,
                                old(output)@.len() as usize,
                            ) {
                                Err(failure) => {
                                    &&& result is Err
                                    &&& <Self::Error as FromSpec<TranscodeFailure>>::obeys_from_spec()
                                        ==> result == Err::<usize, Self::Error>(
                                        Self::Error::from_spec(failure),
                                    )
                                },
                                Ok(transcoded) => match eof_state.spec_finish(
                                    old(output)@.len() as usize,
                                    (reset + transcoded) as usize,
                                ) {
                                    Err(error) => result == Err::<usize, Self::Error>(error),
                                    Ok(finish) => {
                                        &&& result == Ok::<usize, Self::Error>(
                                            (reset + transcoded + finish) as usize,
                                        )
                                        &&& *final(self) == eof_state.spec_after_finish(
                                            old(output)@.len() as usize,
                                            (reset + transcoded) as usize,
                                        )
                                    },
                                },
                            }
                        },
                    }
                },
            },
    {
        let reset_required = match self.max_reset_output_len() {
            Ok(bound) => bound,
            Err(error) => {
                return Err(Self::Error::from(capacity_failure(error)));
            },
        };
        let transcode_required = match self.max_transcode_output_len(input.len()) {
            Ok(bound) => bound,
            Err(error) => {
                return Err(Self::Error::from(capacity_failure(error)));
            },
        };
        let finish_required = match self.max_finish_output_len() {
            Ok(bound) => bound,
            Err(error) => {
                return Err(Self::Error::from(capacity_failure(error)));
            },
        };
        let total_required = match sum_output_bounds(
            reset_required,
            transcode_required,
            finish_required,
        ) {
            Ok(total) => total,
            Err(error) => {
                return Err(Self::Error::from(capacity_failure(error)));
            },
        };
        match TranscodeFailure::ensure_output_capacity(output.len(), 0, total_required) {
            Ok(()) => {},
            Err(failure) => {
                return Err(Self::Error::from(failure));
            },
        }
        let reset_written = self.reset(output, 0)?;
        let mut output_cursor = reset_written;
        let progress = self.transcode_eof(input, 0, output, output_cursor)?;
        let transcode_written = match complete_progress_written(
            progress,
            input.len(),
            output_cursor,
            output.len(),
        ) {
            Ok(written) => written,
            Err(failure) => {
                return Err(Self::Error::from(failure));
            },
        };
        output_cursor = output_cursor + transcode_written;
        let finish_written = self.finish(output, output_cursor)?;
        output_cursor = output_cursor + finish_written;
        Ok(output_cursor)
    }
}

} // verus!
