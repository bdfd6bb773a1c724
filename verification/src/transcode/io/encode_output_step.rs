//! The decisions of encoding a caller's value range into buffered units.

use vstd::prelude::*;

use crate::num::NonZeroUsize;
use crate::transcode::transcode_progress::TranscodeProgress;
use crate::transcode::transcode_status::TranscodeStatus;
use super::progress_step::encode_progress;
use super::progress_step::spec_encode_progress;
use super::progress_step::EncodeStep;
use super::progress_step::ProgressRejection;

verus! {

/// What the encode loop does after committing one progress report.
#[derive(Clone, Copy, Debug, PartialEq, Eq, Hash, Structural)]
pub enum EncodeOutputNext {
    /// Return the number of values read so far.
    Finish,
    /// Make this much spare output room, then encode the rest.
    ReserveThenContinue(NonZeroUsize),
    /// Make this much spare output room, then return: every value was read.
    ReserveThenFinish(NonZeroUsize),
}

/// One committed encoder report.
#[derive(Clone, Copy, Debug, PartialEq, Eq, Hash, Structural)]
pub struct EncodeOutputStep {
    /// Units the encoder initialized in the spare output window.
    pub written: usize,
    /// Values read from the caller range so far, this report included.
    pub read_total: usize,
    /// What to do next.
    pub next: EncodeOutputNext,
}

/// What committing one encoder report answers; `read_total` of the `count`
/// values from `input_index` were already read, and the encoder saw
/// `available_output` spare units from `output_index`.
pub open spec fn spec_encode_output_step(
    progress: TranscodeProgress,
    input_index: usize,
    read_total: usize,
    count: usize,
    output_index: usize,
    available_output: usize,
) -> Result<EncodeOutputStep, ProgressRejection> {
    match spec_encode_progress(
        progress,
        (input_index + read_total) as usize,
        (count - read_total) as usize,
        output_index,
        available_output,
    ) {
        Err(error) => Err(error),
        Ok(step) => {
            let total = (read_total + step.read) as usize;
            Ok(
                EncodeOutputStep {
                    written: step.written,
                    read_total: total,
                    next: match step.step {
                        EncodeStep::Complete => EncodeOutputNext::Finish,
                        EncodeStep::NeedOutput(required) => if total == count {
                            EncodeOutputNext::ReserveThenFinish(required)
                        } else {
                            EncodeOutputNext::ReserveThenContinue(required)
                        },
                    },
                },
            )
        },
    }
}

/// Commits one encoder report.
pub fn encode_output_step(
    progress: TranscodeProgress,
    input_index: usize,
    read_total: usize,
    count: usize,
    output_index: usize,
    available_output: usize,
) -> (result: Result<EncodeOutputStep, ProgressRejection>)
    requires
        read_total <= count,
        input_index + count <= usize::MAX,
    ensures
        result == spec_encode_output_step(
            progress,
            input_index,
            read_total,
            count,
            output_index,
            available_output,
        ),
        result matches Ok(step) ==> step.written <= available_output && read_total
            <= step.read_total <= count,
        result matches Ok(step) ==> step.written == progress.spec_written() && step.read_total
            == read_total + progress.spec_read(),
{
    match encode_progress(progress, input_index + read_total, count - read_total, output_index, available_output) {
        Err(error) => Err(error),
        Ok(step) => {
            let total = read_total + step.read;
            let next = match step.step {
                EncodeStep::Complete => EncodeOutputNext::Finish,
                EncodeStep::NeedOutput(required) => {
                    if total == count {
                        EncodeOutputNext::ReserveThenFinish(required)
                    } else {
                        EncodeOutputNext::ReserveThenContinue(required)
                    }
                },
            };
            Ok(EncodeOutputStep { written: step.written, read_total: total, next })
        },
    }
}

/// The spare room a polled encode asks for: what the previous report asked
/// for, and at least the bound for one value, and at least one unit.
pub fn poll_spare_requirement(previous: usize, per_value_bound: usize) -> (required: usize)
    ensures
        required >= previous,
        required >= per_value_bound,
        required >= 1,
        required == previous || required == per_value_bound || required == 1,
{
    let per_value = if per_value_bound < 1 {
        1
    } else {
        per_value_bound
    };
    if previous < per_value {
        per_value
    } else {
        previous
    }
}

/// The spare room the next polled encode starts from after an accepted
/// report: what a `NeedOutput` asked for, otherwise one unit.
pub fn spare_after_status(status: TranscodeStatus) -> (required: usize)
    ensures
        required == (match status {
            TranscodeStatus::NeedOutput { required, .. } => required.spec_get(),
            _ => 1,
        }),
        required >= 1,
{
    match status {
        TranscodeStatus::NeedOutput { required, .. } => required.get(),
        _ => 1,
    }
}

/// The buffer capacity that keeps `pending` units and `spare` more,
/// saturating at `usize::MAX`.
pub fn required_capacity(pending: usize, spare: usize) -> (capacity: usize)
    ensures
        capacity == (if pending + spare <= usize::MAX {
            (pending + spare) as usize
        } else {
            usize::MAX
        }),
{
    pending.saturating_add(spare)
}

/// Every accepted encoder report is committed whole: the step keeps exactly
/// the units the encoder wrote, whatever its status and whether the caller
/// range is exhausted, and advances the values read by exactly what it read.
pub proof fn lemma_encode_step_commits_what_was_written(
    progress: TranscodeProgress,
    input_index: usize,
    read_total: usize,
    count: usize,
    output_index: usize,
    available_output: usize,
)
    requires
        read_total <= count,
    ensures
        spec_encode_output_step(
            progress,
            input_index,
            read_total,
            count,
            output_index,
            available_output,
        ) matches Ok(step) ==> step.written == progress.spec_written() && step.read_total
            == read_total + progress.spec_read(),
{
}

} // verus!
