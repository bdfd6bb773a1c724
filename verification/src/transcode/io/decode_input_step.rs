//! The decisions of decoding buffered units into a caller's value range.

use vstd::prelude::*;

use crate::num::NonZeroUsize;
use crate::transcode::transcode_contract_error::TranscodeContractError;
use crate::transcode::transcode_progress::TranscodeProgress;
use crate::util::slice::checked_range_end;
use super::progress_step::decode_progress;
use super::progress_step::spec_decode_progress;
use super::progress_step::DecodeStep;

verus! {

/// What the decode loop does after committing one progress report.
#[derive(Clone, Copy, Debug, PartialEq, Eq, Hash, Structural)]
pub enum DecodeInputNext {
    /// Return the number of values written so far.
    Finish,
    /// Decode the remaining buffered units again, refilling first when the
    /// buffer is empty.
    Continue,
    /// Fill the buffer until this many units are unread, then decode again;
    /// at end of input, return the number of values written so far.
    FillThenContinue(NonZeroUsize),
}

/// One committed decoder report.
#[derive(Clone, Copy, Debug, PartialEq, Eq, Hash, Structural)]
pub struct DecodeInputStep {
    /// Buffered units to consume.
    pub consumed: usize,
    /// Values written into the caller range so far, this report included.
    pub written_total: usize,
    /// What to do next.
    pub next: DecodeInputNext,
}

/// Why a decoder report is refused.
#[derive(Clone, Copy, Debug, PartialEq, Eq, Hash, Structural)]
pub enum DecodeInputViolation {
    /// The report is inconsistent with the call bounds.
    Contract(TranscodeContractError),
    /// The decoder reported `Complete` without consuming non-empty input.
    CompleteWithoutProgress,
}

/// Why a finish range is refused.
#[derive(Clone, Copy, Debug, PartialEq, Eq, Hash, Structural)]
pub enum FinishRangeError {
    /// The range does not lie inside the output slice.
    InvalidRange,
    /// The range is shorter than the decoder's finish bound.
    InsufficientForBound,
}

/// The end of the range `start..start + count` when it lies inside a slice
/// of length `len`.
pub open spec fn spec_range_end(len: usize, start: usize, count: usize) -> Option<usize> {
    if start + count <= len {
        Some((start + count) as usize)
    } else {
        None
    }
}

/// What committing one decoder report answers; `written_total` values were
/// already written from `output_index` and `count` were granted in all.
pub open spec fn spec_decode_input_step(
    progress: TranscodeProgress,
    available_input: usize,
    output_index: usize,
    written_total: usize,
    count: usize,
) -> Result<DecodeInputStep, DecodeInputViolation> {
    match spec_decode_progress(
        progress,
        0,
        available_input,
        (output_index + written_total) as usize,
        (count - written_total) as usize,
    ) {
        Err(error) => Err(DecodeInputViolation::Contract(error)),
        Ok(step) => {
            let total = (written_total + step.written) as usize;
            match step.step {
                DecodeStep::Complete => if step.consumed == 0 && available_input != 0 {
                    Err(DecodeInputViolation::CompleteWithoutProgress)
                } else {
                    Ok(
                        DecodeInputStep {
                            consumed: step.consumed,
                            written_total: total,
                            next: if total == count {
                                DecodeInputNext::Finish
                            } else {
                                DecodeInputNext::Continue
                            },
                        },
                    )
                },
                DecodeStep::NeedOutput => Ok(
                    DecodeInputStep {
                        consumed: step.consumed,
                        written_total: total,
                        next: DecodeInputNext::Finish,
                    },
                ),
                DecodeStep::NeedInput(required) => Ok(
                    DecodeInputStep {
                        consumed: step.consumed,
                        written_total: total,
                        next: DecodeInputNext::FillThenContinue(required),
                    },
                ),
            }
        },
    }
}

/// How a buffered adapter treats the caller range `start..start + count` of
/// one transcode call before any transcoder runs.
#[derive(Clone, Copy, Debug, PartialEq, Eq, Hash, Structural)]
pub enum CallRange {
    /// The range lies outside the caller slice: the call fails and no
    /// transcoder runs.
    Invalid,
    /// The range is empty: the call returns at once with nothing read or
    /// written and no transcoder runs.
    Empty,
    /// The transcoder works on the slice up to `end`, the end of the range.
    Run {
        /// Exclusive end of the range.
        end: usize,
    },
}

/// What [`call_range`] answers.
pub open spec fn spec_call_range(len: usize, start: usize, count: usize) -> CallRange {
    match spec_range_end(len, start, count) {
        None => CallRange::Invalid,
        Some(end) => if count == 0 {
            CallRange::Empty
        } else {
            CallRange::Run { end }
        },
    }
}

/// Decides a buffered transcode call over `start..start + count` of a slice
/// of `len` items: an out-of-bounds range is refused, an empty one returns
/// at once, and otherwise the transcoder sees the slice cut at the range's
/// end.
pub fn call_range(len: usize, start: usize, count: usize) -> (range: CallRange)
    ensures
        range == spec_call_range(len, start, count),
{
    match range_end(len, start, count) {
        None => CallRange::Invalid,
        Some(end) => if count == 0 {
            CallRange::Empty
        } else {
            CallRange::Run { end }
        },
    }
}

/// Returns the end of `start..start + count` when the range lies inside a
/// slice of length `len`.
pub fn range_end(len: usize, start: usize, count: usize) -> (end: Option<usize>)
    ensures
        end == spec_range_end(len, start, count),
{
    checked_range_end(len, start, count)
}

/// Commits one decoder report made with all `available_input` buffered
/// units visible from index 0 and the output range from
/// `output_index + written_total` to `output_index + count`.
pub fn decode_input_step(
    progress: TranscodeProgress,
    available_input: usize,
    output_index: usize,
    written_total: usize,
    count: usize,
) -> (result: Result<DecodeInputStep, DecodeInputViolation>)
    requires
        written_total <= count,
        output_index + count <= usize::MAX,
    ensures
        result == spec_decode_input_step(
            progress,
            available_input,
            output_index,
            written_total,
            count,
        ),
        result matches Ok(step) ==> step.consumed <= available_input && written_total
            <= step.written_total <= count,
        result matches Ok(step) ==> step.consumed == progress.spec_read() && step.written_total
            == written_total + progress.spec_written(),
{
    match decode_progress(
        progress,
        0,
        available_input,
        output_index + written_total,
        count - written_total,
    ) {
        Err(error) => Err(DecodeInputViolation::Contract(error)),
        Ok(step) => {
            let total = written_total + step.written;
            match step.step {
                DecodeStep::Complete => {
                    if step.consumed == 0 && available_input != 0 {
                        Err(DecodeInputViolation::CompleteWithoutProgress)
                    } else {
                        let next = if total == count {
                            DecodeInputNext::Finish
                        } else {
                            DecodeInputNext::Continue
                        };
                        Ok(DecodeInputStep { consumed: step.consumed, written_total: total, next })
                    }
                },
                DecodeStep::NeedOutput => Ok(
                    DecodeInputStep {
                        consumed: step.consumed,
                        written_total: total,
                        next: DecodeInputNext::Finish,
                    },
                ),
                DecodeStep::NeedInput(required) => Ok(
                    DecodeInputStep {
                        consumed: step.consumed,
                        written_total: total,
                        next: DecodeInputNext::FillThenContinue(required),
                    },
                ),
            }
        },
    }
}

/// Checks the range granted to a decoder's finish hook: it must lie inside
/// the output slice and hold the decoder's finish bound. Returns the
/// range's end.
pub fn finish_range_end(output_len: usize, output_index: usize, count: usize, required: usize) -> (
    result: Result<usize, FinishRangeError>)
    ensures
        result == (match spec_range_end(output_len, output_index, count) {
            None => Err(FinishRangeError::InvalidRange),
            Some(end) => if count < required {
                Err(FinishRangeError::InsufficientForBound)
            } else {
                Ok(end)
            },
        }),
{
    match range_end(output_len, output_index, count) {
        None => Err(FinishRangeError::InvalidRange),
        Some(end) => {
            if count < required {
                Err(FinishRangeError::InsufficientForBound)
            } else {
                Ok(end)
            }
        },
    }
}

/// Every accepted decoder report is committed whole: the step consumes
/// exactly the units the decoder read and counts exactly the values it
/// wrote, whatever its status.
pub proof fn lemma_decode_step_commits_what_was_read(
    progress: TranscodeProgress,
    available_input: usize,
    output_index: usize,
    written_total: usize,
    count: usize,
)
    requires
        written_total <= count,
    ensures
        spec_decode_input_step(progress, available_input, output_index, written_total, count)
            matches Ok(step) ==> step.consumed == progress.spec_read() && step.written_total
            == written_total + progress.spec_written(),
{
}

} // verus!
