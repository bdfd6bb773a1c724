//! Validation of progress reports before a buffered adapter commits them,
//! and the next step each report asks of the adapter.

use vstd::prelude::*;

use crate::num::NonZeroUsize;
use crate::transcode::transcode_contract_error::TranscodeContractError;
use crate::transcode::transcode_progress::TranscodeProgress;
use crate::transcode::transcode_status::TranscodeStatus;

verus! {

/// Why an adapter refuses a progress report.
#[derive(Clone, Copy, Debug, PartialEq, Eq, Hash, Structural)]
pub enum ProgressRejection {
    /// The report is inconsistent with the call bounds.
    Contract(TranscodeContractError),
    /// An encoder asked for more input, which encoders never may.
    EncoderNeedsInput,
}

/// Next operation required after a decoder progress report.
#[derive(Clone, Copy, Debug, PartialEq, Eq, Hash, Structural)]
pub enum DecodeStep {
    /// The currently visible input was completely consumed.
    Complete,
    /// The decoder needs this many buffered input units before retrying.
    NeedInput(NonZeroUsize),
    /// The caller-provided output range is full.
    NeedOutput,
}

/// Validated counters and next step returned by a decoder.
#[derive(Clone, Copy, Debug, PartialEq, Eq, Hash, Structural)]
pub struct DecodeProgress {
    /// Number of units safe to consume from the buffered input.
    pub consumed: usize,
    /// Number of values initialized in the caller output range.
    pub written: usize,
    /// Required continuation after applying the counters.
    pub step: DecodeStep,
}

/// Next operation required after an encoder progress report.
#[derive(Clone, Copy, Debug, PartialEq, Eq, Hash, Structural)]
pub enum EncodeStep {
    /// The supplied input range was completely consumed.
    Complete,
    /// The encoder needs this much spare output capacity before retrying.
    NeedOutput(NonZeroUsize),
}

/// Validated counters and next step returned by an encoder.
#[derive(Clone, Copy, Debug, PartialEq, Eq, Hash, Structural)]
pub struct EncodeProgress {
    /// Number of values consumed from the caller input range.
    pub read: usize,
    /// Number of initialized units in the buffered output range.
    pub written: usize,
    /// Required continuation after applying the counters.
    pub step: EncodeStep,
}

/// The decoder step a status asks for.
pub open spec fn decode_step_of(status: TranscodeStatus) -> DecodeStep {
    match status {
        TranscodeStatus::Complete => DecodeStep::Complete,
        TranscodeStatus::NeedInput { required, .. } => DecodeStep::NeedInput(required),
        TranscodeStatus::NeedOutput { .. } => DecodeStep::NeedOutput,
    }
}

/// What validating a decoder report against its call bounds answers.
pub open spec fn spec_decode_progress(
    progress: TranscodeProgress,
    input_index: usize,
    available_input: usize,
    output_index: usize,
    available_output: usize,
) -> Result<DecodeProgress, TranscodeContractError> {
    match progress.spec_validate(input_index, available_input, output_index, available_output) {
        Err(error) => Err(error),
        Ok(()) => Ok(
            DecodeProgress {
                consumed: progress.spec_read(),
                written: progress.spec_written(),
                step: decode_step_of(progress.spec_status()),
            },
        ),
    }
}

/// What validating an encoder report against its call bounds answers.
pub open spec fn spec_encode_progress(
    progress: TranscodeProgress,
    input_index: usize,
    available_input: usize,
    output_index: usize,
    available_output: usize,
) -> Result<EncodeProgress, ProgressRejection> {
    match progress.spec_validate(input_index, available_input, output_index, available_output) {
        Err(error) => Err(ProgressRejection::Contract(error)),
        Ok(()) => match progress.spec_status() {
            TranscodeStatus::Complete => Ok(
                EncodeProgress {
                    read: progress.spec_read(),
                    written: progress.spec_written(),
                    step: EncodeStep::Complete,
                },
            ),
            TranscodeStatus::NeedOutput { required, .. } => Ok(
                EncodeProgress {
                    read: progress.spec_read(),
                    written: progress.spec_written(),
                    step: EncodeStep::NeedOutput(required),
                },
            ),
            TranscodeStatus::NeedInput { .. } => Err(ProgressRejection::EncoderNeedsInput),
        },
    }
}

/// Validates decoder progress and converts its status to a driver decision.
pub fn decode_progress(
    progress: TranscodeProgress,
    input_index: usize,
    available_input: usize,
    output_index: usize,
    available_output: usize,
) -> (result: Result<DecodeProgress, TranscodeContractError>)
    ensures
        result == spec_decode_progress(
            progress,
            input_index,
            available_input,
            output_index,
            available_output,
        ),
        result matches Ok(step) ==> step.consumed <= available_input && step.written
            <= available_output,
{
    match progress.validate(input_index, available_input, output_index, available_output) {
        Err(error) => Err(error),
        Ok(()) => {
            let step = match progress.status() {
                TranscodeStatus::Complete => DecodeStep::Complete,
                TranscodeStatus::NeedInput { required, .. } => DecodeStep::NeedInput(required),
                TranscodeStatus::NeedOutput { .. } => DecodeStep::NeedOutput,
            };
            Ok(DecodeProgress { consumed: progress.read(), written: progress.written(), step })
        },
    }
}

/// Validates encoder progress and converts its status to a driver decision.
pub fn encode_progress(
    progress: TranscodeProgress,
    input_index: usize,
    available_input: usize,
    output_index: usize,
    available_output: usize,
) -> (result: Result<EncodeProgress, ProgressRejection>)
    ensures
        result == spec_encode_progress(
            progress,
            input_index,
            available_input,
            output_index,
            available_output,
        ),
        result matches Ok(step) ==> step.read <= available_input && step.written
            <= available_output,
{
    match progress.validate(input_index, available_input, output_index, available_output) {
        Err(error) => Err(ProgressRejection::Contract(error)),
        Ok(()) => match progress.status() {
            TranscodeStatus::Complete => Ok(
                EncodeProgress {
                    read: progress.read(),
                    written: progress.written(),
                    step: EncodeStep::Complete,
                },
            ),
            TranscodeStatus::NeedOutput { required, .. } => Ok(
                EncodeProgress {
                    read: progress.read(),
                    written: progress.written(),
                    step: EncodeStep::NeedOutput(required),
                },
            ),
            TranscodeStatus::NeedInput { .. } => Err(ProgressRejection::EncoderNeedsInput),
        },
    }
}

/// Validates a decoder progress report before the input adapter commits it.
pub fn validate_decode_progress(
    progress: TranscodeProgress,
    input_index: usize,
    available_input: usize,
    output_index: usize,
    available_output: usize,
) -> (result: Result<TranscodeProgress, TranscodeContractError>)
    ensures
        match progress.spec_validate(input_index, available_input, output_index, available_output) {
            Ok(()) => result == Ok::<TranscodeProgress, TranscodeContractError>(progress),
            Err(error) => result == Err::<TranscodeProgress, TranscodeContractError>(error),
        },
{
    match progress.validate(input_index, available_input, output_index, available_output) {
        Ok(()) => Ok(progress),
        Err(error) => Err(error),
    }
}

/// Validates an encoder progress report before the output adapter commits
/// it; an encoder that asks for more input is refused.
pub fn validate_encode_progress(
    progress: TranscodeProgress,
    input_index: usize,
    available_input: usize,
    output_index: usize,
    available_output: usize,
) -> (result: Result<TranscodeProgress, ProgressRejection>)
    ensures
        match progress.spec_validate(input_index, available_input, output_index, available_output) {
            Err(error) => result == Err::<TranscodeProgress, ProgressRejection>(
                ProgressRejection::Contract(error),
            ),
            Ok(()) => if progress.spec_status() is NeedInput {
                result == Err::<TranscodeProgress, ProgressRejection>(
                    ProgressRejection::EncoderNeedsInput,
                )
            } else {
                result == Ok::<TranscodeProgress, ProgressRejection>(progress)
            },
        },
{
    match progress.validate(input_index, available_input, output_index, available_output) {
        Err(error) => Err(ProgressRejection::Contract(error)),
        Ok(()) => {
            if progress.is_need_input() {
                Err(ProgressRejection::EncoderNeedsInput)
            } else {
                Ok(progress)
            }
        },
    }
}

} // verus!
