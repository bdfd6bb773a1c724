//! Work counters returned by one transcode call.

use vstd::prelude::*;

use crate::num::NonZeroUsize;
use super::transcode_contract_error::TranscodeContractError;
use super::transcode_status::TranscodeStatus;

verus! {

/// Counts how much work a transcoder completed before returning.
#[derive(Clone, Copy, Debug, PartialEq, Eq, Hash, Structural)]
pub struct TranscodeProgress {
    /// Stop reason reported by the transcoder.
    status: TranscodeStatus,
    /// Number of input units consumed from the requested input index.
    read: usize,
    /// Number of output units written from the requested output index.
    written: usize,
}

/// The outcome of checking one status against the boundary implied by the
/// progress counters: `index` and `available` are what the status must report.
pub open spec fn status_boundary_check(
    reported_index: usize,
    required: NonZeroUsize,
    reported_available: usize,
    expected_index: int,
    expected_available: int,
) -> Result<(), TranscodeContractError> {
    if reported_index != expected_index {
        Err(
            TranscodeContractError::StatusIndexMismatch {
                reported: reported_index,
                expected: expected_index as usize,
            },
        )
    } else if reported_available != expected_available {
        Err(
            TranscodeContractError::StatusAvailableMismatch {
                reported: reported_available,
                expected: expected_available as usize,
            },
        )
    } else if required.spec_get() <= reported_available {
        Err(
            TranscodeContractError::SatisfiedNeed {
                required: required.spec_get(),
                available: reported_available,
            },
        )
    } else {
        Ok(())
    }
}

impl TranscodeProgress {
    /// The stop reason held by this progress value.
    pub closed spec fn spec_status(self) -> TranscodeStatus {
        self.status
    }

    /// The input units consumed, relative to the call's input index.
    pub closed spec fn spec_read(self) -> usize {
        self.read
    }

    /// The output units written, relative to the call's output index.
    pub closed spec fn spec_written(self) -> usize {
        self.written
    }

    /// What [`Self::validate`] answers for the given call bounds.
    pub open spec fn spec_validate(
        self,
        input_index: usize,
        available_input: usize,
        output_index: usize,
        available_output: usize,
    ) -> Result<(), TranscodeContractError> {
        if self.spec_read() > available_input {
            Err(
                TranscodeContractError::OverRead {
                    read: self.spec_read(),
                    available: available_input,
                },
            )
        } else if self.spec_written() > available_output {
            Err(
                TranscodeContractError::OverWritten {
                    written: self.spec_written(),
                    available: available_output,
                },
            )
        } else if input_index + self.spec_read() > usize::MAX {
            Err(
                TranscodeContractError::ProgressIndexOverflow {
                    index: input_index,
                    advanced: self.spec_read(),
                },
            )
        } else if output_index + self.spec_written() > usize::MAX {
            Err(
                TranscodeContractError::ProgressIndexOverflow {
                    index: output_index,
                    advanced: self.spec_written(),
                },
            )
        } else {
            match self.spec_status() {
                TranscodeStatus::Complete => if self.spec_read() == available_input {
                    Ok(())
                } else {
                    Err(
                        TranscodeContractError::IncompleteConsumption {
                            read: self.spec_read(),
                            available: available_input,
                        },
                    )
                },
                TranscodeStatus::NeedInput { input_index: reported, required, available } =>
                    status_boundary_check(
                    reported,
                    required,
                    available,
                    input_index + self.spec_read(),
                    available_input - self.spec_read(),
                ),
                TranscodeStatus::NeedOutput { output_index: reported, required, available } =>
                    status_boundary_check(
                    reported,
                    required,
                    available,
                    output_index + self.spec_written(),
                    available_output - self.spec_written(),
                ),
            }
        }
    }

    /// Creates a progress value.
    pub fn new(status: TranscodeStatus, read: usize, written: usize) -> (progress: Self)
        ensures
            progress.spec_status() == status,
            progress.spec_read() == read,
            progress.spec_written() == written,
    {
        TranscodeProgress { status, read, written }
    }

    /// Creates a completed progress value.
    pub fn complete(read: usize, written: usize) -> (progress: Self)
        ensures
            progress.spec_status() == TranscodeStatus::Complete,
            progress.spec_read() == read,
            progress.spec_written() == written,
    {
        Self::new(TranscodeStatus::Complete, read, written)
    }

    /// Creates progress that stopped because more input is needed.
    pub fn need_input(
        input_index: usize,
        required: NonZeroUsize,
        available: usize,
        read: usize,
        written: usize,
    ) -> (progress: Self)
        ensures
            progress.spec_status() == (TranscodeStatus::NeedInput {
                input_index,
                required,
                available,
            }),
            progress.spec_read() == read,
            progress.spec_written() == written,
    {
        Self::new(TranscodeStatus::need_input(input_index, required, available), read, written)
    }

    /// Creates progress that stopped because more output capacity is needed.
    pub fn need_output(
        output_index: usize,
        required: NonZeroUsize,
        available: usize,
        read: usize,
        written: usize,
    ) -> (progress: Self)
        ensures
            progress.spec_status() == (TranscodeStatus::NeedOutput {
                output_index,
                required,
                available,
            }),
            progress.spec_read() == read,
            progress.spec_written() == written,
    {
        Self::new(TranscodeStatus::need_output(output_index, required, available), read, written)
    }

    /// Returns the status that stopped conversion.
    pub fn status(self) -> (status: TranscodeStatus)
        ensures
            status == self.spec_status(),
    {
        self.status
    }

    /// Returns whether conversion consumed all currently supplied input.
    pub fn is_complete(self) -> (result: bool)
        ensures
            result == (self.spec_status() is Complete),
    {
        match self.status {
            TranscodeStatus::Complete => true,
            _ => false,
        }
    }

    /// Returns whether conversion stopped because more input is needed.
    pub fn is_need_input(self) -> (result: bool)
        ensures
            result == (self.spec_status() is NeedInput),
    {
        match self.status {
            TranscodeStatus::NeedInput { .. } => true,
            _ => false,
        }
    }

    /// Returns whether conversion stopped because more output capacity is
    /// needed.
    pub fn is_need_output(self) -> (result: bool)
        ensures
            result == (self.spec_status() is NeedOutput),
    {
        match self.status {
            TranscodeStatus::NeedOutput { .. } => true,
            _ => false,
        }
    }

    /// Returns the number of input units consumed by the call.
    pub fn read(self) -> (read: usize)
        ensures
            read == self.spec_read(),
    {
        self.read
    }

    /// Returns the number of output units written by the call.
    pub fn written(self) -> (written: usize)
        ensures
            written == self.spec_written(),
    {
        self.written
    }

    /// Validates this progress against the call bounds supplied to a
    /// transcoder.
    ///
    /// The check covers the relative counters, that a `Complete` report
    /// consumed every visible input unit, the absolute status index, the
    /// status's available count, and that a `NeedInput` / `NeedOutput`
    /// requirement is not already met.
    pub fn validate(
        &self,
        input_index: usize,
        available_input: usize,
        output_index: usize,
        available_output: usize,
    ) -> (result: Result<(), TranscodeContractError>)
        ensures
            result == self.spec_validate(
                input_index,
                available_input,
                output_index,
                available_output,
            ),
    {
        if self.read > available_input {
            return Err(
                TranscodeContractError::OverRead { read: self.read, available: available_input },
            );
        }
        if self.written > available_output {
            return Err(
                TranscodeContractError::OverWritten {
                    written: self.written,
                    available: available_output,
                },
            );
        }
        let expected_input_index = match input_index.checked_add(self.read) {
            Some(index) => index,
            None => {
                return Err(
                    TranscodeContractError::ProgressIndexOverflow {
                        index: input_index,
                        advanced: self.read,
                    },
                );
            },
        };
        let expected_output_index = match output_index.checked_add(self.written) {
            Some(index) => index,
            None => {
                return Err(
                    TranscodeContractError::ProgressIndexOverflow {
                        index: output_index,
                        advanced: self.written,
                    },
                );
            },
        };
        let expected_input_available = available_input - self.read;
        let expected_output_available = available_output - self.written;
        match self.status {
            TranscodeStatus::Complete => {
                if self.read == available_input {
                    Ok(())
                } else {
                    Err(
                        TranscodeContractError::IncompleteConsumption {
                            read: self.read,
                            available: available_input,
                        },
                    )
                }
            },
            TranscodeStatus::NeedInput { input_index: reported, required, available } => {
                check_status_boundary(
                    reported,
                    required,
                    available,
                    expected_input_index,
                    expected_input_available,
                )
            },
            TranscodeStatus::NeedOutput { output_index: reported, required, available } => {
                check_status_boundary(
                    reported,
                    required,
                    available,
                    expected_output_index,
                    expected_output_available,
                )
            },
        }
    }
}

/// Checks one `NeedInput` / `NeedOutput` status against the boundary implied
/// by the progress counters.
fn check_status_boundary(
    reported_index: usize,
    required: NonZeroUsize,
    reported_available: usize,
    expected_index: usize,
    expected_available: usize,
) -> (result: Result<(), TranscodeContractError>)
    ensures
        result == status_boundary_check(
            reported_index,
            required,
            reported_available,
            expected_index as int,
            expected_available as int,
        ),
{
    if reported_index != expected_index {
        return Err(
            TranscodeContractError::StatusIndexMismatch {
                reported: reported_index,
                expected: expected_index,
            },
        );
    }
    if reported_available != expected_available {
        return Err(
            TranscodeContractError::StatusAvailableMismatch {
                reported: reported_available,
                expected: expected_available,
            },
        );
    }
    let required_units = required.get();
    if required_units <= reported_available {
        return Err(
            TranscodeContractError::SatisfiedNeed {
                required: required_units,
                available: reported_available,
            },
        );
    }
    Ok(())
}

/// A report is consistent with its call bounds: the counters fit what was
/// supplied, the advanced indices fit `usize`, a `Complete` report consumed
/// every visible input unit, and a `NeedInput` or
/// `NeedOutput` status stands exactly where the counters stopped, with the
/// units left there and a requirement those units do not yet meet.
pub open spec fn consistent_with_bounds(
    progress: TranscodeProgress,
    input_index: usize,
    available_input: usize,
    output_index: usize,
    available_output: usize,
) -> bool {
    let read = progress.spec_read();
    let written = progress.spec_written();
    &&& read <= available_input
    &&& written <= available_output
    &&& input_index + read <= usize::MAX
    &&& output_index + written <= usize::MAX
    &&& match progress.spec_status() {
        TranscodeStatus::Complete => read == available_input,
        TranscodeStatus::NeedInput { input_index: at, required, available } => {
            &&& at == input_index + read
            &&& available == available_input - read
            &&& available < required.spec_get()
        },
        TranscodeStatus::NeedOutput { output_index: at, required, available } => {
            &&& at == output_index + written
            &&& available == available_output - written
            &&& available < required.spec_get()
        },
    }
}

/// Validation accepts exactly the reports consistent with their call
/// bounds.
pub proof fn lemma_validate_accepts_exactly_consistent(
    progress: TranscodeProgress,
    input_index: usize,
    available_input: usize,
    output_index: usize,
    available_output: usize,
)
    ensures
        progress.spec_validate(input_index, available_input, output_index, available_output) is Ok
            <==> consistent_with_bounds(
            progress,
            input_index,
            available_input,
            output_index,
            available_output,
        ),
{
}

} // verus!
