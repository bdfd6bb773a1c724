use qubit_codec::AsyncTranscodeDecodeStep;
use qubit_codec::transcode::internal::convert_state::ConvertDecodeAction;
use qubit_codec::transcode::internal::convert_state::ConvertState;
use qubit_codec::transcode::internal::decode_step::DecodeStep;
use qubit_codec::transcode::internal::pending_value::PendingValue;
use qubit_codec::transcode::internal::pending_value::PendingValueSlot;
use qubit_codec::transcode::internal::lifecycle_guard::LifecycleGuard;
use qubit_codec::transcode::internal::transcode_state::TranscodeState;
use qubit_codec::transcode::transcode_failure::capacity_failure;
use qubit_codec::transcode::IoErrorClass;
use qubit_codec::CapacityError;
use qubit_codec::CodecPhase;
use qubit_codec::DecodeFailure;
use qubit_codec::NonZeroUsize;
use qubit_codec::TranscodeContractError;
use qubit_codec::TranscodeDomainError;
use qubit_codec::TranscodeEncodeError;
use qubit_codec::TranscodeError;
use qubit_codec::TranscodeFailure;
use qubit_codec::TranscodeProgress;
use qubit_codec::TranscodeStatus;
use qubit_codec::Transcoder;
use qubit_codec::transcode::transcoder::transcode_eof_by_transcode;

fn nz(value: usize) -> NonZeroUsize {
    NonZeroUsize::new(value).unwrap()
}

#[test]
fn non_zero_usize_refuses_zero() {
    assert!(NonZeroUsize::new(0).is_none());
    assert_eq!(5, nz(5).get());
    assert_eq!(1, NonZeroUsize::one().get());
}

#[test]
fn complete_progress_within_bounds_validates() {
    let progress = TranscodeProgress::complete(3, 2);
    assert!(progress.is_complete());
    assert_eq!(3, progress.read());
    assert_eq!(2, progress.written());
    assert_eq!(Ok(()), progress.validate(10, 3, 4, 2));
}

#[test]
fn validate_rejects_complete_that_left_input() {
    let progress = TranscodeProgress::complete(1, 0);
    assert_eq!(
        Err(TranscodeContractError::IncompleteConsumption { read: 1, available: 3 }),
        progress.validate(0, 3, 0, 0)
    );
    assert_eq!(Ok(()), TranscodeProgress::complete(3, 0).validate(0, 3, 0, 0));
}

#[test]
fn validate_rejects_over_read() {
    let progress = TranscodeProgress::complete(4, 0);
    assert_eq!(Err(TranscodeContractError::OverRead { read: 4, available: 3 }), progress.validate(0, 3, 0, 0));
}

#[test]
fn validate_rejects_over_written() {
    let progress = TranscodeProgress::complete(0, 5);
    assert_eq!(
        Err(TranscodeContractError::OverWritten { written: 5, available: 4 }),
        progress.validate(0, 0, 0, 4)
    );
}

#[test]
fn validate_rejects_index_overflow() {
    let progress = TranscodeProgress::complete(2, 0);
    assert_eq!(
        Err(TranscodeContractError::ProgressIndexOverflow { index: usize::MAX, advanced: 2 }),
        progress.validate(usize::MAX, 2, 0, 0)
    );
}

#[test]
fn validate_checks_need_input_status_index() {
    let good = TranscodeProgress::need_input(7, nz(3), 1, 2, 0);
    assert!(good.is_need_input());
    assert_eq!(Ok(()), good.validate(5, 3, 0, 0));
    let wrong_index = TranscodeProgress::need_input(6, nz(3), 1, 2, 0);
    assert_eq!(
        Err(TranscodeContractError::StatusIndexMismatch { reported: 6, expected: 7 }),
        wrong_index.validate(5, 3, 0, 0)
    );
}

#[test]
fn validate_checks_need_output_available_and_requirement() {
    let wrong_available = TranscodeProgress::need_output(3, nz(5), 1, 0, 3);
    assert_eq!(
        Err(TranscodeContractError::StatusAvailableMismatch { reported: 1, expected: 2 }),
        wrong_available.validate(0, 0, 0, 5)
    );
    let satisfied = TranscodeProgress::need_output(3, nz(2), 2, 0, 3);
    assert_eq!(
        Err(TranscodeContractError::SatisfiedNeed { required: 2, available: 2 }),
        satisfied.validate(0, 0, 0, 5)
    );
    let good = TranscodeProgress::need_output(3, nz(3), 2, 0, 3);
    assert!(good.is_need_output());
    assert_eq!(Ok(()), good.validate(0, 0, 0, 5));
}

#[test]
fn status_constructors_keep_fields() {
    assert_eq!(
        TranscodeStatus::NeedInput { input_index: 1, required: nz(2), available: 0 },
        TranscodeStatus::need_input(1, nz(2), 0)
    );
    assert_eq!(
        TranscodeStatus::NeedOutput { output_index: 3, required: nz(4), available: 1 },
        TranscodeStatus::need_output(3, nz(4), 1)
    );
}

#[test]
fn transcode_state_progress_reports_cursor_movement() {
    let input = [1u8, 2, 3, 4];
    let mut state = TranscodeState::new(&input, 1, 8, 2);
    state.advance(2, 3);
    let progress = state.need_input_progress(nz(2), 1);
    assert_eq!(2, progress.read());
    assert_eq!(3, progress.written());
    assert_eq!(TranscodeStatus::NeedInput { input_index: 3, required: nz(2), available: 1 }, progress.status());
    assert_eq!(Ok(()), progress.validate(1, 3, 2, 6));
}

#[test]
fn failure_checks_answer_each_variant() {
    assert_eq!(
        Err(TranscodeFailure::InvalidInputIndex { index: 5, input_len: 4 }),
        TranscodeFailure::ensure_input_index(4, 5)
    );
    assert_eq!(Ok(()), TranscodeFailure::ensure_input_index(4, 4));
    assert_eq!(
        Err(TranscodeFailure::IncompleteInput { input_index: 1, required: 3, available: 2 }),
        TranscodeFailure::ensure_min_input(3, 1, 3)
    );
    assert_eq!(
        Err(TranscodeFailure::TrailingInput { consumed: 2, remaining: 3 }),
        TranscodeFailure::ensure_no_trailing_input(2, 5)
    );
    assert_eq!(Ok(()), TranscodeFailure::ensure_no_trailing_input(5, 5));
    assert_eq!(
        Err(TranscodeFailure::InvalidOutputIndex { index: 9, output_len: 8 }),
        TranscodeFailure::ensure_output_index(8, 9)
    );
    assert_eq!(
        Err(TranscodeFailure::InvalidInputIndex { index: 2, input_len: 1 }),
        TranscodeFailure::ensure_transcode_indices(1, 2, 0, 1)
    );
    assert_eq!(
        Err(TranscodeFailure::InsufficientOutput { output_index: 6, required: 3, available: 2 }),
        TranscodeFailure::ensure_output_capacity(8, 6, 3)
    );
}

#[test]
fn failure_output_range_checks() {
    assert_eq!(
        Err(TranscodeFailure::InvalidOutputRange { output_index: 2, range_len: 7, output_len: 8 }),
        TranscodeFailure::ensure_output_range(8, 2, 7, 1)
    );
    assert_eq!(
        Err(TranscodeFailure::InsufficientOutput { output_index: 2, required: 5, available: 4 }),
        TranscodeFailure::ensure_output_range(8, 2, 4, 5)
    );
    assert_eq!(Ok(()), TranscodeFailure::ensure_output_range(8, 2, 6, 6));
}

#[test]
fn error_output_range_check_uses_range_fit() {
    assert_eq!(
        Err(TranscodeError::<(), ()>::Failure(TranscodeFailure::InvalidOutputIndex { index: 2, output_len: 8 })),
        TranscodeError::<(), ()>::ensure_output_range(8, 2, 7, 1)
    );
    assert_eq!(
        Err(TranscodeError::<(), ()>::Failure(TranscodeFailure::InvalidOutputIndex { index: 1, output_len: 4 })),
        TranscodeError::<(), ()>::ensure_output_range(4, 1, usize::MAX, 0)
    );
    assert_eq!(Ok(()), TranscodeError::<(), ()>::ensure_output_range(8, 2, 6, 6));
}

#[test]
fn failure_constructors_and_capacity_mapping() {
    assert_eq!(TranscodeFailure::OutputLengthOverflow, capacity_failure(CapacityError::OutputLengthOverflow));
    assert_eq!(TranscodeFailure::OutputLengthOverflow, TranscodeFailure::from(CapacityError::OutputLengthOverflow));
    assert_eq!(TranscodeFailure::AllocationFailed, TranscodeFailure::allocation_failed());
    let contract = TranscodeContractError::OverRead { read: 1, available: 0 };
    assert_eq!(TranscodeFailure::InvalidProgress { source: contract }, TranscodeFailure::invalid_progress(contract));
    assert_eq!(TranscodeFailure::InvalidProgress { source: contract }, TranscodeFailure::from(contract));
    assert_eq!(
        TranscodeFailure::UnsupportedDecodeLifecycleOutput { reset_bound: 1, finish_bound: 2 },
        TranscodeFailure::unsupported_decode_lifecycle_output(1, 2)
    );
}

#[test]
fn domain_errors_carry_phase_and_position() {
    let main = TranscodeDomainError::main_with_consumed("bad", 4, Some(nz(2)));
    assert_eq!(&"bad", main.source());
    assert_eq!(Some(4), main.input_index());
    assert_eq!(Some(2), main.input_consumed().map(|c| c.get()));
    let reset = TranscodeDomainError::reset("r");
    assert_eq!(None, reset.input_index());
    assert_eq!(None, reset.input_consumed());
    assert_eq!("f", TranscodeDomainError::finish("f").into_source());
    let mapped = TranscodeDomainError::main(3u8, 1).map_source(|value| value * 2);
    assert_eq!(TranscodeDomainError::main(6u8, 1), mapped);
}

#[test]
fn transcode_error_domain_uses_phase() {
    let error = TranscodeError::<&str, ()>::domain("x", CodecPhase::Main, Some(2));
    assert!(error.is_domain());
    assert_eq!(Some(&"x"), error.domain_ref());
    assert_eq!(Some(2), error.domain_error_ref().unwrap().input_index());
    let finish = TranscodeError::<&str, ()>::domain("y", CodecPhase::Finish, None);
    assert_eq!(Some(&TranscodeDomainError::finish("y")), finish.domain_error_ref());
}

#[test]
fn from_decode_failure_maps_incomplete_and_invalid() {
    let incomplete = TranscodeError::<u8, ()>::from_decode_failure(
        DecodeFailure::Incomplete { required_total: nz(4) },
        3,
        2,
    );
    assert_eq!(
        TranscodeError::Failure(TranscodeFailure::IncompleteInput { input_index: 3, required: 4, available: 2 }),
        incomplete
    );
    let invalid = TranscodeError::<u8, ()>::from_decode_failure(
        DecodeFailure::Invalid { source: 9, consumed: Some(nz(1)) },
        3,
        2,
    );
    assert_eq!(Some(&9), invalid.domain_ref());
    assert_eq!(Some(1), invalid.domain_error_ref().unwrap().input_consumed().map(|c| c.get()));
}

#[test]
fn io_error_classes_follow_adapter_direction() {
    let unencodable = TranscodeError::<(), u8>::unencodable_value(0, 7);
    assert_eq!(IoErrorClass::InvalidInput, unencodable.encode_io_error_class());
    assert_eq!(IoErrorClass::InvalidData, unencodable.decode_io_error_class());
    let failure = TranscodeError::<(), u8>::trailing_input(1, 1);
    assert_eq!(IoErrorClass::InvalidData, failure.encode_io_error_class());
    assert_eq!(IoErrorClass::InvalidData, failure.decode_io_error_class());
    let domain = TranscodeError::<(), u8>::domain((), CodecPhase::Reset, None);
    assert_eq!(IoErrorClass::Domain, domain.encode_io_error_class());
    assert_eq!(IoErrorClass::Domain, domain.decode_io_error_class());
    let overflow = TranscodeEncodeError::<(), u8>::output_length_overflow();
    assert_eq!(IoErrorClass::InvalidInput, overflow.value_io_error_class());
}

#[test]
fn unencodable_value_is_a_framework_failure() {
    let error = TranscodeError::<(), u8>::unencodable_value(3, 9);
    assert!(!error.is_domain());
    assert!(error.domain_error_ref().is_none());
    assert!(error.domain_ref().is_none());
    assert_eq!(
        Some(&TranscodeFailure::UnencodableValue { input_index: 3, value: Some(9) }),
        error.failure_ref()
    );
    assert_eq!(Some(TranscodeFailure::UnencodableValue { input_index: 3, value: Some(9) }), error.failure());
    assert_eq!(IoErrorClass::InvalidInput, error.encode_io_error_class());
    assert_eq!(IoErrorClass::InvalidData, error.decode_io_error_class());
    let bare = TranscodeError::<(), u8>::unencodable_value_without_context(4);
    assert_eq!(Some(TranscodeFailure::UnencodableValue { input_index: 4, value: None }), bare.failure());
}

#[test]
fn map_domain_identity_and_composition() {
    let error = TranscodeError::<u8>::domain(3, CodecPhase::Main, Some(4));
    assert_eq!(error.clone(), error.clone().map_domain(|source| source));
    let twice = error.clone().map_domain(|source| u16::from(source) + 1).map_domain(|source| source * 2);
    let once = error.map_domain(|source| (u16::from(source) + 1) * 2);
    assert_eq!(twice, once);
    assert_eq!(Some(&8), once.domain_ref());
    let failure = TranscodeError::<u8>::output_length_overflow();
    assert_eq!(failure.clone().map_domain(|source| source), failure);
}

#[test]
fn map_failure_value_keeps_other_variants() {
    let error = TranscodeError::<(), u8>::unencodable_value(2, 7);
    let mapped = error.map_failure_value(|value| u16::from(value) + 1);
    assert!(matches!(mapped, TranscodeError::Failure(TranscodeFailure::UnencodableValue { input_index: 2, value: Some(8) })));
    let failure = TranscodeError::<(), u8>::output_length_overflow().map_failure_value(u16::from);
    assert_eq!(Some(TranscodeFailure::OutputLengthOverflow), failure.failure());
}

#[test]
fn lifecycle_guard_enforces_reset_transcode_finish() {
    let mut guard = LifecycleGuard::default();
    assert_eq!(Err(TranscodeFailure::TranscodeBeforeReset), guard.on_transcode());
    assert_eq!(Err(TranscodeFailure::FinishBeforeReset), guard.on_finish_attempt());
    guard.on_reset_start();
    guard.on_reset_success();
    assert_eq!(Ok(()), guard.on_transcode());
    assert_eq!(Ok(()), guard.on_finish_attempt());
    guard.on_finish_start();
    guard.on_finish_success();
    assert_eq!(Err(TranscodeFailure::TranscodeAfterFinish), guard.on_transcode());
    assert_eq!(Err(TranscodeFailure::FinishAfterFinish), guard.on_finish_attempt());
    guard.on_reset_start();
    guard.on_reset_success();
    assert_eq!(Ok(()), guard.on_transcode());
}

#[test]
fn lifecycle_guard_poisons_interrupted_hooks() {
    let mut guard = LifecycleGuard::new();
    assert_eq!(Ok(()), guard.on_transcode());
    guard.on_finish_start();
    assert_eq!(Err(TranscodeFailure::LifecyclePoisoned), guard.on_transcode());
    assert_eq!(Err(TranscodeFailure::LifecyclePoisoned), guard.on_finish_attempt());
    guard.on_reset_start();
    assert_eq!(Err(TranscodeFailure::LifecyclePoisoned), guard.on_transcode());
    guard.on_reset_success();
    assert_eq!(Ok(()), guard.on_transcode());
}

#[test]
fn convert_state_applies_decode_steps() {
    let input = [0u8; 6];
    let mut state = ConvertState::new(&input, 1, 4, 0);
    let action = state.apply_decode_step(DecodeStep::decoded('a', nz(2), 1));
    assert_eq!(ConvertDecodeAction::Encode(PendingValue::new('a', 1)), action);
    assert_eq!(2, state.read());
    assert_eq!(ConvertDecodeAction::Continue, state.apply_decode_step(DecodeStep::<char>::skipped(nz(1))));
    assert_eq!(3, state.read());
    match state.apply_decode_step(DecodeStep::<char>::need_input(nz(4), 2)) {
        ConvertDecodeAction::Stop(progress) => {
            assert_eq!(TranscodeStatus::NeedInput { input_index: 4, required: nz(4), available: 2 }, progress.status());
            assert_eq!(3, progress.read());
            assert_eq!(0, progress.written());
        }
        other => panic!("expected a stop, got {other:?}"),
    }
}

#[test]
fn pending_slot_contributes_bound_only_when_holding_a_value() {
    let mut slot = PendingValueSlot::empty();
    assert_eq!(Ok(0), slot.max_transcode_output_len(Ok(7)));
    slot.put(PendingValue::new(3u8, 0));
    assert_eq!(Ok(7), slot.max_transcode_output_len(Ok(7)));
    assert_eq!(
        Err(CapacityError::OutputLengthOverflow),
        slot.max_transcode_output_len(Err(CapacityError::OutputLengthOverflow))
    );
    assert_eq!(Some(PendingValue::new(3u8, 0)), slot.take());
    assert_eq!(Ok(0), slot.max_transcode_output_len(Err(CapacityError::OutputLengthOverflow)));
}

#[test]
fn async_decode_step_holds_progress() {
    let step = AsyncTranscodeDecodeStep::Progress(TranscodeProgress::complete(1, 1));
    assert!(matches!(step, AsyncTranscodeDecodeStep::Progress(progress) if progress.read() == 1));
    assert_eq!(AsyncTranscodeDecodeStep::EndOfInput, AsyncTranscodeDecodeStep::EndOfInput);
}

/// Copies bytes and brackets the stream: reset writes `[`, finish writes `]`.
struct Brackets;

impl Brackets {
    fn copy(input: &[u8], input_index: usize, output_len: usize, output_index: usize) -> TranscodeProgress {
        let available_input = input.len() - input_index;
        let room = output_len - output_index;
        if available_input <= room {
            TranscodeProgress::complete(available_input, available_input)
        } else {
            TranscodeProgress::need_output(
                output_index + room,
                NonZeroUsize::new(available_input - room).unwrap(),
                0,
                room,
                room,
            )
        }
    }
}

impl Transcoder for Brackets {
    type Input = u8;
    type Output = u8;
    type Error = TranscodeFailure;

    fn spec_max_reset_output_len(&self) -> Result<usize, CapacityError> {
        Ok(1)
    }

    fn spec_max_transcode_output_len(&self, input_len: usize) -> Result<usize, CapacityError> {
        Ok(input_len)
    }

    fn spec_max_finish_output_len(&self) -> Result<usize, CapacityError> {
        Ok(1)
    }

    fn spec_reset(&self, output_len: usize, output_index: usize) -> Result<usize, TranscodeFailure> {
        if output_index < output_len {
            Ok(1)
        } else {
            Err(TranscodeFailure::InsufficientOutput { output_index, required: 1, available: 0 })
        }
    }

    fn spec_transcode(
        &self,
        input: &[u8],
        input_index: usize,
        output_len: usize,
        output_index: usize,
    ) -> Result<TranscodeProgress, TranscodeFailure> {
        Ok(Self::copy(input, input_index, output_len, output_index))
    }

    fn spec_finish(&self, output_len: usize, output_index: usize) -> Result<usize, TranscodeFailure> {
        self.spec_reset(output_len, output_index)
    }

    fn spec_transcode_eof(
        &self,
        input: &[u8],
        input_index: usize,
        output_len: usize,
        output_index: usize,
    ) -> Result<TranscodeProgress, TranscodeFailure> {
        self.spec_transcode(input, input_index, output_len, output_index)
    }

    fn spec_after_reset(&self, _output_len: usize, _output_index: usize) -> Self {
        Brackets
    }

    fn spec_after_transcode(&self, _input: &[u8], _input_index: usize, _output_len: usize, _output_index: usize) -> Self {
        Brackets
    }

    fn spec_after_transcode_eof(
        &self,
        _input: &[u8],
        _input_index: usize,
        _output_len: usize,
        _output_index: usize,
    ) -> Self {
        Brackets
    }

    fn spec_after_finish(&self, _output_len: usize, _output_index: usize) -> Self {
        Brackets
    }

    fn transcode_eof(
        &mut self,
        input: &[u8],
        input_index: usize,
        output: &mut [u8],
        output_index: usize,
    ) -> Result<TranscodeProgress, TranscodeFailure> {
        transcode_eof_by_transcode(self, input, input_index, output, output_index)
    }

    fn max_reset_output_len(&self) -> Result<usize, CapacityError> {
        Ok(1)
    }

    fn max_transcode_output_len(&self, input_len: usize) -> Result<usize, CapacityError> {
        Ok(input_len)
    }

    fn max_finish_output_len(&self) -> Result<usize, CapacityError> {
        Ok(1)
    }

    fn reset(&mut self, output: &mut [u8], output_index: usize) -> Result<usize, TranscodeFailure> {
        if output_index < output.len() {
            output[output_index] = b'[';
            Ok(1)
        } else {
            Err(TranscodeFailure::InsufficientOutput { output_index, required: 1, available: 0 })
        }
    }

    fn transcode(
        &mut self,
        input: &[u8],
        input_index: usize,
        output: &mut [u8],
        output_index: usize,
    ) -> Result<TranscodeProgress, TranscodeFailure> {
        let progress = Self::copy(input, input_index, output.len(), output_index);
        let count = progress.written();
        output[output_index..output_index + count].copy_from_slice(&input[input_index..input_index + count]);
        Ok(progress)
    }

    fn finish(&mut self, output: &mut [u8], output_index: usize) -> Result<usize, TranscodeFailure> {
        if output_index < output.len() {
            output[output_index] = b']';
            Ok(1)
        } else {
            Err(TranscodeFailure::InsufficientOutput { output_index, required: 1, available: 0 })
        }
    }
}

#[test]
fn transcode_complete_into_runs_reset_transcode_and_finish() {
    let mut transcoder = Brackets;
    let mut output = [0u8; 6];
    assert_eq!(Ok(5), transcoder.transcode_complete_into(b"abc", &mut output));
    assert_eq!(*b"[abc]\0", output);
    assert_eq!(Ok(5), transcoder.max_total_output_len(3));
}

#[test]
fn transcode_complete_into_checks_capacity_before_any_hook() {
    let mut transcoder = Brackets;
    let mut output = [7u8; 4];
    assert_eq!(
        Err(TranscodeFailure::InsufficientOutput { output_index: 0, required: 5, available: 4 }),
        transcoder.transcode_complete_into(b"abc", &mut output)
    );
    assert_eq!([7u8; 4], output);
}

#[test]
fn transcode_eof_checks_indices_and_returns_progress() {
    let mut transcoder = Brackets;
    let mut output = [0u8; 2];
    assert_eq!(
        Err(TranscodeFailure::InvalidInputIndex { index: 4, input_len: 3 }),
        transcoder.transcode_eof(b"abc", 4, &mut output, 0)
    );
    let progress = transcoder.transcode_eof(b"abc", 1, &mut output, 0).unwrap();
    assert!(progress.is_complete());
    assert_eq!(2, progress.read());
    assert_eq!(*b"bc", output);
}
