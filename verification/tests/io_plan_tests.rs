use qubit_codec::transcode::io::call_range;
use qubit_codec::transcode::io::decode_input_step;
use qubit_codec::transcode::io::CallRange;
use qubit_codec::transcode::io::decode_progress;
use qubit_codec::transcode::io::encode_output_step;
use qubit_codec::transcode::io::encode_progress;
use qubit_codec::transcode::io::finish_range_end;
use qubit_codec::transcode::io::poll_spare_requirement;
use qubit_codec::transcode::io::range_end;
use qubit_codec::transcode::io::required_capacity;
use qubit_codec::transcode::io::seek_offset_after_scratch;
use qubit_codec::transcode::io::spare_after_status;
use qubit_codec::transcode::io::validate_decode_progress;
use qubit_codec::transcode::io::validate_encode_progress;
use qubit_codec::transcode::io::DecodeInputNext;
use qubit_codec::transcode::io::DecodeInputViolation;
use qubit_codec::transcode::io::DecodeStep;
use qubit_codec::transcode::io::EncodeOutputNext;
use qubit_codec::transcode::io::EncodeStep;
use qubit_codec::transcode::io::FinishRangeError;
use qubit_codec::transcode::io::ProgressRejection;
use qubit_codec::transcode::io::ReadValueAction;
use qubit_codec::transcode::io::ReadValueEvent;
use qubit_codec::transcode::io::ReadValuePlan;
use qubit_codec::transcode::io::ReadValueViolation;
use qubit_codec::transcode::io::ScratchReadAction;
use qubit_codec::transcode::io::ScratchReadEvent;
use qubit_codec::transcode::io::ScratchReadPlan;
use qubit_codec::transcode::io::ScratchWindow;
use qubit_codec::NonZeroUsize;
use qubit_codec::TranscodeContractError;
use qubit_codec::TranscodeProgress;
use qubit_codec::TranscodeStatus;

fn nz(value: usize) -> NonZeroUsize {
    NonZeroUsize::new(value).unwrap()
}

#[test]
fn read_plan_fills_decodes_and_refills() {
    let (mut plan, first) = ReadValuePlan::start(2, 4, 0);
    assert_eq!(ReadValueAction::Reserve(2), first);
    assert_eq!(ReadValueAction::FillUntil(2), plan.next(ReadValueEvent::Reserved { capacity: 8, unread: 0 }));
    assert_eq!(ReadValueAction::FillUntil(4), plan.next(ReadValueEvent::Filled { reached: true, unread: 3 }));
    assert_eq!(ReadValueAction::Decode(3), plan.next(ReadValueEvent::Filled { reached: false, unread: 3 }));
    assert_eq!(ReadValueAction::Reserve(4), plan.next(ReadValueEvent::Incomplete { required_total: nz(4) }));
    assert_eq!(ReadValueAction::FillUntil(4), plan.next(ReadValueEvent::Reserved { capacity: 8, unread: 3 }));
    assert_eq!(ReadValueAction::Decode(4), plan.next(ReadValueEvent::Filled { reached: true, unread: 4 }));
    assert_eq!(ReadValueAction::Accept(4), plan.next(ReadValueEvent::Decoded { consumed: nz(4) }));
}

#[test]
fn read_plan_decodes_without_window_fill_when_buffer_is_small() {
    let (mut plan, _) = ReadValuePlan::start(1, 8, 2);
    assert_eq!(ReadValueAction::Decode(2), plan.next(ReadValueEvent::Reserved { capacity: 4, unread: 2 }));
    assert_eq!(ReadValueAction::Reject(1), plan.next(ReadValueEvent::Invalid { consumed: Some(nz(1)) }));
}

#[test]
fn read_plan_caps_window_at_maximum_width() {
    let (mut plan, _) = ReadValuePlan::start(1, 2, 5);
    assert_eq!(ReadValueAction::Decode(2), plan.next(ReadValueEvent::Reserved { capacity: 8, unread: 5 }));
    assert_eq!(ReadValueAction::Reject(0), plan.next(ReadValueEvent::Invalid { consumed: None }));
}

#[test]
fn read_plan_uses_minimum_when_decode_bound_is_smaller() {
    let (mut plan, first) = ReadValuePlan::start(3, 1, 3);
    assert_eq!(ReadValueAction::Reserve(3), first);
    assert_eq!(ReadValueAction::Decode(3), plan.next(ReadValueEvent::Reserved { capacity: 3, unread: 3 }));
}

#[test]
fn read_plan_fails_at_end_of_input() {
    let (mut plan, _) = ReadValuePlan::start(2, 2, 0);
    assert_eq!(ReadValueAction::FillUntil(2), plan.next(ReadValueEvent::Reserved { capacity: 8, unread: 1 }));
    assert_eq!(ReadValueAction::FailEndOfInput, plan.next(ReadValueEvent::Filled { reached: false, unread: 1 }));
}

#[test]
fn read_plan_fails_at_end_of_input_during_refill() {
    let (mut plan, _) = ReadValuePlan::start(1, 4, 1);
    assert_eq!(ReadValueAction::FillUntil(4), plan.next(ReadValueEvent::Reserved { capacity: 8, unread: 1 }));
    assert_eq!(ReadValueAction::Decode(2), plan.next(ReadValueEvent::Filled { reached: false, unread: 2 }));
    assert_eq!(ReadValueAction::Reserve(3), plan.next(ReadValueEvent::Incomplete { required_total: nz(3) }));
    assert_eq!(ReadValueAction::FillUntil(3), plan.next(ReadValueEvent::Reserved { capacity: 8, unread: 2 }));
    assert_eq!(ReadValueAction::FailEndOfInput, plan.next(ReadValueEvent::Filled { reached: false, unread: 2 }));
}

#[test]
fn read_plan_refuses_codec_contract_breaches() {
    let (mut plan, _) = ReadValuePlan::start(2, 2, 2);
    assert_eq!(ReadValueAction::Decode(2), plan.next(ReadValueEvent::Reserved { capacity: 2, unread: 2 }));
    let mut over = plan;
    assert_eq!(
        ReadValueAction::FailContract(ReadValueViolation::ConsumedBeyondWindow),
        over.next(ReadValueEvent::Decoded { consumed: nz(3) })
    );
    let mut within = plan;
    assert_eq!(
        ReadValueAction::FailContract(ReadValueViolation::IncompleteWithinWindow),
        within.next(ReadValueEvent::Incomplete { required_total: nz(2) })
    );
    let mut invalid = plan;
    assert_eq!(
        ReadValueAction::FailContract(ReadValueViolation::ErrorConsumedBeyondWindow),
        invalid.next(ReadValueEvent::Invalid { consumed: Some(nz(3)) })
    );
}

#[test]
fn scratch_plan_loads_required_units_then_decodes() {
    let (mut plan, first) = ScratchReadPlan::start(3);
    assert_eq!(ScratchReadAction::Read { offset: 0, count: 3 }, first);
    assert_eq!(ScratchReadAction::Read { offset: 2, count: 1 }, plan.next(ScratchReadEvent::Read { read: 2 }));
    assert_eq!(ScratchReadAction::Decode(3), plan.next(ScratchReadEvent::Read { read: 1 }));
    assert_eq!(
        ScratchReadAction::Read { offset: 3, count: 2 },
        plan.next(ScratchReadEvent::Incomplete { required_total: nz(5) })
    );
    assert_eq!(ScratchReadAction::Decode(5), plan.next(ScratchReadEvent::Read { read: 2 }));
    assert_eq!(ScratchReadAction::Accept(4), plan.next(ScratchReadEvent::Decoded { consumed: nz(4) }));
}

#[test]
fn scratch_plan_fails_at_end_of_input_and_on_breaches() {
    let (mut eof, _) = ScratchReadPlan::start(2);
    assert_eq!(ScratchReadAction::FailEndOfInput, eof.next(ScratchReadEvent::Read { read: 0 }));
    let (mut plan, _) = ScratchReadPlan::start(2);
    assert_eq!(ScratchReadAction::Decode(2), plan.next(ScratchReadEvent::Read { read: 2 }));
    let mut within = plan;
    assert_eq!(
        ScratchReadAction::FailContract(ReadValueViolation::IncompleteWithinWindow),
        within.next(ScratchReadEvent::Incomplete { required_total: nz(2) })
    );
    let mut over = plan;
    assert_eq!(
        ScratchReadAction::FailContract(ReadValueViolation::ConsumedBeyondWindow),
        over.next(ScratchReadEvent::Decoded { consumed: nz(3) })
    );
    let mut rejected = plan;
    assert_eq!(ScratchReadAction::Reject(0), rejected.next(ScratchReadEvent::Invalid { consumed: None }));
}

#[test]
fn scratch_plan_with_zero_minimum_decodes_at_once() {
    let (_, first) = ScratchReadPlan::start(0);
    assert_eq!(ScratchReadAction::Decode(0), first);
}

#[test]
fn decode_progress_maps_status_to_step() {
    let progress = TranscodeProgress::need_input(5, nz(2), 1, 2, 1);
    let step = decode_progress(progress, 3, 3, 0, 4).unwrap();
    assert_eq!(2, step.consumed);
    assert_eq!(1, step.written);
    assert_eq!(DecodeStep::NeedInput(nz(2)), step.step);
    assert_eq!(
        Err(TranscodeContractError::OverRead { read: 4, available: 3 }),
        decode_progress(TranscodeProgress::complete(4, 0), 0, 3, 0, 0)
    );
    assert_eq!(Ok(progress), validate_decode_progress(progress, 3, 3, 0, 4));
}

#[test]
fn encode_progress_refuses_need_input() {
    let needs_input = TranscodeProgress::need_input(1, nz(2), 1, 1, 0);
    assert_eq!(Err(ProgressRejection::EncoderNeedsInput), encode_progress(needs_input, 0, 2, 0, 0));
    assert_eq!(Err(ProgressRejection::EncoderNeedsInput), validate_encode_progress(needs_input, 0, 2, 0, 0));
    let needs_output = TranscodeProgress::need_output(3, nz(4), 1, 1, 3);
    let step = encode_progress(needs_output, 0, 2, 0, 4).unwrap();
    assert_eq!(EncodeStep::NeedOutput(nz(4)), step.step);
    assert_eq!(Ok(needs_output), validate_encode_progress(needs_output, 0, 2, 0, 4));
    assert_eq!(
        Err(ProgressRejection::Contract(TranscodeContractError::OverWritten { written: 5, available: 4 })),
        encode_progress(TranscodeProgress::complete(0, 5), 0, 0, 0, 4)
    );
}

#[test]
fn decode_input_step_follows_status() {
    let done = decode_input_step(TranscodeProgress::complete(4, 2), 4, 1, 0, 2).unwrap();
    assert_eq!((4, 2, DecodeInputNext::Finish), (done.consumed, done.written_total, done.next));
    let more = decode_input_step(TranscodeProgress::complete(4, 1), 4, 1, 0, 2).unwrap();
    assert_eq!(DecodeInputNext::Continue, more.next);
    let fill = decode_input_step(TranscodeProgress::need_input(1, nz(3), 2, 1, 1), 3, 0, 0, 2).unwrap();
    assert_eq!((1, 1, DecodeInputNext::FillThenContinue(nz(3))), (fill.consumed, fill.written_total, fill.next));
    let full = decode_input_step(TranscodeProgress::need_output(3, nz(1), 0, 2, 1), 2, 1, 1, 2).unwrap();
    assert_eq!((2, 2, DecodeInputNext::Finish), (full.consumed, full.written_total, full.next));
}

#[test]
fn decode_input_step_refuses_stalled_or_inconsistent_reports() {
    assert_eq!(
        Err(DecodeInputViolation::Contract(TranscodeContractError::IncompleteConsumption { read: 0, available: 3 })),
        decode_input_step(TranscodeProgress::complete(0, 0), 3, 0, 0, 2)
    );
    assert_eq!(
        Err(DecodeInputViolation::Contract(TranscodeContractError::OverRead { read: 5, available: 4 })),
        decode_input_step(TranscodeProgress::complete(5, 0), 4, 0, 0, 2)
    );
    let empty = decode_input_step(TranscodeProgress::complete(0, 0), 0, 0, 0, 2).unwrap();
    assert_eq!(DecodeInputNext::Continue, empty.next);
}

#[test]
fn range_checks_refuse_out_of_bounds_ranges() {
    assert_eq!(Some(10), range_end(10, 3, 7));
    assert_eq!(None, range_end(10, 3, 8));
    assert_eq!(None, range_end(usize::MAX, 1, usize::MAX));
    assert_eq!(Ok(6), finish_range_end(10, 2, 4, 4));
    assert_eq!(Err(FinishRangeError::InsufficientForBound), finish_range_end(10, 2, 3, 4));
    assert_eq!(Err(FinishRangeError::InvalidRange), finish_range_end(10, 8, 3, 1));
}

#[test]
fn encode_output_step_follows_status() {
    let done = encode_output_step(TranscodeProgress::complete(2, 5), 0, 1, 3, 0, 8).unwrap();
    assert_eq!((5, 3, EncodeOutputNext::Finish), (done.written, done.read_total, done.next));
    let more = encode_output_step(TranscodeProgress::need_output(4, nz(6), 4, 1, 4), 0, 0, 3, 0, 8).unwrap();
    assert_eq!((4, 1, EncodeOutputNext::ReserveThenContinue(nz(6))), (more.written, more.read_total, more.next));
    let last = encode_output_step(TranscodeProgress::need_output(4, nz(6), 4, 2, 4), 0, 1, 3, 0, 8).unwrap();
    assert_eq!(EncodeOutputNext::ReserveThenFinish(nz(6)), last.next);
    assert_eq!(
        Err(ProgressRejection::EncoderNeedsInput),
        encode_output_step(TranscodeProgress::need_input(0, nz(2), 1, 0, 0), 0, 0, 1, 0, 8)
    );
}

#[test]
fn spare_requirements_are_at_least_one_unit() {
    assert_eq!(1, poll_spare_requirement(1, 0));
    assert_eq!(4, poll_spare_requirement(1, 4));
    assert_eq!(6, poll_spare_requirement(6, 4));
    assert_eq!(1, spare_after_status(TranscodeStatus::Complete));
    assert_eq!(7, spare_after_status(TranscodeStatus::need_output(0, nz(7), 2)));
    assert_eq!(7, required_capacity(3, 4));
    assert_eq!(usize::MAX, required_capacity(usize::MAX, 1));
}

#[test]
fn scratch_window_serves_stored_tail_first() {
    let mut window = ScratchWindow::new();
    assert!(!window.has_unread());
    window.store_tail(&[1u8, 2, 3, 4], 1);
    assert_eq!(&[2, 3, 4], window.unread());
    assert_eq!(3, window.unread_len());
    let mut output = [0u8; 5];
    assert_eq!(2, window.read_into(&mut output, 1, 2));
    assert_eq!([0, 2, 3, 0, 0], output);
    assert_eq!(&[4], window.unread());
    assert_eq!(1, window.read_into(&mut output, 0, 4));
    assert_eq!([4, 2, 3, 0, 0], output);
    assert!(!window.has_unread());
}

#[test]
fn scratch_window_consume_and_clear() {
    let mut window = ScratchWindow::new();
    window.store_tail(&[7u8, 8, 9], 0);
    window.consume(2);
    assert_eq!(&[9], window.unread());
    window.consume(1);
    assert!(!window.has_unread());
    window.store_tail(&[1u8], 5);
    assert!(!window.has_unread());
    window.store_tail(&[1u8, 2], 0);
    window.clear();
    assert_eq!(0, window.unread_len());
}

#[test]
fn scratch_window_keeps_units_left_unread_behind_stored_tail() {
    let mut window = ScratchWindow::new();
    window.store_tail(&[1u8, 2, 3, 4], 0);
    let mut units = [0u8; 2];
    assert_eq!(2, window.read_into(&mut units, 0, 2));
    assert_eq!(&[3, 4], window.unread());
    window.store_tail(&units, 1);
    assert_eq!(&[2, 3, 4], window.unread());
    window.append(&[5u8]);
    assert_eq!(&[2, 3, 4, 5], window.unread());
}

#[test]
fn seek_offsets_account_for_scratch_units() {
    assert_eq!(Some(7), seek_offset_after_scratch(10, 3));
    assert_eq!(Some(-3), seek_offset_after_scratch(0, 3));
    assert_eq!(None, seek_offset_after_scratch(i64::MIN, 1));
    assert_eq!(Some(-i64::MAX), seek_offset_after_scratch(0, usize::MAX));
}

#[test]
fn call_range_decides_before_any_transcoder_runs() {
    assert_eq!(CallRange::Invalid, call_range(4, 3, 2));
    assert_eq!(CallRange::Invalid, call_range(4, usize::MAX, 2));
    assert_eq!(CallRange::Empty, call_range(4, 4, 0));
    assert_eq!(CallRange::Run { end: 5 }, call_range(8, 2, 3));
}

#[test]
fn read_plans_check_events_before_taking_them() {
    let (plan, _) = ReadValuePlan::start(2, 4, 0);
    assert!(!plan.accepts_event(ReadValueEvent::Filled { reached: true, unread: 3 }));
    assert!(!plan.accepts_event(ReadValueEvent::Reserved { capacity: 1, unread: 0 }));
    assert!(plan.accepts_event(ReadValueEvent::Reserved { capacity: 4, unread: 0 }));
    let (scratch, _) = ScratchReadPlan::start(3);
    assert!(scratch.accepts_event(ScratchReadEvent::Read { read: 3 }));
    assert!(!scratch.accepts_event(ScratchReadEvent::Read { read: 4 }));
    assert!(!scratch.accepts_event(ScratchReadEvent::Decoded { consumed: nz(1) }));
}
