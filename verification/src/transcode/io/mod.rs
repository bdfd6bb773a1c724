//! Decisions of the buffered I/O adapters: which progress to commit, how
//! far to fill, what to decode and when to stop. The adapters perform the
//! reads and writes these decisions ask for.

pub mod async_transcode_decode_step;
pub mod decode_input_step;
pub mod encode_output_step;
pub mod progress_step;
pub mod read_value_plan;
pub mod scratch_read_plan;
pub mod scratch_window;

pub use progress_step::decode_progress;
pub use progress_step::encode_progress;
pub use progress_step::validate_decode_progress;
pub use progress_step::validate_encode_progress;
pub use progress_step::DecodeProgress;
pub use progress_step::DecodeStep;
pub use progress_step::EncodeProgress;
pub use progress_step::EncodeStep;
pub use progress_step::ProgressRejection;
pub use read_value_plan::ReadValueAction;
pub use read_value_plan::ReadValueEvent;
pub use read_value_plan::ReadValuePhase;
pub use read_value_plan::ReadValuePlan;
pub use read_value_plan::ReadValueViolation;
pub use scratch_read_plan::ScratchReadAction;
pub use scratch_read_plan::ScratchReadEvent;
pub use scratch_read_plan::ScratchReadPhase;
pub use scratch_read_plan::ScratchReadPlan;
pub use decode_input_step::call_range;
pub use decode_input_step::decode_input_step;
pub use decode_input_step::CallRange;
pub use decode_input_step::finish_range_end;
pub use decode_input_step::range_end;
pub use decode_input_step::DecodeInputNext;
pub use decode_input_step::DecodeInputStep;
pub use decode_input_step::DecodeInputViolation;
pub use decode_input_step::FinishRangeError;
pub use encode_output_step::encode_output_step;
pub use encode_output_step::poll_spare_requirement;
pub use encode_output_step::required_capacity;
pub use encode_output_step::spare_after_status;
pub use encode_output_step::EncodeOutputNext;
pub use encode_output_step::EncodeOutputStep;
pub use scratch_window::seek_offset_after_scratch;
pub use scratch_window::ScratchWindow;
pub use async_transcode_decode_step::AsyncTranscodeDecodeStep;
