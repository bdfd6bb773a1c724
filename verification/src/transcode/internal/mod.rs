//! State machines and step types shared by transcode engines.

pub mod lifecycle_guard;
pub mod lifecycle_phase;
pub mod transcode_state;
pub mod applied_decode_invalid_action;
pub mod decode_step;
pub mod encode_step;
pub mod pending_value;
pub mod cursor_state;
pub mod decode_state;
pub mod convert_state;
pub mod encode_state;
