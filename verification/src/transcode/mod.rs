//! Progress-oriented streaming transcode traits, errors and status types.

pub mod capacity_error;
pub mod codec_phase;
pub mod internal;
pub mod io;
pub mod transcode_contract_error;
pub mod transcode_convert_error;
pub mod transcode_converter;
pub mod transcode_decode_error;
pub mod transcode_domain_error;
pub mod transcode_encode_error;
pub mod transcode_encoder;
pub mod transcode_error;
pub mod transcode_failure;
pub mod transcode_progress;
pub mod transcode_status;
pub mod transcoder;

pub use capacity_error::CapacityError;
pub use codec_phase::CodecPhase;
pub use transcode_contract_error::TranscodeContractError;
pub use transcode_convert_error::TranscodeConvertError;
pub use transcode_converter::TranscodeConverter;
pub use transcode_decode_error::TranscodeDecodeError;
pub use transcode_domain_error::TranscodeDomainError;
pub use transcode_encode_error::TranscodeEncodeError;
pub use transcode_encoder::TranscodeEncoder;
pub use transcode_error::IoErrorClass;
pub use transcode_error::TranscodeError;
pub use transcode_failure::TranscodeFailure;
pub use transcode_progress::TranscodeProgress;
pub use transcode_status::TranscodeStatus;
pub use transcoder::Transcoder;
