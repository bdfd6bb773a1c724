//! Codec contracts, owned value adapters and caller-buffered streaming
//! transcode primitives with machine-checked progress accounting.

pub mod codec;
pub mod num;
pub mod transcode;
pub mod util;
pub mod value;

pub use codec::Codec;
pub use codec::DecodeFailure;
pub use num::NonZeroUsize;
pub use transcode::CapacityError;
pub use transcode::CodecPhase;
pub use transcode::TranscodeContractError;
pub use transcode::TranscodeConvertError;
pub use transcode::TranscodeConverter;
pub use transcode::TranscodeDecodeError;
pub use transcode::TranscodeDomainError;
pub use transcode::TranscodeEncodeError;
pub use transcode::TranscodeEncoder;
pub use transcode::TranscodeError;
pub use transcode::io::AsyncTranscodeDecodeStep;
pub use transcode::TranscodeFailure;
pub use transcode::TranscodeProgress;
pub use transcode::TranscodeStatus;
pub use transcode::Transcoder;
pub use value::CodecValueDecoder;
pub use value::CodecValueEncoder;
pub use value::CodecValueExt;
pub use value::DecodeLifecycleOutput;
pub use value::DecodeLifecycleProgress;
pub use value::ValueCodecId;
pub use value::ValueCodecIdError;
pub use value::ValueCodecRegistration;
pub use value::ValueCodecRegistrationSource;
pub use value::ValueCodecRegistry;
pub use value::ValueCodecRegistryError;
pub use value::ValueDecoder;
pub use value::ValueEncoder;
