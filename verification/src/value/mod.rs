//! Owned value conversion traits and adapters.

pub mod codec_value_decoder;
pub mod codec_value_encoder;
pub mod codec_value_ext;
pub mod codec_value_lifecycle;
pub mod decode_lifecycle_output;
pub mod decode_lifecycle_progress;
pub mod value_codec_id;
pub mod value_codec_id_error;
pub mod value_codec_registration;
pub mod value_codec_registration_source;
pub mod value_codec_registry;
pub mod value_codec_registry_error;
pub mod value_decoder;
pub mod value_encoder;

pub use codec_value_decoder::CodecValueDecoder;
pub use codec_value_encoder::CodecValueEncoder;
pub use codec_value_ext::CodecValueExt;
pub use decode_lifecycle_output::DecodeLifecycleOutput;
pub use decode_lifecycle_progress::DecodeLifecycleProgress;
pub use value_codec_id::ValueCodecId;
pub use value_codec_id_error::ValueCodecIdError;
pub use value_codec_registration::ValueCodecRegistration;
pub use value_codec_registration_source::ValueCodecRegistrationSource;
pub use value_codec_registry::ValueCodecRegistry;
pub use value_codec_registry_error::ValueCodecRegistryError;
pub use value_decoder::ValueDecoder;
pub use value_encoder::ValueEncoder;
