//! Failures while freezing a value-codec registry.

use vstd::prelude::*;

use super::value_codec_registration_source::ValueCodecRegistrationSource;

verus! {

/// Failure while freezing a value-codec registry.
#[derive(Clone, Debug)]
pub enum ValueCodecRegistryError {
    /// Multiple registrations claim one stable ID.
    DuplicateId {
        /// Conflicting stable ID.
        id: &'static str,
        /// Registration sources in deterministic order.
        sources: Vec<ValueCodecRegistrationSource>,
    },
}

} // verus!
