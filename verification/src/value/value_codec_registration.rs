//! Statically linked value-codec registrations.

use vstd::prelude::*;

use super::value_codec_id::ValueCodecId;
use super::value_codec_registration_source::ValueCodecRegistrationSource;

verus! {

/// One linked value-codec implementation: its stable ID, the descriptor
/// that executes it and where it was registered.
#[derive(Clone, Copy, Debug)]
pub struct ValueCodecRegistration<D> {
    id: ValueCodecId,
    descriptor: D,
    source: ValueCodecRegistrationSource,
}

impl<D> ValueCodecRegistration<D> {
    /// The stable value-codec ID.
    pub closed spec fn spec_id(self) -> ValueCodecId {
        self.id
    }

    /// The executable descriptor.
    pub closed spec fn spec_descriptor(self) -> D {
        self.descriptor
    }

    /// The linked source location.
    pub closed spec fn spec_source(self) -> ValueCodecRegistrationSource {
        self.source
    }

    /// The bytes of the stable ID, the key registries order and find by.
    pub open spec fn key(self) -> Seq<u8> {
        self.spec_id().spec_id_bytes()
    }

    /// Creates a registration from validated static facts.
    pub fn new(id: ValueCodecId, descriptor: D, source: ValueCodecRegistrationSource) -> (
        registration: Self)
        ensures
            registration.spec_id() == id,
            registration.spec_descriptor() == descriptor,
            registration.spec_source() == source,
    {
        ValueCodecRegistration { id, descriptor, source }
    }

    /// Returns the stable value-codec ID.
    pub fn id(&self) -> (id: ValueCodecId)
        ensures
            id == self.spec_id(),
    {
        self.id
    }

    /// Returns the executable descriptor.
    pub fn descriptor(&self) -> (descriptor: &D)
        ensures
            *descriptor == self.spec_descriptor(),
    {
        &self.descriptor
    }

    /// Returns the linked source location.
    pub fn source(&self) -> (source: ValueCodecRegistrationSource)
        ensures
            source == self.spec_source(),
    {
        self.source
    }
}

} // verus!
