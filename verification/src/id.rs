use vstd::prelude::*;

verus! {

/// Whether a 128-bit value has the layout of a randomly generated UUID:
/// version nibble 4 and the RFC 4122 variant bits `10`.
pub open spec fn is_random_uuid(bits: u128) -> bool {
    &&& (bits >> 76u128) & 0xfu128 == 4u128
    &&& (bits >> 62u128) & 3u128 == 2u128
}

/// Calls `uuid::Uuid::new_v4` and returns the UUID's 128 bits (`as_u128`).
/// The value is random; the contract claims only the version and variant bits
/// that `new_v4` always sets (it masks them in after drawing random bits).
#[verifier::external_body]
fn random_uuid_bits() -> (bits: u128)
    ensures
        is_random_uuid(bits),
{
    uuid::Uuid::new_v4().as_u128()
}

/// A stable unique identifier for any entity in Kotobase: the 128 bits of a UUID.
#[derive(Debug, Clone, Copy, PartialEq, Eq, Hash, Structural)]
pub struct EntityId(pub u128);

impl View for EntityId {
    type V = u128;

    open spec fn view(&self) -> u128 {
        self.0
    }
}

impl EntityId {
    /// Creates a new random entity ID.
    pub fn new() -> (id: Self)
        ensures
            is_random_uuid(id@),
    {
        EntityId(random_uuid_bits())
    }

    /// Creates an entity ID from the 128 bits of an existing UUID.
    pub fn from_uuid(uuid: u128) -> (id: Self)
        ensures
            id@ == uuid,
    {
        EntityId(uuid)
    }

    /// Returns the 128 bits of the underlying UUID.
    pub fn as_uuid(&self) -> (uuid: u128)
        ensures
            uuid == self@,
    {
        self.0
    }
}

impl Default for EntityId {
    fn default() -> (id: Self)
        ensures
            is_random_uuid(id@),
    {
        Self::new()
    }
}

} // verus!
