//! Identities of rooms, portals and cameras.
//!
//! An identity is a 128-bit value. Fresh identities are random version 4
//! UUIDs, so two of them collide only with negligible probability; nothing in
//! the library relies on more than equality of identities.

use vstd::prelude::*;

verus! {

/// The bits of a UUID that hold its version and its variant.
pub const UUID_LAYOUT_MASK: u128 = 0x0000_0000_0000_f000_c000_0000_0000_0000;

/// What the version and variant bits hold in a random (version 4) UUID.
pub const UUID_RANDOM_LAYOUT: u128 = 0x0000_0000_0000_4000_8000_0000_0000_0000;

/// Whether `bits` has the layout of a random (version 4) UUID.
pub open spec fn is_random_uuid(bits: u128) -> bool {
    bits & UUID_LAYOUT_MASK == UUID_RANDOM_LAYOUT
}

/// Draws a random UUID with `uuid::Uuid::new_v4` and returns its 128 bits
/// as `uuid::Uuid::as_u128` packs them. Which value comes back is left open;
/// the contract only records that `new_v4` stamps the version nibble with 4
/// and the variant bits with binary 10. Nothing of this is proved.
#[verifier::external_body]
fn random_uuid_bits() -> (bits: u128)
    ensures
        is_random_uuid(bits),
{
    uuid::Uuid::new_v4().as_u128()
}

/// The identity of a room.
#[derive(Clone, Copy, Debug, PartialEq, Eq, Hash, Structural)]
pub struct RoomID(pub u128);

/// The identity of a portal.
#[derive(Clone, Copy, Debug, PartialEq, Eq, Hash, Structural)]
pub struct PortalID(pub u128);

/// The identity of a camera.
#[derive(Clone, Copy, Debug, PartialEq, Eq, Hash, Structural)]
pub struct CameraID(pub u128);

impl RoomID {
    /// A fresh random identity.
    pub fn new() -> (id: RoomID)
        ensures
            is_random_uuid(id.0),
    {
        RoomID(random_uuid_bits())
    }
}

impl PortalID {
    /// A fresh random identity.
    pub fn new() -> (id: PortalID)
        ensures
            is_random_uuid(id.0),
    {
        PortalID(random_uuid_bits())
    }
}

impl CameraID {
    /// A fresh random identity.
    pub fn new() -> (id: CameraID)
        ensures
            is_random_uuid(id.0),
    {
        CameraID(random_uuid_bits())
    }
}

} // verus!
