//! Account identifiers.

use vstd::prelude::*;

verus! {

/// The 128 bits of a UUID, most significant byte first.
#[derive(Clone, Copy, Debug, PartialEq, Eq, Structural, Hash)]
pub struct UserId {
    pub value: u128,
}

/// The bits carry version 4 (random) and the RFC 4122 variant.
pub open spec fn is_random_uuid(value: u128) -> bool {
    &&& (value >> 76u128) & 0xf == 4
    &&& (value >> 62u128) & 0x3 == 2
}

impl UserId {
    pub fn new(value: u128) -> (id: UserId)
        ensures
            id.value == value,
    {
        UserId { value }
    }

    pub fn as_u128(&self) -> (value: u128)
        ensures
            value == self.value,
    {
        self.value
    }

    /// Tells whether the identifier has the shape that [`UserId::generate`]
    /// gives to every identifier it makes.
    pub fn is_random(&self) -> (b: bool)
        ensures
            b == is_random_uuid(self.value),
    {
        (self.value >> 76u128) & 0xf == 4 && (self.value >> 62u128) & 0x3 == 2
    }

    /// A fresh random identifier.
    pub fn generate() -> (id: UserId)
        ensures
            is_random_uuid(id.value),
    {
        UserId { value: random_uuid_bits() }
    }
}

/// Draws a version 4 UUID with `uuid::Uuid::new_v4` and returns its bits
/// (`as_u128`). The bits come from the operating system's random source, so
/// nothing is claimed of them but what the outside function sets by mask in
/// every UUID it returns: the version nibble and the two variant bits.
#[verifier::external_body]
fn random_uuid_bits() -> (value: u128)
    ensures
        is_random_uuid(value),
{
    uuid::Uuid::new_v4().as_u128()
}

} // verus!
