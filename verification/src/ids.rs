//! Identifiers of recording sessions.

use vstd::prelude::*;

verus! {

/// Identifier of one capture/transcription/paste cycle: the 128 bits of a
/// UUID. The default value is the nil UUID.
#[derive(Clone, Copy, Debug, PartialEq, Eq, Hash, Default)]
pub struct SessionId {
    pub value: u128,
}

/// The 128 bits of a random (version 4, RFC 4122 variant) UUID: the version
/// nibble is 4 and the two top bits of the variant are `10`.
pub open spec fn is_random_uuid(value: u128) -> bool {
    (value >> 76u128) & 0xfu128 == 4u128 && (value >> 62u128) & 0x3u128 == 2u128
}

/// `uuid::Uuid::new_v4`, read back with `Uuid::as_u128`. The crate masks
/// random bits and sets the version and variant bits, so the result is a
/// random UUID in the sense of `is_random_uuid`; the other 122 bits come from
/// the operating system's random source and nothing is said of them.
#[verifier::external_body]
fn random_uuid_bits() -> (bits: u128)
    ensures
        is_random_uuid(bits),
{
    uuid::Uuid::new_v4().as_u128()
}

impl SessionId {
    /// A fresh random session identifier, never the nil one.
    pub fn new() -> (id: SessionId)
        ensures
            is_random_uuid(id.value),
            id.value != 0,
    {
        let bits = random_uuid_bits();
        assert(is_random_uuid(bits) ==> bits != 0) by (bit_vector);
        SessionId { value: bits }
    }

    /// The identifier with the given 128 bits.
    pub fn from_u128(value: u128) -> (id: SessionId)
        ensures
            id.value == value,
    {
        SessionId { value }
    }
}

} // verus!
