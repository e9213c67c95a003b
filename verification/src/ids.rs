use vstd::prelude::*;

verus! {

/// The mask of a UUID's version nibble and variant bits, with the UUID read
/// as a big-endian `u128`.
pub open spec fn uuid_version_variant_mask() -> u128 {
    0xF000_C000_0000_0000_0000u128
}

/// A version-4 (random) UUID of the RFC 4122 variant: version nibble `4`,
/// variant bits `10`.
pub open spec fn is_random_uuid(id: u128) -> bool {
    id & uuid_version_variant_mask() == 0x4000_8000_0000_0000_0000u128
}

/// A fresh random id is never the nil UUID, so a row never gets id 0.
pub proof fn random_id_is_not_nil(id: u128)
    requires
        is_random_uuid(id),
    ensures
        id != 0,
{
    assert(id & 0xF000_C000_0000_0000_0000u128 == 0x4000_8000_0000_0000_0000u128 ==> id != 0)
        by (bit_vector);
}

/// Calls `uuid::Uuid::new_v4` and reads the UUID with `as_u128`.
/// The value comes from the operating system's random source, so nothing
/// ties it to any input; the crate's source masks the random bits so that
/// the version nibble is `4` and the variant bits are `10` on every outcome,
/// and that is all this contract claims. The call panics only when the
/// operating system's random source fails, a failure of the environment
/// that no argument could rule out.
#[verifier::external_body]
pub(crate) fn new_random_id() -> (id: u128)
    ensures
        is_random_uuid(id),
{
    uuid::Uuid::new_v4().as_u128()
}

} // verus!
