//! Fresh identifiers. An identifier is the 128-bit number of a UUID.

use vstd::prelude::*;

verus! {

/// The bits of a UUID's number that hold its version and variant.
pub const VERSION_VARIANT_MASK: u128 = 0xF000_C000_0000_0000_0000;

/// What those bits hold in a random (version 4) UUID of the RFC's variant.
pub const RANDOM_VERSION_VARIANT: u128 = 0x4000_8000_0000_0000_0000;

/// Whether a number is that of a random (version 4) UUID.
pub open spec fn is_random_uuid(id: u128) -> bool {
    id & VERSION_VARIANT_MASK == RANDOM_VERSION_VARIANT
}

/// Calls `uuid::Uuid::new_v4` and takes the new UUID's number with `as_u128`.
/// Which number comes is chance; its version and variant bits are those of a
/// random UUID.
#[verifier::external_body]
pub(crate) fn fresh_id() -> (id: u128)
    ensures
        is_random_uuid(id),
{
    uuid::Uuid::new_v4().as_u128()
}

} // verus!
