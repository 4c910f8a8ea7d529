//! Fresh 128-bit identifiers for correlating requests with responses.

use vstd::prelude::*;

verus! {

/// Relies on uuid::Uuid::new_v4 for a fresh random version-4 UUID, taken as
/// its 128-bit big-endian value. Nothing is promised of the value: it is
/// random, so callers check it against the ids already in use. With the
/// default backend the call aborts if the operating system's randomness
/// source fails, an environmental failure like allocation exhaustion.
#[verifier::external_body]
pub(crate) fn fresh_correlation_id() -> u128 {
    uuid::Uuid::new_v4().as_u128()
}

} // verus!
