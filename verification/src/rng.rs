//! The one place where the engine touches a random-number generator.

use vstd::prelude::*;

verus! {

/// Relies on `rand::rng` and `rand::RngExt::random_range`: a uniformly
/// random value drawn from the half-open range `[1, 40)`, freshly drawn on
/// every call.
#[verifier::external_body]
pub(crate) fn random_coord() -> (r: u32)
    ensures
        1 <= r < 40,
{
    rand::RngExt::random_range::<u32, _>(&mut rand::rng(), 1..40)
}

} // verus!
