//! The one source of randomness: a drawn 32-bit value.
//!
//! Nothing is promised of the draw; every consumer states what holds of
//! every outcome.

use vstd::prelude::*;

verus! {

/// Relies on rand::random: draws a uniformly distributed `u32` from the
/// thread-local generator.  No contract: callers handle every value.
#[verifier::external_body]
pub(crate) fn random_u32() -> u32 {
    rand::random::<u32>()
}

} // verus!
