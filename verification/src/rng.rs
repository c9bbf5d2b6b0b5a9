//! The lane draw: the one place the library touches randomness.
//!
//! Obstacle recycling picks the new lane at random, half-and-half
//! between ground and air. The draw has no reproducibility contract, so
//! nothing is promised of its outcome; every caller states what holds
//! of the frame whichever lane comes back, and deterministic callers
//! (tests, replays) pass their own lane choices instead.

use vstd::prelude::*;

verus! {

/// Relies on rand::random::<bool>: a uniform lane draw — air when true,
/// ground when false. No outcome is promised.
#[verifier::external_body]
pub fn random_lane() -> bool {
    rand::random::<bool>()
}

} // verus!
