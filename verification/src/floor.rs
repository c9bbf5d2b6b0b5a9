//! The decorative floor: a fixed row of tiles laid out once at setup
//! and never moved.

use vstd::prelude::*;

use crate::tuning::FLOOR_TILE_COUNT;
use crate::tuning::FLOOR_TILE_WIDTH;

verus! {

/// x of one floor tile: the row is centred, so each slot stands one
/// tile width right of the previous one, starting half the row
/// (640_000_000 micro-units) left of the origin. Its y is the fixed
/// `tuning::FLOOR_TILE_Y`.
pub fn floor_tile_x(slot: usize) -> (x: i64)
    requires
        slot < FLOOR_TILE_COUNT,
    ensures
        x == slot * FLOOR_TILE_WIDTH - 640_000_000,
{
    (slot as i64) * FLOOR_TILE_WIDTH - 640_000_000
}

} // verus!
