//! Collision detection: player-to-obstacle proximity.
//!
//! A frame ends the run when the Euclidean distance between the
//! player's centre and any obstacle's centre falls strictly below the
//! collision radius. The comparison is made on squared distances, so it
//! is exact in integers. However many obstacles qualify in one frame,
//! the detector reports a single hit: the transition and the game-over
//! cue fire at most once per frame.

use vstd::prelude::*;

use crate::obstacle::Obstacle;
use crate::tuning::COLLISION_RADIUS_SQ;
use crate::tuning::COORD_LIMIT;
use crate::tuning::PLAYER_X;

verus! {

/// Whether two centres stand strictly closer than the collision radius.
pub open spec fn spec_collides(px: int, py: int, ox: int, oy: int) -> bool {
    (px - ox) * (px - ox) + (py - oy) * (py - oy) < COLLISION_RADIUS_SQ
}

/// Whether the player's centre hits any obstacle of the pool.
pub open spec fn spec_any_collision(py: int, obstacles: Seq<Obstacle>) -> bool {
    exists|i: int|
        0 <= i < obstacles.len() && spec_collides(
            PLAYER_X as int,
            py,
            obstacles[i].x as int,
            obstacles[i].y as int,
        )
}

/// Whether the centres at (px, py) and (ox, oy) stand strictly closer
/// than the collision radius, by comparing squared distances.
pub fn collides(px: i64, py: i64, ox: i64, oy: i64) -> (r: bool)
    requires
        -COORD_LIMIT <= px <= COORD_LIMIT,
        -COORD_LIMIT <= py <= COORD_LIMIT,
        -COORD_LIMIT <= ox <= COORD_LIMIT,
        -COORD_LIMIT <= oy <= COORD_LIMIT,
    ensures
        r == spec_collides(px as int, py as int, ox as int, oy as int),
{
    let dx: i128 = px as i128 - ox as i128;
    let dy: i128 = py as i128 - oy as i128;
    proof {
        assert(dx * dx <= 4_000_000_000 * 4_000_000_000int && dx * dx >= 0) by (nonlinear_arith)
            requires
                -4_000_000_000 <= dx <= 4_000_000_000,
        ;
        assert(dy * dy <= 4_000_000_000 * 4_000_000_000int && dy * dy >= 0) by (nonlinear_arith)
            requires
                -4_000_000_000 <= dy <= 4_000_000_000,
        ;
    }
    dx * dx + dy * dy < COLLISION_RADIUS_SQ as i128
}

/// Whether the player, whose x is fixed, hits any obstacle of the pool.
/// Scans every slot; the single boolean dedupes simultaneous hits.
pub fn any_collision(py: i64, obstacles: &Vec<Obstacle>) -> (r: bool)
    requires
        -COORD_LIMIT <= py <= COORD_LIMIT,
        forall|i: int| 0 <= i < obstacles@.len() ==> (#[trigger] obstacles@[i]).wf(),
    ensures
        r == spec_any_collision(py as int, obstacles@),
{
    let mut i: usize = 0;
    while i < obstacles.len()
        invariant
            0 <= i <= obstacles@.len(),
            -COORD_LIMIT <= py <= COORD_LIMIT,
            forall|j: int| 0 <= j < obstacles@.len() ==> (#[trigger] obstacles@[j]).wf(),
            forall|j: int|
                0 <= j < i ==> !spec_collides(
                    PLAYER_X as int,
                    py as int,
                    (#[trigger] obstacles@[j]).x as int,
                    obstacles@[j].y as int,
                ),
        decreases obstacles@.len() - i,
    {
        let o = &obstacles[i];
        if collides(PLAYER_X, py, o.x, o.y) {
            return true;
        }
        i = i + 1;
    }
    false
}

} // verus!
