//! Obstacles: scrolling, lanes, and recycling.
//!
//! A fixed pool of obstacle slots is seeded once, spaced evenly to the
//! right of the screen. Every frame each obstacle scrolls left at the
//! fixed speed; one whose x falls below the left bound is recycled in
//! place — same slot, position reset to the right edge, lane (ground or
//! air, each with its fixed height) chosen afresh by the caller's lane
//! draw. The pool never grows or shrinks.

use vstd::prelude::*;

use crate::anim::Animation;
use crate::tuning::LANE_AIR_Y;
use crate::tuning::LANE_GROUND_Y;
use crate::tuning::OBSTACLE_ANIM_PERIOD_MS;
use crate::tuning::OBSTACLE_FRAME_COUNT;
use crate::tuning::OBSTACLE_MAX_X;
use crate::tuning::OBSTACLE_MIN_X;
use crate::tuning::OBSTACLE_POOL;
use crate::tuning::OBSTACLE_RESET_X;
use crate::tuning::OBSTACLE_SPACING;
use crate::tuning::OBSTACLE_SPEED;
use crate::tuning::OBSTACLE_START_X;

verus! {

/// The fixed height of a lane's obstacles: in the air lane high above
/// the floor, in the ground lane just over it.
pub open spec fn spec_lane_y(airborne: bool) -> int {
    if airborne {
        LANE_AIR_Y as int
    } else {
        LANE_GROUND_Y as int
    }
}

/// One obstacle slot: position, lane, and its animation clock.
#[derive(Clone, Copy, Debug, PartialEq, Eq, Structural)]
pub struct Obstacle {
    /// Horizontal position in micro-units; scrolls left.
    pub x: i64,
    /// Height in micro-units; fixed by the lane.
    pub y: i64,
    /// The lane: air when true, ground when false.
    pub airborne: bool,
    /// The sprite animation clock.
    pub anim: Animation,
}

impl Obstacle {
    /// Invariant: x within the travelled band (between the left bound
    /// and the rightmost seeded slot), height matching the lane, clock
    /// well-formed.
    pub open spec fn wf(self) -> bool {
        &&& OBSTACLE_MIN_X <= self.x <= OBSTACLE_MAX_X
        &&& self.y == spec_lane_y(self.airborne)
        &&& self.anim.wf(OBSTACLE_ANIM_PERIOD_MS, OBSTACLE_FRAME_COUNT)
    }

    /// Where a frame's scroll carries this obstacle
    /// (`OBSTACLE_SPEED` milli-units per second leftwards).
    pub open spec fn spec_x_scrolled(self, dt_ms: u32) -> int {
        self.x - 220_000 * dt_ms
    }

    /// Whether the scroll carries it below the left bound, so the step
    /// recycles it.
    pub open spec fn spec_recycles(self, dt_ms: u32) -> bool {
        self.spec_x_scrolled(dt_ms) < OBSTACLE_MIN_X
    }

    /// The obstacle after one movement step with the given lane draw
    /// (used only when the step recycles; the animation clock ticks in
    /// a step of its own).
    pub open spec fn spec_stepped(self, dt_ms: u32, lane_if_recycled: bool) -> Obstacle {
        if self.spec_recycles(dt_ms) {
            Obstacle {
                x: OBSTACLE_RESET_X,
                y: spec_lane_y(lane_if_recycled) as i64,
                airborne: lane_if_recycled,
                anim: self.anim,
            }
        } else {
            Obstacle {
                x: self.spec_x_scrolled(dt_ms) as i64,
                y: self.y,
                airborne: self.airborne,
                anim: self.anim,
            }
        }
    }

    /// The seeded obstacle of one slot: evenly spaced to the right of
    /// the screen, on the drawn lane, with a fresh clock.
    pub open spec fn spec_seeded(slot: int, airborne: bool) -> Obstacle {
        Obstacle {
            x: (OBSTACLE_START_X + slot * OBSTACLE_SPACING) as i64,
            y: spec_lane_y(airborne) as i64,
            airborne,
            anim: Animation { elapsed_ms: 0, frame: 0 },
        }
    }

    /// Seed one slot's obstacle.
    pub fn seeded(slot: usize, airborne: bool) -> (o: Obstacle)
        requires
            slot < OBSTACLE_POOL,
        ensures
            o.wf(),
            o == Obstacle::spec_seeded(slot as int, airborne),
            o.x == OBSTACLE_START_X + slot * OBSTACLE_SPACING,
            o.airborne == airborne,
            o.anim == (Animation { elapsed_ms: 0, frame: 0 }),
    {
        let y = if airborne {
            LANE_AIR_Y
        } else {
            LANE_GROUND_Y
        };
        Obstacle {
            x: OBSTACLE_START_X + (slot as i64) * OBSTACLE_SPACING,
            y,
            airborne,
            anim: Animation::new(),
        }
    }

    /// One movement step: scroll left; recycle to the right edge on the
    /// drawn lane when the left bound is crossed. The result says
    /// whether the slot was recycled, i.e. whether the caller must
    /// restyle the sprite for the (possibly new) lane.
    pub fn step(&mut self, dt_ms: u32, lane_if_recycled: bool) -> (recycled: bool)
        requires
            old(self).wf(),
        ensures
            final(self).wf(),
            *final(self) == old(self).spec_stepped(dt_ms, lane_if_recycled),
            recycled == old(self).spec_recycles(dt_ms),
    {
        let scrolled: i64 = self.x - OBSTACLE_SPEED * (dt_ms as i64);
        if scrolled < OBSTACLE_MIN_X {
            self.x = OBSTACLE_RESET_X;
            self.airborne = lane_if_recycled;
            self.y = if lane_if_recycled {
                LANE_AIR_Y
            } else {
                LANE_GROUND_Y
            };
            true
        } else {
            self.x = scrolled;
            false
        }
    }
}

/// Recycling law: an obstacle whose x crosses below the left bound in a
/// step stands, after the step, exactly at the reset x, at the height of
/// one of the two canonical lanes — same slot, only position and lane
/// reassigned.
pub proof fn lemma_recycle_resets(o: Obstacle, dt_ms: u32, lane: bool)
    requires
        o.wf(),
        o.spec_recycles(dt_ms),
    ensures
        o.spec_stepped(dt_ms, lane).x == OBSTACLE_RESET_X,
        o.spec_stepped(dt_ms, lane).y == LANE_GROUND_Y || o.spec_stepped(dt_ms, lane).y
            == LANE_AIR_Y,
        o.spec_stepped(dt_ms, lane).anim == o.anim,
{
}

} // verus!
