//! The player: vertical kinematics, jumping, and the floor clamp.
//!
//! Per frame the player controller, in this order:
//! 1. decides whether the player stands on the floor (within a small
//!    slack above the contact height);
//! 2. on a fresh jump press while on the floor, sets the vertical
//!    velocity to the jump speed and asks for the jump cue;
//! 3. integrates gravity into the velocity (a steeper rate while the
//!    fast-fall key is held);
//! 4. integrates the velocity into the position and clamps the result
//!    to the floor contact height, zeroing the velocity on clamp so a
//!    landing never bounces through the floor on the next frame.
//!
//! Well-formedness bounds the player's state by an energy budget —
//! height plus a kinetic term — that a jump establishes and every step
//! preserves, so position and velocity stay in ranges the integer
//! arithmetic is proved to respect.

use vstd::prelude::*;
use vstd::math::abs;

use crate::anim::Animation;
use crate::tuning::FLOOR_CONTACT_Y;
use crate::tuning::GRAVITY_FAST;
use crate::tuning::GRAVITY_NORMAL;
use crate::tuning::JUMP_SPEED;
use crate::tuning::ON_FLOOR_EPS;
use crate::tuning::PLAYER_ANIM_PERIOD_MS;
use crate::tuning::PLAYER_ENERGY_MAX;
use crate::tuning::PLAYER_FRAME_COUNT;
use crate::tuning::PLAYER_MAX_Y;
use crate::tuning::PLAYER_START_Y;
use crate::tuning::PLAYER_VY_MIN;

verus! {

/// Whether a centre height counts as standing on the floor.
pub open spec fn spec_on_floor(y: int) -> bool {
    y <= FLOOR_CONTACT_Y + ON_FLOOR_EPS
}

/// Milli-units per second of downward speed gravity takes over a frame
/// of `dt_ms`: `GRAVITY_FAST` per millisecond while fast-fall is held,
/// else `GRAVITY_NORMAL` per millisecond.
pub open spec fn spec_gravity_drop(dt_ms: u32, fast_fall: bool) -> int {
    if fast_fall {
        2000 * dt_ms
    } else {
        500 * dt_ms
    }
}

/// The player's per-run state: centre height, vertical velocity, and
/// its animation clock. The horizontal position is fixed
/// (`tuning::PLAYER_X`).
#[derive(Clone, Copy, Debug, PartialEq, Eq, Structural)]
pub struct Player {
    /// Centre height in micro-units; never below `FLOOR_CONTACT_Y`.
    pub y: i64,
    /// Vertical velocity in milli-units per second.
    pub vy: i64,
    /// The sprite animation clock.
    pub anim: Animation,
}

impl Player {
    /// Height-plus-kinetic budget: a millionth of it bounds the height
    /// above the contact point in micro-units. Only upward velocity
    /// counts — downward speed can never be traded back into height,
    /// since a landing zeroes it.
    pub open spec fn energy(self) -> int {
        1_000_000 * (self.y - FLOOR_CONTACT_Y) + 1000 * (if self.vy > 0 {
            self.vy * self.vy
        } else {
            0
        })
    }

    /// Invariant every constructor establishes and every step keeps.
    pub open spec fn wf(self) -> bool {
        &&& FLOOR_CONTACT_Y <= self.y
        &&& PLAYER_VY_MIN <= self.vy <= JUMP_SPEED
        &&& self.energy() <= PLAYER_ENERGY_MAX
        &&& self.anim.wf(PLAYER_ANIM_PERIOD_MS, PLAYER_FRAME_COUNT)
    }

    /// Whether a jump press fires this frame: only on the floor.
    pub open spec fn spec_jump_fires(self, jump_pressed: bool) -> bool {
        jump_pressed && spec_on_floor(self.y as int)
    }

    /// The velocity the step integrates gravity into: the jump speed if
    /// a jump fires, else the current velocity.
    pub open spec fn spec_vy_launched(self, jump_pressed: bool) -> int {
        if self.spec_jump_fires(jump_pressed) {
            JUMP_SPEED as int
        } else {
            self.vy as int
        }
    }

    /// The velocity after gravity acted for `dt_ms`, before any clamp.
    pub open spec fn spec_vy_integrated(self, dt_ms: u32, jump_pressed: bool, fast_fall: bool) -> int {
        self.spec_vy_launched(jump_pressed) - spec_gravity_drop(dt_ms, fast_fall)
    }

    /// The height the velocity carries the player to, before the clamp.
    pub open spec fn spec_y_raw(self, dt_ms: u32, jump_pressed: bool, fast_fall: bool) -> int {
        self.y + self.spec_vy_integrated(dt_ms, jump_pressed, fast_fall) * dt_ms
    }

    /// Whether the step ends clamped onto the floor.
    pub open spec fn spec_lands(self, dt_ms: u32, jump_pressed: bool, fast_fall: bool) -> bool {
        self.spec_y_raw(dt_ms, jump_pressed, fast_fall) < FLOOR_CONTACT_Y
    }

    /// The player after one movement step (the animation clock ticks in
    /// a step of its own).
    pub open spec fn spec_stepped(self, dt_ms: u32, jump_pressed: bool, fast_fall: bool) -> Player {
        if self.spec_lands(dt_ms, jump_pressed, fast_fall) {
            Player { y: FLOOR_CONTACT_Y, vy: 0, anim: self.anim }
        } else {
            Player {
                y: self.spec_y_raw(dt_ms, jump_pressed, fast_fall) as i64,
                vy: self.spec_vy_integrated(dt_ms, jump_pressed, fast_fall) as i64,
                anim: self.anim,
            }
        }
    }

    /// The player at the start of a run: at the start height, at rest,
    /// with a fresh animation clock.
    pub open spec fn spec_initial() -> Player {
        Player {
            y: PLAYER_START_Y,
            vy: 0,
            anim: Animation { elapsed_ms: 0, frame: 0 },
        }
    }

    /// Make the starting player.
    pub fn new() -> (p: Player)
        ensures
            p.wf(),
            p == Player::spec_initial(),
            p.y == PLAYER_START_Y,
            p.vy == 0,
    {
        Player { y: PLAYER_START_Y, vy: 0, anim: Animation::new() }
    }

    /// Whether the player currently stands on the floor.
    pub fn on_floor(&self) -> (r: bool)
        ensures
            r == spec_on_floor(self.y as int),
    {
        self.y <= FLOOR_CONTACT_Y + ON_FLOOR_EPS
    }

    /// One movement step: jump if freshly pressed on the floor, then
    /// integrate gravity and velocity, then clamp to the floor (zeroing
    /// the velocity on clamp). The result says whether the jump fired,
    /// i.e. whether the caller must emit exactly one jump cue.
    pub fn step(&mut self, dt_ms: u32, jump_pressed: bool, fast_fall: bool) -> (jumped: bool)
        requires
            old(self).wf(),
        ensures
            final(self).wf(),
            *final(self) == old(self).spec_stepped(dt_ms, jump_pressed, fast_fall),
            jumped == old(self).spec_jump_fires(jump_pressed),
    {
        let gravity: i64 = if fast_fall {
            GRAVITY_FAST
        } else {
            GRAVITY_NORMAL
        };
        let mut jumped = false;
        let mut vy = self.vy;
        if jump_pressed && self.on_floor() {
            vy = JUMP_SPEED;
            jumped = true;
        }
        let ghost launched = vy as int;
        vy = vy - gravity * (dt_ms as i64);
        proof {
            lemma_launched_energy(*self, jump_pressed, launched);
            assert(vy == launched - spec_gravity_drop(dt_ms, fast_fall));
            assert((vy as int) * (dt_ms as int) <= 350_000 * 4_294_967_295int && (vy as int) * (
            dt_ms as int) >= (-10_000_000_000_000int) * 4_294_967_295int) by (nonlinear_arith)
                requires
                    -10_000_000_000_000 <= vy as int <= 350_000,
                    0 <= dt_ms as int <= 4_294_967_295,
            ;
        }
        let raw: i128 = (self.y as i128) + (vy as i128) * (dt_ms as i128);
        if raw < FLOOR_CONTACT_Y as i128 {
            self.y = FLOOR_CONTACT_Y;
            self.vy = 0;
        } else {
            proof {
                lemma_no_land_bounds(self.y as int, launched, vy as int, dt_ms, fast_fall);
            }
            self.y = raw as i64;
            self.vy = vy;
        }
        jumped
    }
}

/// The budget right after the jump branch is within `PLAYER_ENERGY_MAX`:
/// a fired jump starts from the on-floor band with exactly the jump
/// speed; without one the player's own budget carries over.
proof fn lemma_launched_energy(p: Player, jump_pressed: bool, launched: int)
    requires
        p.wf(),
        launched == p.spec_vy_launched(jump_pressed),
    ensures
        PLAYER_VY_MIN <= launched <= JUMP_SPEED,
        1_000_000 * (p.y - FLOOR_CONTACT_Y) + 1000 * (if launched > 0 {
            launched * launched
        } else {
            0
        }) <= PLAYER_ENERGY_MAX,
{
    if p.spec_jump_fires(jump_pressed) {
        assert(p.y - FLOOR_CONTACT_Y <= ON_FLOOR_EPS);
    }
}

/// Bounds of a step that does not end on the floor: the raw height and
/// the integrated velocity stay within the well-formed ranges, so the
/// casts back to `i64` are exact and the energy budget is preserved.
proof fn lemma_no_land_bounds(y: int, launched: int, vy: int, dt_ms: u32, fast_fall: bool)
    requires
        FLOOR_CONTACT_Y <= y,
        1_000_000 * (y - FLOOR_CONTACT_Y) + 1000 * (if launched > 0 {
            launched * launched
        } else {
            0
        }) <= PLAYER_ENERGY_MAX,
        PLAYER_VY_MIN <= launched <= JUMP_SPEED,
        vy == launched - spec_gravity_drop(dt_ms, fast_fall),
        y + vy * dt_ms >= FLOOR_CONTACT_Y,
    ensures
        FLOOR_CONTACT_Y <= y + vy * dt_ms <= PLAYER_MAX_Y,
        PLAYER_VY_MIN <= vy <= JUMP_SPEED,
        1_000_000 * (y + vy * dt_ms - FLOOR_CONTACT_Y) + 1000 * (if vy > 0 {
            vy * vy
        } else {
            0
        }) <= PLAYER_ENERGY_MAX,
{
    let dt = dt_ms as int;
    assert(y <= PLAYER_MAX_Y);
    if vy > 0 {
        // Ascending: the budget absorbs the climb, because gravity has
        // already been charged against the velocity for the whole step.
        if fast_fall {
            assert(1_000_000 * (vy * dt) + 1000 * (vy * vy) <= 1000 * (launched * launched))
                by (nonlinear_arith)
                requires
                    vy == launched - 2000 * dt,
                    vy > 0,
                    dt >= 0,
            ;
        } else {
            assert(1_000_000 * (vy * dt) + 1000 * (vy * vy) <= 1000 * (launched * launched))
                by (nonlinear_arith)
                requires
                    vy == launched - 500 * dt,
                    vy > 0,
                    dt >= 0,
            ;
        }
        assert(vy * dt >= 0) by (nonlinear_arith)
            requires
                vy > 0,
                dt >= 0,
        ;
    } else {
        // Level or descending: the height does not grow, and a fall
        // fast enough to leave the velocity range would have crossed
        // the floor, against the hypothesis.
        assert(vy * dt <= 0) by (nonlinear_arith)
            requires
                vy <= 0,
                dt >= 0,
        ;
        if vy < PLAYER_VY_MIN {
            assert(dt >= 1);
            assert(vy * dt <= vy) by (nonlinear_arith)
                requires
                    vy < 0,
                    dt >= 1,
            ;
            assert(y + vy * dt < FLOOR_CONTACT_Y);
        }
    }
}

/// Resting law: on the floor with no upward velocity and no jump input,
/// the position stays exactly at the contact height, whatever the
/// frame's elapsed time and whether fast-fall is held.
pub proof fn lemma_rest_on_floor(p: Player, dt_ms: u32, fast_fall: bool)
    requires
        p.wf(),
        p.y == FLOOR_CONTACT_Y,
        p.vy <= 0,
    ensures
        p.spec_stepped(dt_ms, false, fast_fall).y == FLOOR_CONTACT_Y,
{
    let vy = p.spec_vy_integrated(dt_ms, false, fast_fall);
    assert(vy <= 0);
    assert(vy * dt_ms <= 0) by (nonlinear_arith)
        requires
            vy <= 0,
            dt_ms >= 0,
    ;
}

/// Jump law: a fresh jump press while on the floor leaves the player
/// with strictly upward velocity after the step — provided gravity over
/// the step does not cancel the whole impulse — and the jump cue fires.
pub proof fn lemma_jump_launches(p: Player, dt_ms: u32, fast_fall: bool)
    requires
        p.wf(),
        spec_on_floor(p.y as int),
        spec_gravity_drop(dt_ms, fast_fall) < JUMP_SPEED,
    ensures
        p.spec_jump_fires(true),
        p.spec_stepped(dt_ms, true, fast_fall).vy > 0,
{
    let vy = p.spec_vy_integrated(dt_ms, true, fast_fall);
    assert(0 < vy <= JUMP_SPEED);
    assert(vy * dt_ms >= 0) by (nonlinear_arith)
        requires
            vy > 0,
            dt_ms >= 0,
    ;
    assert(!p.spec_lands(dt_ms, true, fast_fall));
}

/// Gravity law: over one step of equal, positive elapsed time with no
/// jump, fast-fall changes the velocity strictly more than normal
/// gravity does — provided the fast-fall step does not end clamped on
/// the floor (a clamp zeroes both runs' velocities alike).
pub proof fn lemma_fast_fall_steeper(p: Player, dt_ms: u32)
    requires
        p.wf(),
        dt_ms > 0,
        !p.spec_lands(dt_ms, false, true),
    ensures
        abs(p.spec_stepped(dt_ms, false, true).vy - p.vy) > abs(
            p.spec_stepped(dt_ms, false, false).vy - p.vy,
        ),
{
    let vy_fast = p.spec_vy_integrated(dt_ms, false, true);
    let vy_norm = p.spec_vy_integrated(dt_ms, false, false);
    assert(vy_norm - vy_fast == 1500 * dt_ms);
    assert(vy_norm * dt_ms >= vy_fast * dt_ms) by (nonlinear_arith)
        requires
            vy_norm >= vy_fast,
            dt_ms >= 0,
    ;
    assert(!p.spec_lands(dt_ms, false, false));
    assert(p.spec_stepped(dt_ms, false, true).vy == vy_fast);
    assert(p.spec_stepped(dt_ms, false, false).vy == vy_norm);
}

} // verus!
