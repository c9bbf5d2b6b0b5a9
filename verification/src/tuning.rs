//! Fixed tunables of the gameplay core.
//!
//! Units: positions in micro-units (one game unit is 1_000_000
//! micro-units), velocities in milli-units per second, durations in
//! milliseconds, gravity in milli-units per second lost per millisecond.

use vstd::prelude::*;

verus! {

/// Micro-units per game unit.
pub const MICRO_PER_UNIT: i64 = 1_000_000;

/// y of the floor surface.
pub const FLOOR_Y: i64 = -100_000_000;

/// Half the player sprite's height; the player's centre can never sink
/// below `FLOOR_Y + PLAYER_HALF_HEIGHT`.
pub const PLAYER_HALF_HEIGHT: i64 = 25_000_000;

/// Lowest y the player's centre can take: resting on the floor.
pub const FLOOR_CONTACT_Y: i64 = FLOOR_Y + PLAYER_HALF_HEIGHT;

/// Slack above the contact height within which the player still counts
/// as standing on the floor (0.1 game units).
pub const ON_FLOOR_EPS: i64 = 100_000;

/// The player's fixed horizontal position.
pub const PLAYER_X: i64 = -300_000_000;

/// Where the player's centre starts a run (slightly above the floor; it
/// falls onto the contact height during the first frames).
pub const PLAYER_START_Y: i64 = -60_000_000;

/// Upward velocity given by a jump, in milli-units per second.
pub const JUMP_SPEED: i64 = 350_000;

/// Milli-units per second of downward speed gained per millisecond
/// under normal gravity (500 game units per second squared).
pub const GRAVITY_NORMAL: i64 = 500;

/// The same while the fast-fall key is held (2000 units per second
/// squared).
pub const GRAVITY_FAST: i64 = 2000;

/// Lower bound the player's velocity is proved to keep: any fall fast
/// enough to pass it would end on the floor within the same step, where
/// the velocity is zeroed.
pub const PLAYER_VY_MIN: i64 = -130_000_000;

/// Upper bound on the player's kinetic-plus-height budget; see
/// `player::Player::energy`. It is the budget right after a jump taken
/// at the top of the on-floor band.
pub const PLAYER_ENERGY_MAX: i64 = 1_000_000 * ON_FLOOR_EPS + 1000 * JUMP_SPEED * JUMP_SPEED;

/// Highest y the player can reach under that budget: the contact height
/// plus the budget in micro-units of height (one millionth of
/// `PLAYER_ENERGY_MAX`).
pub const PLAYER_MAX_Y: i64 = FLOOR_CONTACT_Y + 122_600_000;

/// Horizontal scrolling speed of obstacles, milli-units per second.
pub const OBSTACLE_SPEED: i64 = 220_000;

/// An obstacle whose x falls below this left bound is recycled.
pub const OBSTACLE_MIN_X: i64 = -550_000_000;

/// Where a recycled obstacle reappears.
pub const OBSTACLE_RESET_X: i64 = 550_000_000;

/// x of the first seeded obstacle.
pub const OBSTACLE_START_X: i64 = 400_000_000;

/// Spacing between seeded obstacles.
pub const OBSTACLE_SPACING: i64 = 220_000_000;

/// Number of obstacle slots; the pool is created once and recycled,
/// never grown or shrunk.
pub const OBSTACLE_POOL: usize = 5;

/// Rightmost x an obstacle ever holds: the last seeded slot.
pub const OBSTACLE_MAX_X: i64 = OBSTACLE_START_X + 4 * OBSTACLE_SPACING;

/// y of an obstacle in the ground lane.
pub const LANE_GROUND_Y: i64 = FLOOR_Y + 10_000_000;

/// y of an obstacle in the air lane.
pub const LANE_AIR_Y: i64 = FLOOR_Y + 90_000_000;

/// A player-to-obstacle distance below this ends the run.
pub const COLLISION_RADIUS: i64 = 50_000_000;

/// The square of `COLLISION_RADIUS` (50_000_000 squared), against which
/// squared distances are compared.
pub const COLLISION_RADIUS_SQ: i64 = 2_500_000_000_000_000;

/// Bound within which the collision check's squared distances are
/// proved overflow-free; every gameplay coordinate lies far inside it.
pub const COORD_LIMIT: i64 = 2_000_000_000;

/// Milli-points gained per millisecond while playing (5 points per
/// second).
pub const SCORE_RATE: u64 = 5;

/// Milli-points per displayed point.
pub const MILLI_PER_POINT: u64 = 1000;

/// Period of the player's animation clock, in milliseconds.
pub const PLAYER_ANIM_PERIOD_MS: u32 = 200;

/// Period of an obstacle's animation clock, in milliseconds.
pub const OBSTACLE_ANIM_PERIOD_MS: u32 = 300;

/// Sprite frames in the player's animation cycle.
pub const PLAYER_FRAME_COUNT: usize = 4;

/// Sprite frames in each obstacle lane's animation cycle.
pub const OBSTACLE_FRAME_COUNT: usize = 3;

/// Number of decorative floor tiles laid out at setup.
pub const FLOOR_TILE_COUNT: usize = 20;

/// Width of one floor tile.
pub const FLOOR_TILE_WIDTH: i64 = 64_000_000;

/// Vertical offset of the floor tile sprites below the floor surface.
pub const FLOOR_TILE_Y: i64 = FLOOR_Y - 40_000_000;

} // verus!
