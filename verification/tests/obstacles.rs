use runner_core::anim::Animation;
use runner_core::obstacle::Obstacle;
use runner_core::tuning::LANE_AIR_Y;
use runner_core::tuning::LANE_GROUND_Y;
use runner_core::tuning::OBSTACLE_MIN_X;
use runner_core::tuning::OBSTACLE_RESET_X;
use runner_core::tuning::OBSTACLE_SPACING;
use runner_core::tuning::OBSTACLE_START_X;

fn ground_obstacle_at(x: i64) -> Obstacle {
    Obstacle { x, y: LANE_GROUND_Y, airborne: false, anim: Animation { elapsed_ms: 0, frame: 0 } }
}

#[test]
fn scroll_is_exact() {
    let mut o = ground_obstacle_at(0);
    let recycled = o.step(16, false);
    assert!(!recycled);
    assert_eq!(o.x, -220_000 * 16);
    assert_eq!(o.y, LANE_GROUND_Y);
    assert!(!o.airborne);
}

#[test]
fn zero_dt_leaves_obstacle_unchanged() {
    let mut o = ground_obstacle_at(-123_456);
    let before = o;
    let recycled = o.step(0, true);
    assert!(!recycled);
    assert_eq!(o, before);
}

#[test]
fn crossing_the_left_bound_recycles() {
    // One step carries the obstacle below the left bound: it reappears
    // exactly at the reset x, on the drawn lane, same slot.
    let mut o = ground_obstacle_at(OBSTACLE_MIN_X);
    let recycled = o.step(1, true);
    assert!(recycled);
    assert_eq!(o.x, OBSTACLE_RESET_X);
    assert_eq!(o.y, LANE_AIR_Y);
    assert!(o.airborne);
    assert!(o.y == LANE_AIR_Y || o.y == LANE_GROUND_Y);

    let mut g = ground_obstacle_at(OBSTACLE_MIN_X);
    let recycled = g.step(1, false);
    assert!(recycled);
    assert_eq!(g.x, OBSTACLE_RESET_X);
    assert_eq!(g.y, LANE_GROUND_Y);
    assert!(!g.airborne);
}

#[test]
fn reaching_the_bound_exactly_does_not_recycle() {
    // The bound itself is still inside the band; only crossing below
    // recycles.
    let mut o = ground_obstacle_at(OBSTACLE_MIN_X + 220_000);
    let recycled = o.step(1, true);
    assert!(!recycled);
    assert_eq!(o.x, OBSTACLE_MIN_X);
}

#[test]
fn seeding_spaces_slots_evenly() {
    for (slot, airborne) in [(0usize, true), (1, false), (2, true), (3, false), (4, true)] {
        let o = Obstacle::seeded(slot, airborne);
        assert_eq!(o.x, OBSTACLE_START_X + (slot as i64) * OBSTACLE_SPACING);
        assert_eq!(o.airborne, airborne);
        assert_eq!(o.y, if airborne { LANE_AIR_Y } else { LANE_GROUND_Y });
        assert_eq!(o.anim, Animation { elapsed_ms: 0, frame: 0 });
    }
}
