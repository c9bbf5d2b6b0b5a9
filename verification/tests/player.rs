use runner_core::anim::Animation;
use runner_core::player::Player;
use runner_core::tuning::FLOOR_CONTACT_Y;
use runner_core::tuning::JUMP_SPEED;
use runner_core::tuning::PLAYER_START_Y;

fn resting_player() -> Player {
    Player { y: FLOOR_CONTACT_Y, vy: 0, anim: Animation { elapsed_ms: 0, frame: 0 } }
}

#[test]
fn clamp_holds_on_floor() {
    // On the floor with no jump input, the position stays exactly at the
    // contact height, whatever the frame time.
    for dt in [0u32, 1, 16, 400, 10_000, 1_000_000] {
        let mut p = resting_player();
        let jumped = p.step(dt, false, false);
        assert!(!jumped);
        assert_eq!(p.y, FLOOR_CONTACT_Y);
        let mut q = resting_player();
        q.step(dt, false, true);
        assert_eq!(q.y, FLOOR_CONTACT_Y);
    }
}

#[test]
fn zero_dt_changes_nothing() {
    let mut p = Player::new();
    let before = p;
    let jumped = p.step(0, false, false);
    assert!(!jumped);
    assert_eq!(p, before);
}

#[test]
fn jump_gives_upward_velocity() {
    // A fresh jump press on the floor: strictly upward velocity and
    // exactly one jump cue.
    let mut p = resting_player();
    let jumped = p.step(16, true, false);
    assert!(jumped);
    assert!(p.vy > 0);
    // Exact values: vy = 350_000 - 500 * 16; y = contact + vy * 16.
    assert_eq!(p.vy, 342_000);
    assert_eq!(p.y, FLOOR_CONTACT_Y + 342_000 * 16);
}

#[test]
fn jump_needs_the_floor() {
    // Airborne, the jump press is ignored: gravity alone acts.
    let mut p = Player { y: 0, vy: 0, anim: Animation { elapsed_ms: 0, frame: 0 } };
    let jumped = p.step(16, true, false);
    assert!(!jumped);
    assert_eq!(p.vy, -8_000);
}

#[test]
fn fast_fall_is_steeper() {
    // Equal frame time, no jump: fast-fall strips strictly more speed.
    let mut fast = Player { y: 0, vy: 0, anim: Animation { elapsed_ms: 0, frame: 0 } };
    let mut norm = Player { y: 0, vy: 0, anim: Animation { elapsed_ms: 0, frame: 0 } };
    fast.step(16, false, true);
    norm.step(16, false, false);
    assert_eq!(fast.vy, -32_000);
    assert_eq!(norm.vy, -8_000);
    assert!((fast.vy).abs() > (norm.vy).abs());
}

#[test]
fn landing_zeroes_velocity() {
    // A fall that crosses the contact height ends exactly on it with
    // the velocity zeroed, not carried into the next frame.
    let mut p = Player { y: FLOOR_CONTACT_Y + 1_000, vy: -100_000, anim: Animation { elapsed_ms: 0, frame: 0 } };
    p.step(100, false, false);
    assert_eq!(p.y, FLOOR_CONTACT_Y);
    assert_eq!(p.vy, 0);
}

#[test]
fn player_starts_above_floor_and_falls() {
    let mut p = Player::new();
    assert_eq!(p.y, PLAYER_START_Y);
    assert_eq!(p.vy, 0);
    // One second of normal gravity from rest lands the player.
    p.step(1000, false, false);
    assert_eq!(p.y, FLOOR_CONTACT_Y);
    assert_eq!(p.vy, 0);
}

#[test]
fn jump_speed_is_the_full_impulse_at_zero_dt() {
    let mut p = resting_player();
    let jumped = p.step(0, true, false);
    assert!(jumped);
    assert_eq!(p.vy, JUMP_SPEED);
    assert_eq!(p.y, FLOOR_CONTACT_Y);
}
