use runner_core::anim::Animation;
use runner_core::collision::collides;
use runner_core::obstacle::Obstacle;
use runner_core::player::Player;
use runner_core::score::Score;
use runner_core::tuning::FLOOR_CONTACT_Y;
use runner_core::tuning::LANE_GROUND_Y;
use runner_core::tuning::OBSTACLE_SPACING;
use runner_core::tuning::OBSTACLE_START_X;
use runner_core::tuning::PLAYER_X;
use runner_core::world::FrameCues;
use runner_core::world::FrameInput;
use runner_core::world::GameState;
use runner_core::world::World;

fn no_input() -> FrameInput {
    FrameInput { start_pressed: false, jump_just_pressed: false, fast_fall_held: false }
}

fn fresh_anim() -> Animation {
    Animation { elapsed_ms: 0, frame: 0 }
}

fn ground_obstacle_at(x: i64) -> Obstacle {
    Obstacle { x, y: LANE_GROUND_Y, airborne: false, anim: fresh_anim() }
}

/// A playing world whose obstacles stand at the given x positions.
fn playing_world(xs: [i64; 5]) -> World {
    World {
        state: GameState::Playing,
        player: Player { y: FLOOR_CONTACT_Y, vy: 0, anim: fresh_anim() },
        obstacles: xs.iter().map(|&x| ground_obstacle_at(x)).collect(),
        score: Score::new(),
    }
}

/// Obstacle x positions all far from the player.
const FAR: [i64; 5] = [0, 110_000_000, 220_000_000, 330_000_000, 440_000_000];

#[test]
fn collision_scenario() {
    // Player at the origin, obstacle 30 units away, radius 50: hit.
    assert!(collides(0, 0, 30_000_000, 0));
    assert!(collides(0, 0, 10_000_000, 0));
}

#[test]
fn non_collision_scenario() {
    // Player at the origin, obstacle 100 units away, radius 50: no hit.
    assert!(!collides(0, 0, 100_000_000, 0));
    // The radius itself is not a hit: the comparison is strict.
    assert!(!collides(0, 0, 50_000_000, 0));
}

#[test]
fn a_hit_ends_the_run_with_one_cue() {
    // Two obstacles within the radius in the same frame: one
    // transition, one cue.
    let mut xs = FAR;
    xs[0] = PLAYER_X;
    xs[1] = PLAYER_X + 10_000_000;
    let mut w = playing_world(xs);
    let cues = w.step_frame(no_input(), 0, &vec![false; 5]);
    assert_eq!(w.state, GameState::GameOver);
    assert_eq!(cues, FrameCues { jump: false, game_over: true });

    // The end state is terminal and silent: another frame changes
    // nothing and repeats no cue.
    let frozen_score = w.score;
    let cues = w.step_frame(no_input(), 1000, &vec![false; 5]);
    assert_eq!(w.state, GameState::GameOver);
    assert_eq!(cues, FrameCues { jump: false, game_over: false });
    assert_eq!(w.score, frozen_score);
}

#[test]
fn far_obstacles_keep_playing() {
    let mut w = playing_world(FAR);
    let cues = w.step_frame(no_input(), 16, &vec![false; 5]);
    assert_eq!(w.state, GameState::Playing);
    assert_eq!(cues, FrameCues { jump: false, game_over: false });
}

#[test]
fn menu_gates_the_gameplay_systems() {
    // In the menu, elapsed time moves nothing, scores nothing, plays
    // nothing.
    let lanes = vec![true, false, true, false, true];
    let mut w = World::new(&lanes);
    let before_player = w.player;
    let before_obstacles = w.obstacles.clone();
    let cues = w.step_frame(no_input(), 100_000, &vec![false; 5]);
    assert_eq!(w.state, GameState::Menu);
    assert_eq!(w.player, before_player);
    assert_eq!(w.obstacles, before_obstacles);
    assert_eq!(w.score.milli, 0);
    assert_eq!(cues, FrameCues { jump: false, game_over: false });

    // A start key moves the flow to playing — and only the flow.
    let start = FrameInput { start_pressed: true, ..no_input() };
    w.step_frame(start, 100_000, &vec![false; 5]);
    assert_eq!(w.state, GameState::Playing);
    assert_eq!(w.player, before_player);
    assert_eq!(w.obstacles, before_obstacles);
    assert_eq!(w.score.milli, 0);
}

#[test]
fn setup_seeds_the_pool() {
    let lanes = vec![true, false, true, false, true];
    let w = World::new(&lanes);
    assert_eq!(w.state, GameState::Menu);
    assert_eq!(w.obstacles.len(), 5);
    for (i, o) in w.obstacles.iter().enumerate() {
        assert_eq!(o.x, OBSTACLE_START_X + (i as i64) * OBSTACLE_SPACING);
        assert_eq!(o.airborne, lanes[i]);
    }
}

#[test]
fn recycling_keeps_the_pool_size() {
    // Frames long enough to recycle every obstacle never change the
    // pool size or the slots' identity.
    let mut w = playing_world(FAR);
    for _ in 0..10 {
        w.step_frame(no_input(), 4000, &vec![true; 5]);
        assert_eq!(w.obstacles.len(), 5);
    }
}

#[test]
fn score_grows_while_playing() {
    // 1.2 seconds of play: five points per second, shown truncated.
    let mut w = playing_world(FAR);
    for dt in [400u32, 400, 400] {
        w.step_frame(no_input(), dt, &vec![false; 5]);
    }
    assert_eq!(w.score.milli, 6000);
    assert_eq!(w.score.points(), 6);
    assert_eq!(w.score.line(), "Score: 6");
}

#[test]
fn jump_cue_fires_exactly_once() {
    let mut w = playing_world(FAR);
    let jump = FrameInput { jump_just_pressed: true, ..no_input() };
    let cues = w.step_frame(jump, 16, &vec![false; 5]);
    assert!(cues.jump);
    assert!(w.player.vy > 0);
    // Airborne now: a held press fires no second cue.
    let cues = w.step_frame(jump, 16, &vec![false; 5]);
    assert!(!cues.jump);
}

#[test]
fn random_setup_and_frames_keep_the_invariants() {
    let mut w = World::new_random();
    assert_eq!(w.obstacles.len(), 5);
    assert_eq!(w.state, GameState::Menu);
    let start = FrameInput { start_pressed: true, ..no_input() };
    w.step_frame_random(start, 16);
    assert_eq!(w.state, GameState::Playing);
    for _ in 0..100 {
        w.step_frame_random(no_input(), 16);
        assert_eq!(w.obstacles.len(), 5);
        assert!(w.player.y >= FLOOR_CONTACT_Y);
    }
}
