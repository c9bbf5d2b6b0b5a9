//! The game world and its per-frame step.
//!
//! A three-state flow gates the gameplay systems. In the menu only the
//! start check runs: any configured start key moves the flow to
//! playing. While playing, one frame runs — in this order, so the
//! collision check sees post-move positions — the player step, the
//! obstacle steps, both animation ticks, the score update, and the
//! collision check; a hit moves the flow to game over and asks for one
//! game-over cue, however many obstacles qualify at once. Game over is
//! terminal: a frame there changes nothing.

use vstd::prelude::*;
use vstd::pervasive::VecAdditionalExecFns;

use crate::collision::any_collision;
use crate::collision::spec_any_collision;
use crate::obstacle::Obstacle;
use crate::player::Player;
use crate::rng::random_lane;
use crate::score::Score;
use crate::tuning::OBSTACLE_ANIM_PERIOD_MS;
use crate::tuning::OBSTACLE_FRAME_COUNT;
use crate::tuning::OBSTACLE_POOL;
use crate::tuning::PLAYER_ANIM_PERIOD_MS;
use crate::tuning::PLAYER_FRAME_COUNT;

verus! {

/// The game flow's states. The menu waits for a start key; playing runs
/// the gameplay systems; game over is terminal in this core.
#[derive(Clone, Copy, Debug, PartialEq, Eq, Structural)]
pub enum GameState {
    Menu,
    Playing,
    GameOver,
}

impl Default for GameState {
    /// The flow starts in the menu.
    fn default() -> (s: GameState)
        ensures
            s == GameState::Menu,
    {
        GameState::Menu
    }
}

/// One frame's relevant key states, as polled by the host.
#[derive(Clone, Copy, Debug, PartialEq, Eq, Structural)]
pub struct FrameInput {
    /// Any of the configured start keys is pressed.
    pub start_pressed: bool,
    /// The jump key was freshly pressed this frame.
    pub jump_just_pressed: bool,
    /// The fast-fall key is held.
    pub fast_fall_held: bool,
}

/// The audio cues one frame asks the host to play, each at most once.
#[derive(Clone, Copy, Debug, PartialEq, Eq, Structural)]
pub struct FrameCues {
    /// Play the jump cue: a jump fired this frame.
    pub jump: bool,
    /// Play the game-over cue: a collision ended the run this frame.
    pub game_over: bool,
}

impl FrameCues {
    /// No cue to play.
    pub open spec fn spec_none() -> FrameCues {
        FrameCues { jump: false, game_over: false }
    }
}

/// The whole game world: flow state, the player, the obstacle pool, and
/// the score.
#[derive(Clone, Debug)]
pub struct World {
    /// The flow state gating the systems.
    pub state: GameState,
    /// The player.
    pub player: Player,
    /// The obstacle pool: exactly `tuning::OBSTACLE_POOL` slots,
    /// recycled in place, never grown or shrunk.
    pub obstacles: Vec<Obstacle>,
    /// The running score.
    pub score: Score,
}

/// The player after a whole playing frame: the movement step, then its
/// animation tick.
pub open spec fn spec_player_frame(p: Player, dt_ms: u32, jump: bool, fast_fall: bool) -> Player {
    let moved = p.spec_stepped(dt_ms, jump, fast_fall);
    Player {
        anim: moved.anim.spec_ticked(PLAYER_ANIM_PERIOD_MS, PLAYER_FRAME_COUNT, dt_ms),
        ..moved
    }
}

/// One obstacle after a whole playing frame: the movement step with its
/// lane draw, then its animation tick.
pub open spec fn spec_obstacle_frame(o: Obstacle, dt_ms: u32, lane: bool) -> Obstacle {
    let moved = o.spec_stepped(dt_ms, lane);
    Obstacle {
        anim: moved.anim.spec_ticked(OBSTACLE_ANIM_PERIOD_MS, OBSTACLE_FRAME_COUNT, dt_ms),
        ..moved
    }
}

/// The whole pool after a playing frame, slot by slot.
pub open spec fn spec_obstacles_frame(obs: Seq<Obstacle>, dt_ms: u32, lanes: Seq<bool>) -> Seq<
    Obstacle,
> {
    Seq::new(obs.len(), |i: int| spec_obstacle_frame(obs[i], dt_ms, lanes[i]))
}

/// Whether a playing frame ends in a collision: the player against
/// every obstacle, all at their post-move positions.
pub open spec fn spec_frame_hit(pre: World, input: FrameInput, dt_ms: u32, lanes: Seq<bool>) -> bool {
    spec_any_collision(
        spec_player_frame(pre.player, dt_ms, input.jump_just_pressed, input.fast_fall_held).y as int,
        spec_obstacles_frame(pre.obstacles@, dt_ms, lanes),
    )
}

/// How one frame relates the world before it to the world after it and
/// to the cues it asks for, given the frame's input, elapsed time and
/// lane draws.
pub open spec fn spec_frame_rel(
    pre: World,
    post: World,
    cues: FrameCues,
    input: FrameInput,
    dt_ms: u32,
    lanes: Seq<bool>,
) -> bool {
    if pre.state == GameState::Menu {
        // Only the start check runs: no gameplay system touches the
        // world, no cue plays.
        &&& post.player == pre.player
        &&& post.obstacles@ == pre.obstacles@
        &&& post.score == pre.score
        &&& post.state == (if input.start_pressed {
            GameState::Playing
        } else {
            GameState::Menu
        })
        &&& cues == FrameCues::spec_none()
    } else if pre.state == GameState::GameOver {
        // Terminal: nothing runs.
        &&& post.player == pre.player
        &&& post.obstacles@ == pre.obstacles@
        &&& post.score == pre.score
        &&& post.state == GameState::GameOver
        &&& cues == FrameCues::spec_none()
    } else {
        // Playing: move, animate, score, then check collisions at the
        // post-move positions.
        &&& post.player == spec_player_frame(
            pre.player,
            dt_ms,
            input.jump_just_pressed,
            input.fast_fall_held,
        )
        &&& post.obstacles@ == spec_obstacles_frame(pre.obstacles@, dt_ms, lanes)
        &&& post.score.milli == pre.score.milli + 5 * dt_ms
        &&& post.state == (if spec_frame_hit(pre, input, dt_ms, lanes) {
            GameState::GameOver
        } else {
            GameState::Playing
        })
        &&& cues.jump == pre.player.spec_jump_fires(input.jump_just_pressed)
        &&& cues.game_over == spec_frame_hit(pre, input, dt_ms, lanes)
    }
}

impl World {
    /// Invariant: the player is well-formed, the pool holds exactly its
    /// fixed number of well-formed obstacles.
    pub open spec fn wf(self) -> bool {
        &&& self.player.wf()
        &&& self.obstacles@.len() == OBSTACLE_POOL
        &&& forall|i: int| 0 <= i < self.obstacles@.len() ==> (#[trigger] self.obstacles@[i]).wf()
    }

    /// The world at setup: in the menu, the player at its start height
    /// at rest, the pool seeded evenly spaced on the given lanes, the
    /// score at zero.
    pub fn new(lanes: &Vec<bool>) -> (w: World)
        requires
            lanes@.len() == OBSTACLE_POOL,
        ensures
            w.wf(),
            w.state == GameState::Menu,
            w.player == Player::spec_initial(),
            w.score.milli == 0,
            w.obstacles@.len() == OBSTACLE_POOL,
            forall|i: int|
                0 <= i < OBSTACLE_POOL ==> w.obstacles@[i] == Obstacle::spec_seeded(
                    i,
                    lanes@[i],
                ),
    {
        let mut obstacles: Vec<Obstacle> = Vec::new();
        let mut i: usize = 0;
        while i < OBSTACLE_POOL
            invariant
                lanes@.len() == OBSTACLE_POOL,
                0 <= i <= OBSTACLE_POOL,
                obstacles@.len() == i,
                forall|j: int|
                    0 <= j < i ==> obstacles@[j] == Obstacle::spec_seeded(j, lanes@[j]),
                forall|j: int| 0 <= j < i ==> (#[trigger] obstacles@[j]).wf(),
            decreases OBSTACLE_POOL - i,
        {
            obstacles.push(Obstacle::seeded(i, lanes[i]));
            i = i + 1;
        }
        World { state: GameState::Menu, player: Player::new(), obstacles, score: Score::new() }
    }

    /// The world at setup with every seeded lane drawn at random.
    pub fn new_random() -> (w: World)
        ensures
            w.wf(),
            w.state == GameState::Menu,
            w.player == Player::spec_initial(),
            w.score.milli == 0,
            forall|i: int|
                0 <= i < OBSTACLE_POOL ==> (w.obstacles@[i] == Obstacle::spec_seeded(i, true)
                    || w.obstacles@[i] == Obstacle::spec_seeded(i, false)),
    {
        let lanes = random_lanes();
        let w = World::new(&lanes);
        proof {
            assert forall|i: int|
                0 <= i < OBSTACLE_POOL implies (w.obstacles@[i] == Obstacle::spec_seeded(i, true)
                || w.obstacles@[i] == Obstacle::spec_seeded(i, false)) by {
                assert(w.obstacles@[i] == Obstacle::spec_seeded(i, lanes@[i]));
            }
        }
        w
    }

    /// One frame with explicit lane draws (one per slot, used for the
    /// slots recycled this frame). Runs the systems the current state
    /// gates, in the fixed composition order; returns the cues the host
    /// must play, each at most once.
    pub fn step_frame(&mut self, input: FrameInput, dt_ms: u32, lanes: &Vec<bool>) -> (cues:
        FrameCues)
        requires
            old(self).wf(),
            lanes@.len() == OBSTACLE_POOL,
            old(self).state == GameState::Playing ==> old(self).score.milli + 5 * dt_ms
                <= u64::MAX,
        ensures
            final(self).wf(),
            spec_frame_rel(*old(self), *final(self), cues, input, dt_ms, lanes@),
    {
        match self.state {
            GameState::Menu => {
                if input.start_pressed {
                    self.state = GameState::Playing;
                }
                FrameCues { jump: false, game_over: false }
            },
            GameState::GameOver => FrameCues { jump: false, game_over: false },
            GameState::Playing => {
                let jumped = self.player.step(
                    dt_ms,
                    input.jump_just_pressed,
                    input.fast_fall_held,
                );
                self.player.anim.tick(PLAYER_ANIM_PERIOD_MS, PLAYER_FRAME_COUNT, dt_ms);
                let mut i: usize = 0;
                while i < OBSTACLE_POOL
                    invariant
                        0 <= i <= OBSTACLE_POOL,
                        lanes@.len() == OBSTACLE_POOL,
                        old(self).wf(),
                        old(self).state == GameState::Playing,
                        old(self).score.milli + 5 * dt_ms <= u64::MAX,
                        self.state == GameState::Playing,
                        self.score == old(self).score,
                        self.player.wf(),
                        self.player == spec_player_frame(
                            old(self).player,
                            dt_ms,
                            input.jump_just_pressed,
                            input.fast_fall_held,
                        ),
                        jumped == old(self).player.spec_jump_fires(input.jump_just_pressed),
                        self.obstacles@.len() == OBSTACLE_POOL,
                        forall|j: int|
                            0 <= j < i ==> #[trigger] self.obstacles@[j] == spec_obstacle_frame(
                                old(self).obstacles@[j],
                                dt_ms,
                                lanes@[j],
                            ),
                        forall|j: int| 0 <= j < i ==> (#[trigger] self.obstacles@[j]).wf(),
                        forall|j: int|
                            i <= j < OBSTACLE_POOL ==> #[trigger] self.obstacles@[j] == old(
                                self,
                            ).obstacles@[j],
                    decreases OBSTACLE_POOL - i,
                {
                    let mut o = self.obstacles[i];
                    o.step(dt_ms, lanes[i]);
                    o.anim.tick(OBSTACLE_ANIM_PERIOD_MS, OBSTACLE_FRAME_COUNT, dt_ms);
                    self.obstacles.set(i, o);
                    i = i + 1;
                }
                proof {
                    assert(self.obstacles@ =~= spec_obstacles_frame(
                        old(self).obstacles@,
                        dt_ms,
                        lanes@,
                    ));
                }
                self.score.accumulate(dt_ms);
                let hit = any_collision(self.player.y, &self.obstacles);
                if hit {
                    self.state = GameState::GameOver;
                }
                FrameCues { jump: jumped, game_over: hit }
            },
        }
    }

    /// One frame with the recycled lanes drawn at random: the world
    /// steps as `step_frame` does for some sequence of lane draws.
    pub fn step_frame_random(&mut self, input: FrameInput, dt_ms: u32) -> (cues: FrameCues)
        requires
            old(self).wf(),
            old(self).state == GameState::Playing ==> old(self).score.milli + 5 * dt_ms
                <= u64::MAX,
        ensures
            final(self).wf(),
            exists|lanes: Seq<bool>|
                lanes.len() == OBSTACLE_POOL && spec_frame_rel(
                    *old(self),
                    *final(self),
                    cues,
                    input,
                    dt_ms,
                    lanes,
                ),
    {
        let lanes = random_lanes();
        let cues = self.step_frame(input, dt_ms, &lanes);
        proof {
            assert(spec_frame_rel(*old(self), *self, cues, input, dt_ms, lanes@));
        }
        cues
    }
}

/// One random lane draw per obstacle slot.
fn random_lanes() -> (lanes: Vec<bool>)
    ensures
        lanes@.len() == OBSTACLE_POOL,
{
    let mut lanes: Vec<bool> = Vec::new();
    let mut i: usize = 0;
    while i < OBSTACLE_POOL
        invariant
            lanes@.len() == i,
            0 <= i <= OBSTACLE_POOL,
        decreases OBSTACLE_POOL - i,
    {
        lanes.push(random_lane());
        i = i + 1;
    }
    lanes
}

/// Gating law, menu: while the flow shows the menu, no gameplay system
/// runs — a frame leaves player, obstacles and score exactly as they
/// were, whatever the elapsed time, plays no cue, and moves to playing
/// exactly on a start press.
pub proof fn lemma_menu_gates_gameplay(
    pre: World,
    post: World,
    cues: FrameCues,
    input: FrameInput,
    dt_ms: u32,
    lanes: Seq<bool>,
)
    requires
        pre.state == GameState::Menu,
        spec_frame_rel(pre, post, cues, input, dt_ms, lanes),
    ensures
        post.player == pre.player,
        post.obstacles@ == pre.obstacles@,
        post.score == pre.score,
        post.state == (if input.start_pressed {
            GameState::Playing
        } else {
            GameState::Menu
        }),
        cues == FrameCues::spec_none(),
{
}

/// Stillness law: a playing frame of zero elapsed time with no jump
/// press leaves every continuous quantity — the player's position and
/// velocity, its clock, every obstacle, the score — exactly unchanged.
/// (The collision check still runs: a run already inside an obstacle
/// still ends.)
pub proof fn lemma_zero_dt_moves_nothing(
    pre: World,
    post: World,
    cues: FrameCues,
    input: FrameInput,
    lanes: Seq<bool>,
)
    requires
        pre.wf(),
        pre.state == GameState::Playing,
        !input.jump_just_pressed,
        spec_frame_rel(pre, post, cues, input, 0, lanes),
    ensures
        post.player == pre.player,
        post.obstacles@ == pre.obstacles@,
        post.score.milli == pre.score.milli,
{
    assert(spec_player_frame(pre.player, 0, false, input.fast_fall_held) == pre.player);
    assert forall|i: int| 0 <= i < pre.obstacles@.len() implies spec_obstacle_frame(
        pre.obstacles@[i],
        0,
        lanes[i],
    ) == pre.obstacles@[i] by {
        assert(pre.obstacles@[i].wf());
    }
    assert(post.obstacles@ =~= pre.obstacles@);
}

/// Gating law, game over: the end state is terminal — a frame there
/// changes nothing and plays no cue, so the score stays frozen at the
/// value it held when the run ended.
pub proof fn lemma_game_over_frozen(
    pre: World,
    post: World,
    cues: FrameCues,
    input: FrameInput,
    dt_ms: u32,
    lanes: Seq<bool>,
)
    requires
        pre.state == GameState::GameOver,
        spec_frame_rel(pre, post, cues, input, dt_ms, lanes),
    ensures
        post.player == pre.player,
        post.obstacles@ == pre.obstacles@,
        post.score == pre.score,
        post.state == GameState::GameOver,
        cues == FrameCues::spec_none(),
{
}

} // verus!
