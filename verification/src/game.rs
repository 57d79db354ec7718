//! The game core: the body ring, the score, the ring pointers and the
//! life-cycle state, advanced one tick at a time.
//!
//! The external collaborators drive it in this order each tick: while the
//! game is running, [`FlappyBird::integrate`] advances every body, an
//! external narrowphase turns [`FlappyBird::collision_candidates`] into a
//! collision graph, and [`FlappyBird::update`] consumes that graph —
//! checking bounds and collision, recycling the passed pair once it is off
//! screen, and scoring pass-throughs.

use vstd::prelude::*;

use crate::body::{Body, Shape};
use crate::config::{Config, PIPE_PAIR_COUNT, RESTART_DELAY_MS, RING_LEN};
use crate::lifecycle::{
    next_state, restart_available_spec, GameError, GameEvent, GameState,
};
use crate::pipes::{create_pipe_pair, is_pipe_bottom, is_pipe_top};
use crate::ring::{
    advance_next_index, advance_spec, is_player_passed_next_pipe_pair, lemma_advance_keeps_odd,
    lemma_max_x_witness, off_screen, pass_due, recycle_if_off_screen, recycled_pair_ok,
};
use crate::rng::gen_range_i64;

verus! {

/// `b` is a freshly spawned player body: a circle resting at the left edge
/// of the window, vertically centered, pulled down by gravity.
pub open spec fn is_player_body(b: Body, cfg: Config) -> bool {
    &&& b.id == 0
    &&& b.shape == (Shape::Circle { radius: cfg.player_radius })
    &&& b.x == -cfg.half_width && b.y == 0
    &&& b.prev_x == b.x && b.prev_y == b.y
    &&& b.acc_x == 0 && b.acc_y == -cfg.gravity
}

/// Pair `k` of the ring `s` is freshly spawned: its slots `2k+1` (top) and
/// `2k+2` (bottom) hold a factory pair at the `k`-th spawn position, with an
/// in-band gap offset (recoverable from the top pipe's y).
pub open spec fn pair_spawned_ok(s: Seq<Body>, k: int, cfg: Config) -> bool {
    let x = cfg.pipe_start_x + k * cfg.pipe_spacing;
    let off = s[2 * k + 1].y - cfg.gap_height / 2;
    &&& -cfg.half_height <= off < cfg.half_height
    &&& is_pipe_top(
        s[2 * k + 1],
        (2 * k + 1) as usize,
        x,
        cfg.pipe_width as int,
        cfg.pipe_height as int,
        cfg.gap_height as int,
        off,
        cfg.scroll_velocity_x as int,
    )
    &&& is_pipe_bottom(
        s[2 * k + 2],
        (2 * k + 2) as usize,
        x,
        cfg.pipe_width as int,
        cfg.pipe_height as int,
        cfg.gap_height as int,
        off,
        cfg.scroll_velocity_x as int,
    )
}

/// `g` is a game in its starting state for `cfg`: score 0, pointers at
/// their initial slots, running, prompt dark, and a fresh ring of the player
/// followed by [`PIPE_PAIR_COUNT`] spawned pairs.
pub open spec fn fresh_game(g: FlappyBird, cfg: Config) -> bool {
    &&& g.config == cfg
    &&& g.score == 0
    &&& g.next_pipe_pair_idx == 1
    &&& g.passed_pipe_pair_idx == RING_LEN - 1
    &&& g.game_state == GameState::Running
    &&& g.restart_available == false
    &&& g.flash_restart_text == false
    &&& g.flash_counter_ms == 0
    &&& g.bodies@.len() == RING_LEN
    &&& is_player_body(g.bodies@[0], cfg)
    &&& forall|k: int| 0 <= k < PIPE_PAIR_COUNT ==> #[trigger] pair_spawned_ok(g.bodies@, k, cfg)
}

/// The collision graph names the player: some reported pair involves id 0.
pub open spec fn graph_involves_player(graph: Seq<(usize, usize)>) -> bool {
    exists|k: int|
        0 <= k < graph.len() && ((#[trigger] graph[k]).0 == 0 || graph[k].1 == 0)
}

/// The event a running tick delivers to the state machine, given the
/// post-integration ring and the narrowphase's collision graph.
pub open spec fn tick_event(pre: FlappyBird, graph: Seq<(usize, usize)>) -> GameEvent {
    if pre.player_oob() {
        GameEvent::OutOfBounds
    } else if graph_involves_player(graph) {
        GameEvent::Collision
    } else {
        GameEvent::Tick
    }
}

/// `post` is `pre` advanced by one integration step, fields other than the
/// positions untouched.
pub open spec fn integrated_body(pre: Body, post: Body) -> bool {
    &&& post.id == pre.id && post.shape == pre.shape
    &&& post.x == 2 * pre.x - pre.prev_x + pre.acc_x
    &&& post.y == 2 * pre.y - pre.prev_y + pre.acc_y
    &&& post.prev_x == pre.x && post.prev_y == pre.y
    &&& post.acc_x == pre.acc_x && post.acc_y == pre.acc_y
}

/// Ring, score and pointers of `post` are those of `pre`.
pub open spec fn same_ring(pre: FlappyBird, post: FlappyBird) -> bool {
    &&& post.bodies@ == pre.bodies@
    &&& post.score == pre.score
    &&& post.next_pipe_pair_idx == pre.next_pipe_pair_idx
    &&& post.passed_pipe_pair_idx == pre.passed_pipe_pair_idx
}

/// The simulation core of one game session.
pub struct FlappyBird {
    pub config: Config,
    /// The body ring: the player at slot 0, then the obstacle pairs as
    /// consecutive (top, bottom) slots.
    pub bodies: Vec<Body>,
    /// Top slot of the pair the player has not yet passed. Always odd.
    pub next_pipe_pair_idx: usize,
    /// Top slot of the most recently passed pair, the recycle candidate.
    pub passed_pipe_pair_idx: usize,
    /// Pairs passed this life.
    pub score: u64,
    pub game_state: GameState,
    /// True once the restart delay has elapsed after a game over.
    pub restart_available: bool,
    /// Whether the restart prompt is currently lit.
    pub flash_restart_text: bool,
    /// Start of the current flash phase.
    pub flash_counter_ms: u64,
}

impl FlappyBird {
    /// Structural well-formedness: a valid configuration, a full ring whose
    /// ids equal their slots (the player's circle at 0, rectangles above),
    /// and in-range ring pointers with the next pointer odd.
    pub open spec fn wf(self) -> bool {
        &&& self.config.valid()
        &&& self.bodies@.len() == RING_LEN
        &&& forall|i: int| 0 <= i < RING_LEN ==> (#[trigger] self.bodies@[i]).id == i
        &&& self.bodies@[0].shape is Circle
        &&& forall|i: int| 1 <= i < RING_LEN ==> (#[trigger] self.bodies@[i]).shape is Rectangle
        &&& self.next_pipe_pair_idx % 2 == 1
        &&& 1 <= self.next_pipe_pair_idx < RING_LEN
        &&& 1 <= self.passed_pipe_pair_idx < RING_LEN
    }

    /// Every body lies in the overflow-safe coordinate band.
    pub open spec fn coords_bounded(self) -> bool {
        forall|i: int| 0 <= i < self.bodies@.len() ==> (#[trigger] self.bodies@[i]).in_band()
    }

    /// The player's vertical position has left the playfield.
    pub open spec fn player_oob(self) -> bool {
        self.bodies@[0].y > self.config.half_height || self.bodies@[0].y < -self.config.half_height
    }

    /// The passed pair is eligible for recycling: it names a full pair and
    /// has scrolled fully off the left edge.
    pub open spec fn recycle_due(self) -> bool {
        &&& self.passed_pipe_pair_idx + 1 < RING_LEN
        &&& off_screen(
            self.bodies@,
            self.passed_pipe_pair_idx as int,
            self.config.pipe_width as int,
            self.config.half_width as int,
        )
    }

    /// Build a game in its starting state, rejecting configurations that
    /// cannot produce a playable one.
    pub fn new(config: Config) -> (r: Result<FlappyBird, GameError>)
        ensures
            r is Ok <==> config.valid(),
            r matches Ok(g) ==> fresh_game(g, config) && g.wf() && g.coords_bounded(),
            r matches Err(e) ==> e == GameError::InvalidConfiguration,
    {
        if !config.is_valid() {
            return Err(GameError::InvalidConfiguration);
        }
        let bodies = spawn_bodies(&config);
        Ok(
            FlappyBird {
                config,
                bodies,
                next_pipe_pair_idx: 1,
                passed_pipe_pair_idx: RING_LEN - 1,
                score: 0,
                game_state: GameState::Running,
                restart_available: false,
                flash_restart_text: false,
                flash_counter_ms: 0,
            },
        )
    }

    /// Full reset back into the starting state: fresh player and pairs,
    /// score 0, pointers at their initial slots, running.
    pub fn restart_game(&mut self)
        requires
            old(self).config.valid(),
        ensures
            fresh_game(*final(self), old(self).config),
            final(self).wf(),
            final(self).coords_bounded(),
    {
        let bodies = spawn_bodies(&self.config);
        self.bodies = bodies;
        self.next_pipe_pair_idx = 1;
        self.passed_pipe_pair_idx = RING_LEN - 1;
        self.score = 0;
        self.restart_available = false;
        self.flash_restart_text = false;
        self.flash_counter_ms = 0;
        self.game_state = GameState::Running;
    }

    /// One fixed time step of the integrator over the whole ring.
    ///
    /// The driver calls this at the head of each running tick, before the
    /// narrowphase and [`FlappyBird::update`]; a frozen (game-over) game is
    /// not integrated.
    pub fn integrate(&mut self)
        requires
            old(self).coords_bounded(),
        ensures
            final(self).bodies@.len() == old(self).bodies@.len(),
            forall|i: int|
                0 <= i < old(self).bodies@.len() ==> integrated_body(
                    old(self).bodies@[i],
                    #[trigger] final(self).bodies@[i],
                ),
            final(self).config == old(self).config,
            final(self).score == old(self).score,
            final(self).next_pipe_pair_idx == old(self).next_pipe_pair_idx,
            final(self).passed_pipe_pair_idx == old(self).passed_pipe_pair_idx,
            final(self).game_state == old(self).game_state,
            final(self).restart_available == old(self).restart_available,
            final(self).flash_restart_text == old(self).flash_restart_text,
            final(self).flash_counter_ms == old(self).flash_counter_ms,
    {
        let n = self.bodies.len();
        let mut i: usize = 0;
        while i < n
            invariant
                0 <= i <= n,
                n == self.bodies@.len(),
                old(self).coords_bounded(),
                self.bodies@.len() == old(self).bodies@.len(),
                forall|j: int|
                    0 <= j < i ==> integrated_body(
                        old(self).bodies@[j],
                        #[trigger] self.bodies@[j],
                    ),
                forall|j: int| i <= j < n ==> self.bodies@[j] == old(self).bodies@[j],
                self.config == old(self).config,
                self.score == old(self).score,
                self.next_pipe_pair_idx == old(self).next_pipe_pair_idx,
                self.passed_pipe_pair_idx == old(self).passed_pipe_pair_idx,
                self.game_state == old(self).game_state,
                self.restart_available == old(self).restart_available,
                self.flash_restart_text == old(self).flash_restart_text,
                self.flash_counter_ms == old(self).flash_counter_ms,
            decreases n - i,
        {
            let mut b = self.bodies[i];
            crate::body::integrate_step(&mut b);
            self.bodies.set(i, b);
            i = i + 1;
        }
    }

    /// The minimal candidate set handed to the external narrowphase: the
    /// player and the two slots of the pair it is approaching. General
    /// broadphase is bypassed on purpose: only the next, unpassed pair is
    /// reachable, and the size disparity between player and obstacles
    /// degrades uniform spatial partitioning.
    pub fn collision_candidates(&self) -> (c: Vec<usize>)
        requires
            self.wf(),
        ensures
            c@.len() == 3,
            c@[0] == 0,
            c@[1] == self.next_pipe_pair_idx,
            c@[2] == self.next_pipe_pair_idx + 1,
    {
        let mut c: Vec<usize> = Vec::new();
        c.push(0);
        c.push(self.next_pipe_pair_idx);
        c.push(self.next_pipe_pair_idx + 1);
        c
    }

    /// One tick of game logic after integration, driven by the collision
    /// graph the external narrowphase produced for this tick's candidates.
    ///
    /// While running: an out-of-bounds player or a reported collision
    /// involving the player ends the life (stamped `now_ms`); otherwise the
    /// passed pair is recycled once fully off screen, and a pass-through
    /// moves the pointers and scores exactly one point. While game over:
    /// only the restart offer is updated; nothing else moves.
    pub fn update(&mut self, collisions: &Vec<(usize, usize)>, now_ms: u64) -> (r: Option<
        GameError,
    >)
        requires
            old(self).wf(),
            old(self).coords_bounded(),
            old(self).score < u64::MAX,
            old(self).game_state matches GameState::GameOver { since_ms } ==> since_ms <= now_ms,
        ensures
            final(self).wf(),
            final(self).config == old(self).config,
            final(self).score >= old(self).score,
            final(self).game_state == next_state(
                old(self).game_state,
                tick_event(*old(self), collisions@),
                now_ms,
                old(self).restart_available,
            ),
            match old(self).game_state {
                GameState::GameOver { since_ms } => {
                    &&& r is None
                    &&& same_ring(*old(self), *final(self))
                    &&& final(self).flash_restart_text == old(self).flash_restart_text
                    &&& final(self).flash_counter_ms == old(self).flash_counter_ms
                    &&& final(self).restart_available == (old(self).restart_available
                        || restart_available_spec(since_ms, now_ms))
                },
                GameState::Running => {
                    if old(self).player_oob() {
                        &&& r == Some(GameError::OutOfBounds)
                        &&& same_ring(*old(self), *final(self))
                        &&& final(self).restart_available == old(self).restart_available
                        &&& final(self).flash_restart_text == false
                        &&& final(self).flash_counter_ms == now_ms
                    } else if graph_involves_player(collisions@) {
                        &&& r == Some(GameError::Collision)
                        &&& same_ring(*old(self), *final(self))
                        &&& final(self).restart_available == old(self).restart_available
                        &&& final(self).flash_restart_text == false
                        &&& final(self).flash_counter_ms == now_ms
                    } else {
                        &&& r is None
                        &&& final(self).restart_available == old(self).restart_available
                        &&& final(self).flash_restart_text == old(self).flash_restart_text
                        &&& final(self).flash_counter_ms == old(self).flash_counter_ms
                        &&& (if old(self).recycle_due() {
                            recycled_pair_ok(
                                old(self).bodies@,
                                final(self).bodies@,
                                old(self).passed_pipe_pair_idx as int,
                                old(self).config,
                            )
                        } else {
                            final(self).bodies@ == old(self).bodies@
                        })
                        &&& ({
                            let passed_now = pass_due(
                                final(self).bodies@,
                                old(self).next_pipe_pair_idx as int,
                                old(self).config.pipe_width as int,
                            );
                            &&& final(self).score == old(self).score + (if passed_now {
                                1int
                            } else {
                                0int
                            })
                            &&& final(self).next_pipe_pair_idx == (if passed_now {
                                advance_spec(old(self).next_pipe_pair_idx as int, RING_LEN as int)
                            } else {
                                old(self).next_pipe_pair_idx as int
                            })
                            &&& final(self).passed_pipe_pair_idx == (if passed_now {
                                old(self).next_pipe_pair_idx
                            } else {
                                old(self).passed_pipe_pair_idx
                            })
                        })
                    }
                },
            },
    {
        match self.game_state {
            GameState::GameOver { since_ms } => {
                if now_ms - since_ms >= RESTART_DELAY_MS {
                    self.restart_available = true;
                }
                return None;
            },
            GameState::Running => {},
        }

        let half_height = self.config.half_height;
        let player_y = self.bodies[0].y;
        if player_y > half_height || player_y < -half_height {
            self.game_state = GameState::GameOver { since_ms: now_ms };
            self.flash_restart_text = false;
            self.flash_counter_ms = now_ms;
            return Some(GameError::OutOfBounds);
        }

        let mut hit = false;
        let mut i: usize = 0;
        while i < collisions.len()
            invariant
                0 <= i <= collisions@.len(),
                hit == exists|k: int|
                    0 <= k < i && ((#[trigger] collisions@[k]).0 == 0 || collisions@[k].1 == 0),
            decreases collisions@.len() - i,
        {
            let pair = collisions[i];
            if pair.0 == 0 || pair.1 == 0 {
                hit = true;
            }
            i = i + 1;
        }
        if hit {
            self.game_state = GameState::GameOver { since_ms: now_ms };
            self.flash_restart_text = false;
            self.flash_counter_ms = now_ms;
            return Some(GameError::Collision);
        }

        if self.passed_pipe_pair_idx + 1 < self.bodies.len() {
            recycle_if_off_screen(&mut self.bodies, self.passed_pipe_pair_idx, &self.config);
            proof {
                lemma_max_x_witness(old(self).bodies@);
            }
        }

        if is_player_passed_next_pipe_pair(
            &self.bodies,
            self.next_pipe_pair_idx,
            self.config.pipe_width,
        ) {
            proof {
                lemma_advance_keeps_odd(self.next_pipe_pair_idx as int, RING_LEN as int);
            }
            self.passed_pipe_pair_idx = self.next_pipe_pair_idx;
            self.next_pipe_pair_idx = advance_next_index(self.next_pipe_pair_idx, RING_LEN);
            self.score = self.score + 1;
        }
        None
    }

    /// A jump input, dispatched through the state machine: while running it
    /// overwrites (not adds to) the player's vertical velocity with the
    /// jump impulse; while game over it restarts the game if and only if
    /// the restart is available.
    pub fn jump(&mut self)
        requires
            old(self).wf(),
            old(self).coords_bounded(),
        ensures
            final(self).wf(),
            final(self).config == old(self).config,
            final(self).game_state == next_state(
                old(self).game_state,
                GameEvent::Jump,
                0,
                old(self).restart_available,
            ),
            match old(self).game_state {
                GameState::Running => {
                    &&& final(self).bodies@.len() == old(self).bodies@.len()
                    &&& forall|i: int|
                        1 <= i < old(self).bodies@.len() ==> final(self).bodies@[i] == old(
                            self,
                        ).bodies@[i]
                    &&& ({
                        let p = final(self).bodies@[0];
                        let q = old(self).bodies@[0];
                        p.id == q.id && p.shape == q.shape && p.x == q.x && p.y == q.y && p.prev_x
                            == q.prev_x && p.acc_x == q.acc_x && p.acc_y == q.acc_y && p.vel_y()
                            == old(self).config.jump_impulse
                    })
                    &&& final(self).score == old(self).score
                    &&& final(self).next_pipe_pair_idx == old(self).next_pipe_pair_idx
                    &&& final(self).passed_pipe_pair_idx == old(self).passed_pipe_pair_idx
                    &&& final(self).restart_available == old(self).restart_available
                    &&& final(self).flash_restart_text == old(self).flash_restart_text
                    &&& final(self).flash_counter_ms == old(self).flash_counter_ms
                },
                GameState::GameOver { .. } => {
                    if old(self).restart_available {
                        fresh_game(*final(self), old(self).config) && final(self).coords_bounded()
                    } else {
                        *final(self) == *old(self)
                    }
                },
            },
    {
        match self.game_state {
            GameState::Running => {
                let mut b = self.bodies[0];
                b.set_velocity_y(self.config.jump_impulse);
                self.bodies.set(0, b);
            },
            GameState::GameOver { since_ms: _ } => {
                if self.restart_available {
                    self.restart_game();
                }
            },
        }
    }

    /// One step of the flashing restart prompt, driven by the render clock:
    /// only a game-over screen flashes.
    pub fn update_flash(&mut self, now_ms: u64)
        requires
            old(self).flash_counter_ms <= now_ms,
        ensures
            same_ring(*old(self), *final(self)),
            final(self).config == old(self).config,
            final(self).game_state == old(self).game_state,
            final(self).restart_available == old(self).restart_available,
            match old(self).game_state {
                GameState::Running => {
                    &&& final(self).flash_restart_text == old(self).flash_restart_text
                    &&& final(self).flash_counter_ms == old(self).flash_counter_ms
                },
                GameState::GameOver { .. } => {
                    let limit = if old(self).flash_restart_text {
                        crate::config::FLASH_ON_MS
                    } else {
                        crate::config::FLASH_OFF_MS
                    };
                    if now_ms - old(self).flash_counter_ms >= limit {
                        &&& final(self).flash_restart_text == !old(self).flash_restart_text
                        &&& final(self).flash_counter_ms == now_ms
                    } else {
                        &&& final(self).flash_restart_text == old(self).flash_restart_text
                        &&& final(self).flash_counter_ms == old(self).flash_counter_ms
                    }
                },
            },
    {
        match self.game_state {
            GameState::Running => {},
            GameState::GameOver { since_ms: _ } => {
                let r = crate::lifecycle::flash_step(
                    self.flash_restart_text,
                    self.flash_counter_ms,
                    now_ms,
                );
                self.flash_restart_text = r.0;
                self.flash_counter_ms = r.1;
            },
        }
    }

    /// Read-only view of the body ring, for the renderer.
    pub fn get_bodies(&self) -> (r: &Vec<Body>)
        ensures
            r@ == self.bodies@,
    {
        &self.bodies
    }

    /// Pairs passed this life.
    pub fn score(&self) -> (r: u64)
        ensures
            r == self.score,
    {
        self.score
    }

    /// The current life-cycle state.
    pub fn state(&self) -> (r: GameState)
        ensures
            r == self.game_state,
    {
        self.game_state
    }

    /// Whether a game-over screen currently offers a restart.
    pub fn is_restart_available(&self) -> (r: bool)
        ensures
            r == self.restart_available,
    {
        self.restart_available
    }

    /// Whether the restart prompt is currently lit.
    pub fn is_flash_restart_text(&self) -> (r: bool)
        ensures
            r == self.flash_restart_text,
    {
        self.flash_restart_text
    }

    /// The score string the renderer draws.
    pub fn score_text(&self) -> (r: String)
        ensures
            r@ == crate::text::dec_str(self.score as nat),
    {
        crate::text::decimal_string(self.score)
    }

    /// Whether the flashing restart prompt is drawn this frame: only while
    /// it is lit and a restart is actually available.
    pub fn restart_prompt_visible(&self) -> (r: bool)
        ensures
            r == (self.flash_restart_text && self.restart_available),
    {
        self.flash_restart_text && self.restart_available
    }
}

/// Build the starting ring: the player at slot 0, then [`PIPE_PAIR_COUNT`]
/// pairs one pair spacing apart, each with its own random gap offset.
fn spawn_bodies(cfg: &Config) -> (v: Vec<Body>)
    requires
        cfg.valid(),
    ensures
        v@.len() == RING_LEN,
        is_player_body(v@[0], *cfg),
        forall|k: int| 0 <= k < PIPE_PAIR_COUNT ==> #[trigger] pair_spawned_ok(v@, k, *cfg),
        forall|i: int| 0 <= i < v@.len() ==> (#[trigger] v@[i]).id == i,
        v@[0].shape is Circle,
        forall|i: int| 1 <= i < v@.len() ==> (#[trigger] v@[i]).shape is Rectangle,
        forall|i: int| 0 <= i < v@.len() ==> (#[trigger] v@[i]).in_band(),
{
    let player = Body::circle(
        0,
        -cfg.half_width,
        0,
        0,
        0,
        0,
        -cfg.gravity,
        cfg.player_radius,
    );

    let off0 = gen_range_i64(-cfg.half_height, cfg.half_height);
    let x0 = cfg.pipe_start_x;
    let (t0, b0) = create_pipe_pair(
        1,
        2,
        x0,
        cfg.pipe_width,
        cfg.pipe_height,
        cfg.gap_height,
        off0,
        cfg.scroll_velocity_x,
    );

    let off1 = gen_range_i64(-cfg.half_height, cfg.half_height);
    let x1 = cfg.pipe_start_x + cfg.pipe_spacing;
    let (t1, b1) = create_pipe_pair(
        3,
        4,
        x1,
        cfg.pipe_width,
        cfg.pipe_height,
        cfg.gap_height,
        off1,
        cfg.scroll_velocity_x,
    );

    let off2 = gen_range_i64(-cfg.half_height, cfg.half_height);
    let x2 = x1 + cfg.pipe_spacing;
    let (t2, b2) = create_pipe_pair(
        5,
        6,
        x2,
        cfg.pipe_width,
        cfg.pipe_height,
        cfg.gap_height,
        off2,
        cfg.scroll_velocity_x,
    );

    let mut v: Vec<Body> = Vec::new();
    v.push(player);
    v.push(t0);
    v.push(b0);
    v.push(t1);
    v.push(b1);
    v.push(t2);
    v.push(b2);
    proof {
        assert forall|k: int| 0 <= k < PIPE_PAIR_COUNT implies #[trigger] pair_spawned_ok(
            v@,
            k,
            *cfg,
        ) by {
            if k == 0 {
                assert(pair_spawned_ok(v@, 0, *cfg));
            } else if k == 1 {
                assert(pair_spawned_ok(v@, 1, *cfg));
            } else {
                assert(pair_spawned_ok(v@, 2, *cfg));
            }
        }
    }
    v
}

} // verus!
