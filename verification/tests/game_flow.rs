//! Tests of the game core: construction, scenario runs, scoring, the life
//! cycle and the timed restart behavior.

use flappy_core::body::{integrate_step, Body, Shape};
use flappy_core::config::Config;
use flappy_core::game::FlappyBird;
use flappy_core::lifecycle::{GameError, GameState};
use flappy_core::pipes::create_pipe_pair;

fn test_config() -> Config {
    Config {
        half_width: 512,
        half_height: 300,
        pipe_width: 350,
        pipe_height: 700,
        gap_height: 430,
        pipe_spacing: 1000,
        pipe_start_x: 200,
        scroll_velocity_x: -4,
        player_radius: 50,
        jump_impulse: 20,
        gravity: 1,
    }
}

fn no_collisions() -> Vec<(usize, usize)> {
    Vec::new()
}

#[test]
fn new_game_initial_state() {
    let game = FlappyBird::new(test_config()).unwrap();

    assert_eq!(game.score(), 0);
    assert_eq!(game.next_pipe_pair_idx, 1);
    assert_eq!(game.passed_pipe_pair_idx, 6);
    assert_eq!(game.state(), GameState::Running);
    assert!(!game.is_restart_available());
    assert!(!game.is_flash_restart_text());

    let bodies = game.get_bodies();
    assert_eq!(bodies.len(), 7);

    // the player: a circle resting at the left edge, pulled down by gravity
    let player = bodies[0];
    assert_eq!(player.id, 0);
    assert_eq!(player.shape, Shape::Circle { radius: 50 });
    assert_eq!((player.x, player.y), (-512, 0));
    assert_eq!((player.prev_x, player.prev_y), (-512, 0));
    assert_eq!((player.acc_x, player.acc_y), (0, -1));

    // three pairs pre-populated ahead of the player, one spacing apart
    for k in 0..3 {
        let top = bodies[2 * k + 1];
        let bot = bodies[2 * k + 2];
        assert_eq!(top.id, 2 * k + 1);
        assert_eq!(bot.id, 2 * k + 2);
        assert_eq!(top.x, 200 + 1000 * k as i64);
        assert_eq!(bot.x, top.x);
        // exact gap, with the random offset inside the vertical band
        assert_eq!(top.y - (bot.y + 700), 430);
        let off = top.y - 430 / 2;
        assert!(-300 <= off && off < 300);
        // leftward scroll encoded in the previous position
        assert_eq!(top.x - top.prev_x, -4);
        assert_eq!(bot.x - bot.prev_x, -4);
    }
}

#[test]
fn invalid_configuration_rejected() {
    // gap at least as tall as the window
    let mut cfg = test_config();
    cfg.gap_height = 600;
    assert!(matches!(FlappyBird::new(cfg), Err(GameError::InvalidConfiguration)));

    // non-positive lengths
    let mut cfg = test_config();
    cfg.pipe_width = 0;
    assert!(matches!(FlappyBird::new(cfg), Err(GameError::InvalidConfiguration)));

    // obstacles must scroll leftward
    let mut cfg = test_config();
    cfg.scroll_velocity_x = 4;
    assert!(matches!(FlappyBird::new(cfg), Err(GameError::InvalidConfiguration)));
}

#[test]
fn scenario_gravity_reaches_out_of_bounds() {
    // gravity pulls the resting player down until its vertical position
    // leaves the half-height band; the tick reports it exactly once
    let mut game = FlappyBird::new(test_config()).unwrap();
    let mut result = None;
    let mut ticks = 0u64;
    for t in 0..1000u64 {
        game.integrate();
        if let Some(err) = game.update(&no_collisions(), t) {
            result = Some(err);
            ticks = t;
            break;
        }
    }
    assert_eq!(result, Some(GameError::OutOfBounds));
    assert!(ticks <= 1000);
    assert!(game.get_bodies()[0].y.abs() > 300);
    assert_eq!(game.state(), GameState::GameOver { since_ms: ticks });

    // the rest of the tick's logic was short-circuited: nothing scored
    assert_eq!(game.score(), 0);
}

#[test]
fn scenario_player_inside_gap_keeps_running() {
    // the player circle sits fully inside the gap of the next pair, the
    // narrowphase reports no overlap, and the game keeps running
    let mut game = FlappyBird::new(test_config()).unwrap();
    let (top, bot) = create_pipe_pair(1, 2, -500, 350, 700, 430, 0, -4);
    game.bodies[1] = top;
    game.bodies[2] = bot;

    // gap band [-215, 215] holds the whole circle around y = 0
    assert!(game.bodies[2].y + 700 <= -50);
    assert!(50 <= game.bodies[1].y);

    let candidates = game.collision_candidates();
    assert_eq!(candidates, vec![0, 1, 2]);

    let r = game.update(&no_collisions(), 16);
    assert_eq!(r, None);
    assert_eq!(game.state(), GameState::Running);
    assert_eq!(game.score(), 0);
}

#[test]
fn collision_with_player_ends_life() {
    let mut game = FlappyBird::new(test_config()).unwrap();
    let graph = vec![(1usize, 0usize)];
    let r = game.update(&graph, 7);
    assert_eq!(r, Some(GameError::Collision));
    assert_eq!(game.state(), GameState::GameOver { since_ms: 7 });
}

#[test]
fn collision_between_obstacles_is_ignored() {
    let mut game = FlappyBird::new(test_config()).unwrap();
    let graph = vec![(1usize, 2usize)];
    let r = game.update(&graph, 7);
    assert_eq!(r, None);
    assert_eq!(game.state(), GameState::Running);
}

#[test]
fn pass_through_scores_exactly_once() {
    // the first pair starts already behind the player: one pass-through,
    // one point, and no second point for the same pair
    let mut cfg = test_config();
    cfg.pipe_start_x = -900;
    let mut game = FlappyBird::new(cfg).unwrap();

    let r = game.update(&no_collisions(), 0);
    assert_eq!(r, None);
    assert_eq!(game.score(), 1);
    assert_eq!(game.next_pipe_pair_idx, 3);
    assert_eq!(game.passed_pipe_pair_idx, 1);

    // the next pair (at x = 100) is not passed: the score stays
    let r = game.update(&no_collisions(), 16);
    assert_eq!(r, None);
    assert_eq!(game.score(), 1);
    assert_eq!(game.next_pipe_pair_idx, 3);
}

#[test]
fn pointer_wraps_around_ring_skipping_player() {
    // all three pairs start behind the player: three pass-throughs in a
    // row, and the pointer wraps past the player's slot back to 1
    let mut cfg = test_config();
    cfg.pipe_start_x = -3000;
    cfg.pipe_spacing = 60;
    let mut game = FlappyBird::new(cfg).unwrap();

    let mut scores = Vec::new();
    for t in 0..3u64 {
        if let Some(e) = game.update(&no_collisions(), t) {
            panic!("unexpected end: {:?}", e);
        }
        scores.push(game.score());
        assert!(game.next_pipe_pair_idx % 2 == 1);
        assert!(game.next_pipe_pair_idx != 0);
    }
    assert_eq!(scores, vec![1, 2, 3]);
    assert_eq!(game.next_pipe_pair_idx, 1);
    assert_eq!(game.passed_pipe_pair_idx, 5);
}

#[test]
fn recycling_inside_a_tick() {
    // after the first pass-through the passed pair sits far off screen, so
    // the next tick recycles it one spacing beyond the rightmost body
    let mut cfg = test_config();
    cfg.pipe_start_x = -1300;
    let mut game = FlappyBird::new(cfg).unwrap();

    // tick 1: pair 1 (right edge -950) is already passed; score it
    game.update(&no_collisions(), 0);
    assert_eq!(game.score(), 1);
    assert_eq!(game.passed_pipe_pair_idx, 1);

    // tick 2: pair 1 is off screen (-950 < -512): recycled beyond the
    // rightmost body (pair 3 at x = 700), one spacing further
    game.update(&no_collisions(), 16);
    assert_eq!(game.bodies[1].x, 700 + 1000);
    assert_eq!(game.bodies[2].x, 1700);
    assert_eq!(game.bodies[1].y - (game.bodies[2].y + 700), 430);
}

#[test]
fn jump_overwrites_vertical_velocity() {
    let mut game = FlappyBird::new(test_config()).unwrap();
    game.jump();
    let p = game.get_bodies()[0];
    assert_eq!(p.y - p.prev_y, 20);

    // not additive: a second jump leaves the same impulse
    game.jump();
    let p = game.get_bodies()[0];
    assert_eq!(p.y - p.prev_y, 20);
    assert_eq!(game.state(), GameState::Running);
}

#[test]
fn scenario_restart_timing() {
    // game over at t = 0; restart is not offered at 2.9 s, is offered at
    // 3.1 s, and a jump then fully resets the game
    let mut game = FlappyBird::new(test_config()).unwrap();
    game.update(&vec![(0usize, 2usize)], 0);
    assert_eq!(game.state(), GameState::GameOver { since_ms: 0 });

    game.update(&no_collisions(), 2900);
    assert!(!game.is_restart_available());
    game.jump();
    assert_eq!(game.state(), GameState::GameOver { since_ms: 0 });

    game.update(&no_collisions(), 3100);
    assert!(game.is_restart_available());
    game.jump();
    assert_eq!(game.state(), GameState::Running);
    assert_eq!(game.score(), 0);
    assert_eq!(game.next_pipe_pair_idx, 1);
    assert_eq!(game.passed_pipe_pair_idx, 6);
    assert!(!game.is_restart_available());

    // exactly three fresh pairs ahead of the player again
    let bodies = game.get_bodies();
    assert_eq!(bodies.len(), 7);
    for k in 0..3 {
        assert_eq!(bodies[2 * k + 1].x, 200 + 1000 * k as i64);
        assert_eq!(bodies[2 * k + 1].y - (bodies[2 * k + 2].y + 700), 430);
    }
}

#[test]
fn frozen_while_game_over() {
    let mut game = FlappyBird::new(test_config()).unwrap();
    game.update(&vec![(0usize, 1usize)], 5);
    let before = game.bodies.clone();
    let r = game.update(&vec![(0usize, 1usize)], 100);
    assert_eq!(r, None);
    assert_eq!(game.bodies, before);
    assert_eq!(game.score(), 0);
    assert_eq!(game.state(), GameState::GameOver { since_ms: 5 });
}

#[test]
fn flash_prompt_duty_cycle() {
    // dark for 1 s, lit for 2 s, measured from each toggle
    let mut game = FlappyBird::new(test_config()).unwrap();
    game.update(&vec![(0usize, 1usize)], 0);
    assert!(!game.is_flash_restart_text());

    game.update_flash(500);
    assert!(!game.is_flash_restart_text());
    game.update_flash(1000);
    assert!(game.is_flash_restart_text());
    game.update_flash(2500);
    assert!(game.is_flash_restart_text());
    game.update_flash(3000);
    assert!(!game.is_flash_restart_text());
    game.update_flash(3999);
    assert!(!game.is_flash_restart_text());
    game.update_flash(4000);
    assert!(game.is_flash_restart_text());
}

#[test]
fn flash_prompt_idle_while_running() {
    let mut game = FlappyBird::new(test_config()).unwrap();
    game.update_flash(5000);
    assert!(!game.is_flash_restart_text());
}

#[test]
fn integrator_step_is_velocity_implicit() {
    // position advances by the implied velocity plus the acceleration, and
    // the current position becomes the previous one
    let mut b = Body::circle(0, 0, 0, 2, 5, 0, -1, 50);
    integrate_step(&mut b);
    assert_eq!((b.x, b.y), (2, 4));
    assert_eq!((b.prev_x, b.prev_y), (0, 0));
    integrate_step(&mut b);
    assert_eq!((b.x, b.y), (4, 7));
    assert_eq!((b.prev_x, b.prev_y), (2, 4));
}

#[test]
fn out_of_bounds_on_either_edge() {
    let mut game = FlappyBird::new(test_config()).unwrap();
    game.bodies[0].y = 301;
    let r = game.update(&no_collisions(), 1);
    assert_eq!(r, Some(GameError::OutOfBounds));

    let mut game = FlappyBird::new(test_config()).unwrap();
    game.bodies[0].y = -301;
    let r = game.update(&no_collisions(), 1);
    assert_eq!(r, Some(GameError::OutOfBounds));

    // the band is inclusive: exactly the half-height is still in play
    let mut game = FlappyBird::new(test_config()).unwrap();
    game.bodies[0].y = 300;
    let r = game.update(&no_collisions(), 1);
    assert_eq!(r, None);
}
