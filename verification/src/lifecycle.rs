//! The game life-cycle state machine: running, game over with the time it
//! was entered, and the timed restart / flashing-prompt behavior.

use vstd::prelude::*;

use crate::config::{FLASH_OFF_MS, FLASH_ON_MS, RESTART_DELAY_MS};

verus! {

/// The life-cycle state. Game over carries the time it was entered, from
/// which the restart delay is measured.
#[derive(Clone, Copy, PartialEq, Eq, Structural, Debug)]
pub enum GameState {
    Running,
    GameOver { since_ms: u64 },
}

/// Terminal conditions of a life, and the construction-time rejection.
#[derive(Clone, Copy, PartialEq, Eq, Structural, Debug)]
pub enum GameError {
    /// The player's vertical position left the playfield.
    OutOfBounds,
    /// The player overlaps an obstacle.
    Collision,
    /// The configuration cannot produce a playable game.
    InvalidConfiguration,
}

/// The events the state machine reacts to: the two terminal conditions of a
/// tick, a jump input, and an uneventful tick.
#[derive(Clone, Copy, PartialEq, Eq, Structural, Debug)]
pub enum GameEvent {
    OutOfBounds,
    Collision,
    Jump,
    Tick,
}

/// A restart is offered once the restart delay has elapsed since the game
/// ended.
pub open spec fn restart_available_spec(since_ms: u64, now_ms: u64) -> bool {
    now_ms - since_ms >= RESTART_DELAY_MS
}

/// The transition function of the life cycle: total and deterministic over
/// every (state, event) pair. `now_ms` stamps a game over; a jump restarts
/// only when a restart is available.
pub open spec fn next_state(
    s: GameState,
    ev: GameEvent,
    now_ms: u64,
    restart_available: bool,
) -> GameState {
    match s {
        GameState::Running => match ev {
            GameEvent::OutOfBounds => GameState::GameOver { since_ms: now_ms },
            GameEvent::Collision => GameState::GameOver { since_ms: now_ms },
            GameEvent::Jump => GameState::Running,
            GameEvent::Tick => GameState::Running,
        },
        GameState::GameOver { since_ms } => match ev {
            GameEvent::Jump => if restart_available {
                GameState::Running
            } else {
                GameState::GameOver { since_ms }
            },
            GameEvent::OutOfBounds => GameState::GameOver { since_ms },
            GameEvent::Collision => GameState::GameOver { since_ms },
            GameEvent::Tick => GameState::GameOver { since_ms },
        },
    }
}

/// State totality: from running, exactly the two terminal conditions lead to
/// game over and everything else stays running; from game over, exactly a
/// jump with a restart available leads back to running, and everything else
/// leaves the state (and its timestamp) untouched.
pub proof fn lemma_state_totality(s: GameState, ev: GameEvent, now_ms: u64, restart_available: bool)
    ensures
        s is Running ==> (next_state(s, ev, now_ms, restart_available) is GameOver <==> (ev
            is OutOfBounds || ev is Collision)),
        s is Running && (ev is OutOfBounds || ev is Collision) ==> next_state(
            s,
            ev,
            now_ms,
            restart_available,
        ) == (GameState::GameOver { since_ms: now_ms }),
        s is GameOver ==> (next_state(s, ev, now_ms, restart_available) is Running <==> (ev is Jump
            && restart_available)),
        s is GameOver && !(ev is Jump && restart_available) ==> next_state(
            s,
            ev,
            now_ms,
            restart_available,
        ) == s,
{
}

/// One step of the flashing-prompt clock: the prompt toggles after
/// [`FLASH_ON_MS`] while lit and after [`FLASH_OFF_MS`] while dark, and the
/// clock restarts on every toggle. Returns the new (flashing, clock) pair.
pub fn flash_step(flashing: bool, counter_ms: u64, now_ms: u64) -> (r: (bool, u64))
    requires
        counter_ms <= now_ms,
    ensures
        ({
            let limit = if flashing {
                FLASH_ON_MS
            } else {
                FLASH_OFF_MS
            };
            if now_ms - counter_ms >= limit {
                r == (!flashing, now_ms)
            } else {
                r == (flashing, counter_ms)
            }
        }),
{
    let limit = if flashing {
        FLASH_ON_MS
    } else {
        FLASH_OFF_MS
    };
    if now_ms - counter_ms >= limit {
        (!flashing, now_ms)
    } else {
        (flashing, counter_ms)
    }
}

} // verus!
