//! Tunable parameters of the game, and the numeric bands inside which the
//! core's integer arithmetic is proved free of overflow.

use vstd::prelude::*;

verus! {

/// Number of obstacle pairs kept alive in the ring.
pub const PIPE_PAIR_COUNT: usize = 3;

/// Length of the body ring: the player slot followed by the pairs.
pub const RING_LEN: usize = 2 * PIPE_PAIR_COUNT + 1;

/// A game-over screen offers a restart once this long has elapsed.
pub const RESTART_DELAY_MS: u64 = 3000;

/// While the restart prompt is shown, it stays lit this long before toggling.
pub const FLASH_ON_MS: u64 = 2000;

/// While the restart prompt is hidden, it stays dark this long before toggling.
pub const FLASH_OFF_MS: u64 = 1000;

/// Bound on the magnitude of every configuration parameter (2^48).
pub const CFG_LIMIT: i64 = 0x1_0000_0000_0000;

/// Bound on the magnitude of live body coordinates (2^59). One integration
/// step or one recycle stays far inside `i64` under this band.
pub const POS_LIMIT: i64 = 0x0800_0000_0000_0000;

/// Geometry and physics parameters. All lengths are in world units; the
/// window is `2 * half_width` wide and `2 * half_height` tall, centered on
/// the origin.
#[derive(Clone, Copy, PartialEq, Eq, Structural, Debug)]
pub struct Config {
    /// Half the window width; the player sits at `x == -half_width`.
    pub half_width: i64,
    /// Half the window height; leaving `|y| <= half_height` ends the life.
    pub half_height: i64,
    /// Width of each obstacle rectangle.
    pub pipe_width: i64,
    /// Height of each obstacle rectangle.
    pub pipe_height: i64,
    /// Vertical extent of the gap between the two rectangles of a pair.
    pub gap_height: i64,
    /// Horizontal distance from a recycled pair to the rightmost body.
    pub pipe_spacing: i64,
    /// X-position of the first pair at construction and restart.
    pub pipe_start_x: i64,
    /// Leftward scroll velocity of the obstacles, in units per tick (negative).
    pub scroll_velocity_x: i64,
    /// Radius of the player's circle.
    pub player_radius: i64,
    /// Upward velocity written over the player's motion on a jump.
    pub jump_impulse: i64,
    /// Downward acceleration of the player, in units per tick squared (positive).
    pub gravity: i64,
}

impl Config {
    /// A configuration is playable when every length is positive, the gap
    /// fits inside the window, obstacles scroll leftward, and every
    /// magnitude stays inside the overflow-safe band.
    pub open spec fn valid(self) -> bool {
        &&& 0 < self.half_width <= CFG_LIMIT
        &&& 0 < self.half_height <= CFG_LIMIT
        &&& 0 < self.pipe_width <= CFG_LIMIT
        &&& 0 < self.pipe_height <= CFG_LIMIT
        &&& 0 < self.gap_height <= CFG_LIMIT
        &&& self.gap_height < 2 * self.half_height
        &&& 0 < self.pipe_spacing <= CFG_LIMIT
        &&& -CFG_LIMIT <= self.pipe_start_x <= CFG_LIMIT
        &&& -CFG_LIMIT <= self.scroll_velocity_x < 0
        &&& 0 < self.player_radius <= CFG_LIMIT
        &&& 0 < self.jump_impulse <= CFG_LIMIT
        &&& 0 < self.gravity <= CFG_LIMIT
    }

    /// Run-time check of [`Config::valid`], for construction-time rejection
    /// of unplayable configurations.
    pub fn is_valid(&self) -> (r: bool)
        ensures
            r == self.valid(),
    {
        0 < self.half_width && self.half_width <= CFG_LIMIT
            && 0 < self.half_height && self.half_height <= CFG_LIMIT
            && 0 < self.pipe_width && self.pipe_width <= CFG_LIMIT
            && 0 < self.pipe_height && self.pipe_height <= CFG_LIMIT
            && 0 < self.gap_height && self.gap_height <= CFG_LIMIT
            && self.gap_height < 2 * self.half_height
            && 0 < self.pipe_spacing && self.pipe_spacing <= CFG_LIMIT
            && -CFG_LIMIT <= self.pipe_start_x && self.pipe_start_x <= CFG_LIMIT
            && -CFG_LIMIT <= self.scroll_velocity_x && self.scroll_velocity_x < 0
            && 0 < self.player_radius && self.player_radius <= CFG_LIMIT
            && 0 < self.jump_impulse && self.jump_impulse <= CFG_LIMIT
            && 0 < self.gravity && self.gravity <= CFG_LIMIT
    }
}

} // verus!
