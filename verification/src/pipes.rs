//! The obstacle pair factory: from an x-position, pipe dimensions, a gap
//! height and a vertical gap offset it builds the two rectangles of a pair,
//! positioned so that a gap of exactly the requested height separates them.
//!
//! A body's `y` is the bottom edge of its rectangle, so the top pipe spans
//! `[y, y + height]` vertically and the gap is the band between the top
//! pipe's bottom edge and the bottom pipe's top edge.

use vstd::prelude::*;

use crate::body::{Body, Shape};
use crate::config::{CFG_LIMIT, POS_LIMIT};

verus! {

/// The bottom edge of the top pipe of a pair with the given gap height,
/// shifted by the per-spawn gap offset.
pub open spec fn top_pipe_y(gap_height: int, gap_offset: int) -> int {
    gap_height / 2 + gap_offset
}

/// The bottom edge of the bottom pipe: one gap height plus one pipe height
/// below the top pipe's bottom edge.
pub open spec fn bottom_pipe_y(gap_height: int, gap_offset: int, pipe_height: int) -> int {
    top_pipe_y(gap_height, gap_offset) - gap_height - pipe_height
}

/// `b` is the top pipe of a pair at `x` with the given dimensions, gap
/// offset and scroll velocity.
pub open spec fn is_pipe_top(
    b: Body,
    id: usize,
    x: int,
    pipe_width: int,
    pipe_height: int,
    gap_height: int,
    gap_offset: int,
    velocity_x: int,
) -> bool {
    &&& b.id == id
    &&& b.shape matches Shape::Rectangle { width, height } && width == pipe_width && height
        == pipe_height
    &&& b.x == x
    &&& b.y == top_pipe_y(gap_height, gap_offset)
    &&& b.prev_x == x - velocity_x
    &&& b.prev_y == b.y
    &&& b.acc_x == 0 && b.acc_y == 0
}

/// `b` is the bottom pipe of a pair at `x` with the given dimensions, gap
/// offset and scroll velocity.
pub open spec fn is_pipe_bottom(
    b: Body,
    id: usize,
    x: int,
    pipe_width: int,
    pipe_height: int,
    gap_height: int,
    gap_offset: int,
    velocity_x: int,
) -> bool {
    &&& b.id == id
    &&& b.shape matches Shape::Rectangle { width, height } && width == pipe_width && height
        == pipe_height
    &&& b.x == x
    &&& b.y == bottom_pipe_y(gap_height, gap_offset, pipe_height)
    &&& b.prev_x == x - velocity_x
    &&& b.prev_y == b.y
    &&& b.acc_x == 0 && b.acc_y == 0
}

/// Build the two rectangles of an obstacle pair. Pure in its arguments: the
/// caller draws the random gap offset. Both bodies scroll leftward at
/// `velocity_x` with zero acceleration, and the vertical gap between them is
/// exactly `gap_height`, whatever the offset.
pub fn create_pipe_pair(
    id_top: usize,
    id_bot: usize,
    x: i64,
    pipe_width: i64,
    pipe_height: i64,
    gap_height: i64,
    gap_offset: i64,
    velocity_x: i64,
) -> (r: (Body, Body))
    requires
        0 < pipe_width <= CFG_LIMIT,
        0 < pipe_height <= CFG_LIMIT,
        0 < gap_height <= CFG_LIMIT,
        -POS_LIMIT - CFG_LIMIT <= x <= POS_LIMIT + CFG_LIMIT,
        -2 * CFG_LIMIT <= gap_offset <= 2 * CFG_LIMIT,
        -CFG_LIMIT <= velocity_x <= CFG_LIMIT,
    ensures
        is_pipe_top(
            r.0,
            id_top,
            x as int,
            pipe_width as int,
            pipe_height as int,
            gap_height as int,
            gap_offset as int,
            velocity_x as int,
        ),
        is_pipe_bottom(
            r.1,
            id_bot,
            x as int,
            pipe_width as int,
            pipe_height as int,
            gap_height as int,
            gap_offset as int,
            velocity_x as int,
        ),
        r.0.y - (r.1.y + pipe_height) == gap_height,
{
    let top_y = gap_height / 2 + gap_offset;
    let bot_y = top_y - gap_height - pipe_height;

    let top = Body::rectangle(id_top, x, top_y, velocity_x, 0, 0, 0, pipe_width, pipe_height);
    let bot = Body::rectangle(id_bot, x, bot_y, velocity_x, 0, 0, 0, pipe_width, pipe_height);
    (top, bot)
}

/// Gap invariant: for any pair the factory describes, the vertical distance
/// between the top pipe's bottom edge and the bottom pipe's top edge is
/// exactly the gap height, independent of the gap offset.
pub proof fn lemma_gap_invariant(
    top: Body,
    bot: Body,
    id_top: usize,
    id_bot: usize,
    x: int,
    pipe_width: int,
    pipe_height: int,
    gap_height: int,
    gap_offset: int,
    velocity_x: int,
)
    requires
        is_pipe_top(top, id_top, x, pipe_width, pipe_height, gap_height, gap_offset, velocity_x),
        is_pipe_bottom(bot, id_bot, x, pipe_width, pipe_height, gap_height, gap_offset, velocity_x),
    ensures
        top.y - (bot.y + pipe_height) == gap_height,
{
}

} // verus!
