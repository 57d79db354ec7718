//! The obstacle ring manager and progress scoper: pass-through and
//! off-screen tests over the body ring, the skip-the-player advance of the
//! "next pair" pointer, and in-place recycling of a pair that has scrolled
//! off the left edge.
//!
//! The ring is a fixed-length sequence of bodies: the player at slot 0,
//! then the pairs as consecutive (top, bottom) slots. Pointers into the
//! ring name the top slot of a pair, so they are odd.

use vstd::prelude::*;
use vstd::arithmetic::div_mod::lemma_small_mod;

use crate::body::Body;
use crate::config::{Config, CFG_LIMIT, POS_LIMIT};
use crate::pipes::{create_pipe_pair, is_pipe_bottom, is_pipe_top};
use crate::rng::gen_range_i64;

verus! {

/// The player has passed the pair whose top slot is `next_idx`: the pair's
/// right edge is behind the player's x-position.
pub open spec fn pass_due(s: Seq<Body>, next_idx: int, pipe_width: int) -> bool {
    s[next_idx].x + pipe_width < s[0].x
}

/// The pair whose top slot is `passed_idx` has scrolled fully off the left
/// edge of the screen.
pub open spec fn off_screen(s: Seq<Body>, passed_idx: int, pipe_width: int, half_width: int) -> bool {
    s[passed_idx].x + pipe_width < -half_width
}

/// Pass-through test: true when the right edge of the pair at `next_idx` is
/// strictly left of the player's x-position.
pub fn is_player_passed_next_pipe_pair(bodies: &Vec<Body>, next_idx: usize, pipe_width: i64) -> (r:
    bool)
    requires
        0 < bodies@.len(),
        next_idx < bodies@.len(),
        0 <= pipe_width <= CFG_LIMIT,
        -POS_LIMIT - CFG_LIMIT <= bodies@[next_idx as int].x <= POS_LIMIT + CFG_LIMIT,
    ensures
        r == pass_due(bodies@, next_idx as int, pipe_width as int),
{
    let next_pipe_pair_right_edge = bodies[next_idx].x + pipe_width;
    let player_x = bodies[0].x;
    next_pipe_pair_right_edge < player_x
}

/// Off-screen test: true when the right edge of the pair at `passed_idx` is
/// strictly left of the window's left edge.
pub fn is_passed_pipe_pair_off_left_screen(
    bodies: &Vec<Body>,
    passed_idx: usize,
    pipe_width: i64,
    screen_half_width: i64,
) -> (r: bool)
    requires
        passed_idx < bodies@.len(),
        0 <= pipe_width <= CFG_LIMIT,
        0 <= screen_half_width <= CFG_LIMIT,
        -POS_LIMIT - CFG_LIMIT <= bodies@[passed_idx as int].x <= POS_LIMIT + CFG_LIMIT,
    ensures
        r == off_screen(bodies@, passed_idx as int, pipe_width as int, screen_half_width as int),
{
    let passed_pipe_pair_right_edge = bodies[passed_idx].x + pipe_width;
    let left_window_edge = -screen_half_width;
    passed_pipe_pair_right_edge < left_window_edge
}

/// The largest x-position among the bodies of `s`.
pub open spec fn max_x_spec(s: Seq<Body>) -> int
    recommends
        s.len() >= 1,
    decreases s.len(),
{
    if s.len() <= 1 {
        s[0].x as int
    } else {
        let m = max_x_spec(s.drop_last());
        if s.last().x > m {
            s.last().x as int
        } else {
            m
        }
    }
}

/// The maximum is at least every body's x-position.
pub proof fn lemma_max_x_ge(s: Seq<Body>, k: int)
    requires
        0 <= k < s.len(),
    ensures
        max_x_spec(s) >= s[k].x,
    decreases s.len(),
{
    if s.len() > 1 && k < s.len() - 1 {
        lemma_max_x_ge(s.drop_last(), k);
    }
}

/// The maximum is the x-position of some body.
pub proof fn lemma_max_x_witness(s: Seq<Body>)
    requires
        s.len() >= 1,
    ensures
        exists|k: int| 0 <= k < s.len() && max_x_spec(s) == s[k].x,
    decreases s.len(),
{
    if s.len() == 1 {
        assert(max_x_spec(s) == s[0].x);
    } else {
        lemma_max_x_witness(s.drop_last());
        if !(s.last().x > max_x_spec(s.drop_last())) {
            let j = choose|k: int| 0 <= k < s.drop_last().len() && max_x_spec(s.drop_last())
                == s.drop_last()[k].x;
            assert(max_x_spec(s) == s[j].x);
        } else {
            assert(max_x_spec(s) == s[s.len() - 1].x);
        }
    }
}

/// Largest x-position over all bodies.
pub fn max_body_x(bodies: &Vec<Body>) -> (r: i64)
    requires
        bodies@.len() >= 1,
    ensures
        r == max_x_spec(bodies@),
{
    let mut m = bodies[0].x;
    let mut i: usize = 1;
    while i < bodies.len()
        invariant
            1 <= i <= bodies@.len(),
            m == max_x_spec(bodies@.take(i as int)),
        decreases bodies@.len() - i,
    {
        proof {
            assert(bodies@.take(i + 1).drop_last() =~= bodies@.take(i as int));
            assert(bodies@.take(i + 1).last() == bodies@[i as int]);
        }
        if bodies[i].x > m {
            m = bodies[i].x;
        }
        i = i + 1;
    }
    proof {
        assert(bodies@.take(bodies@.len() as int) =~= bodies@);
    }
    m
}

/// The pointer advance after a pass-through: two slots onward, wrapping
/// around the ring, skipping one more slot when the wrap lands on the
/// player's slot 0.
pub open spec fn advance_spec(i: int, len: int) -> int {
    let j = (i + 2) % len;
    if j == 0 {
        1
    } else {
        j
    }
}

/// `n` pointer advances in a row.
pub open spec fn advance_n(i: int, len: int, n: nat) -> int
    decreases n,
{
    if n == 0 {
        i
    } else {
        advance_spec(advance_n(i, len, (n - 1) as nat), len)
    }
}

/// One advance keeps the pointer odd, nonzero and inside the ring, for any
/// ring of odd length (a player slot plus two slots per pair).
pub proof fn lemma_advance_keeps_odd(i: int, len: int)
    requires
        len % 2 == 1,
        3 <= len,
        i % 2 == 1,
        1 <= i < len,
    ensures
        advance_spec(i, len) % 2 == 1,
        1 <= advance_spec(i, len) < len,
        advance_spec(i, len) != 0,
{
    if i + 2 == len {
        assert(len % len == 0) by {
            lemma_small_mod(0, len as nat);
        }
    } else {
        assert(i + 2 < len);
        assert((i + 2) % len == i + 2) by {
            lemma_small_mod((i + 2) as nat, len as nat);
        }
    }
}

/// Pointer invariant: after any number of pass-through advances from an odd
/// in-range start, the next-pair pointer is still odd, never 0, and inside
/// the ring, for any ring of odd length.
pub proof fn lemma_pointer_invariant(i: int, len: int, n: nat)
    requires
        len % 2 == 1,
        3 <= len,
        i % 2 == 1,
        1 <= i < len,
    ensures
        advance_n(i, len, n) % 2 == 1,
        1 <= advance_n(i, len, n) < len,
        advance_n(i, len, n) != 0,
    decreases n,
{
    if n > 0 {
        lemma_pointer_invariant(i, len, (n - 1) as nat);
        lemma_advance_keeps_odd(advance_n(i, len, (n - 1) as nat), len);
    }
}

/// Advance the next-pair pointer past the pair just passed.
pub fn advance_next_index(next_idx: usize, len: usize) -> (r: usize)
    requires
        2 <= len,
        next_idx < len,
        len <= usize::MAX - 2,
    ensures
        r == advance_spec(next_idx as int, len as int),
{
    let j = (next_idx + 2) % len;
    if j == 0 {
        1
    } else {
        j
    }
}

/// The replaced pair stands at the recycle position: one pair spacing beyond
/// the rightmost body of the old ring, with the old ids, a fresh in-band gap
/// offset (recoverable from the top pipe's y), and every other body
/// untouched.
pub open spec fn recycled_pair_ok(pre: Seq<Body>, post: Seq<Body>, p: int, cfg: Config) -> bool {
    let new_x = max_x_spec(pre) + cfg.pipe_spacing;
    let off = post[p].y - cfg.gap_height / 2;
    &&& post.len() == pre.len()
    &&& -cfg.half_height <= off < cfg.half_height
    &&& is_pipe_top(
        post[p],
        pre[p].id,
        new_x,
        cfg.pipe_width as int,
        cfg.pipe_height as int,
        cfg.gap_height as int,
        off,
        cfg.scroll_velocity_x as int,
    )
    &&& is_pipe_bottom(
        post[p + 1],
        pre[p + 1].id,
        new_x,
        cfg.pipe_width as int,
        cfg.pipe_height as int,
        cfg.gap_height as int,
        off,
        cfg.scroll_velocity_x as int,
    )
    &&& forall|k: int| 0 <= k < pre.len() && k != p && k != p + 1 ==> post[k] == pre[k]
}

/// Respawn the pair whose top slot is `passed_idx` one pair spacing beyond
/// the rightmost body, reusing the pair's ids and the given gap offset.
pub fn recycle_pair(bodies: &mut Vec<Body>, passed_idx: usize, cfg: &Config, gap_offset: i64)
    requires
        cfg.valid(),
        old(bodies)@.len() >= 1,
        passed_idx + 1 < old(bodies)@.len(),
        -cfg.half_height <= gap_offset < cfg.half_height,
        forall|k: int| 0 <= k < old(bodies)@.len() ==> -POS_LIMIT <= #[trigger] old(
            bodies,
        )@[k].x <= POS_LIMIT,
    ensures
        recycled_pair_ok(old(bodies)@, final(bodies)@, passed_idx as int, *cfg),
        final(bodies)@[passed_idx as int].y == cfg.gap_height / 2 + gap_offset,
{
    let m = max_body_x(bodies);
    proof {
        // the ring's length is a usize, so the slot above passed_idx fits
        vstd::std_specs::vec::axiom_spec_len(bodies);
        lemma_max_x_witness(old(bodies)@);
        lemma_max_x_ge(old(bodies)@, passed_idx as int);
    }
    let new_x = m + cfg.pipe_spacing;
    let id_top = bodies[passed_idx].id;
    let id_bot = bodies[passed_idx + 1].id;
    let (top, bot) = create_pipe_pair(
        id_top,
        id_bot,
        new_x,
        cfg.pipe_width,
        cfg.pipe_height,
        cfg.gap_height,
        gap_offset,
        cfg.scroll_velocity_x,
    );
    bodies.set(passed_idx, top);
    bodies.set(passed_idx + 1, bot);
}

/// Recycle placement: the recycled pair stands strictly to the right of
/// every body of the old ring, by exactly the configured pair spacing above
/// the old maximum.
pub proof fn lemma_recycle_placement(pre: Seq<Body>, post: Seq<Body>, p: int, cfg: Config, k: int)
    requires
        cfg.valid(),
        0 <= p,
        p + 1 < pre.len(),
        recycled_pair_ok(pre, post, p, cfg),
        0 <= k < pre.len(),
    ensures
        post[p].x == max_x_spec(pre) + cfg.pipe_spacing,
        post[p + 1].x == post[p].x,
        post[p].x > pre[k].x,
{
    lemma_max_x_ge(pre, k);
}

/// Recycle the passed pair when and only when it has scrolled fully off the
/// left edge; a fresh gap offset is drawn for the respawned pair. Calling it
/// when the pair is still on screen is a no-op returning false.
pub fn recycle_if_off_screen(bodies: &mut Vec<Body>, passed_idx: usize, cfg: &Config) -> (recycled:
    bool)
    requires
        cfg.valid(),
        old(bodies)@.len() >= 1,
        passed_idx + 1 < old(bodies)@.len(),
        forall|k: int| 0 <= k < old(bodies)@.len() ==> -POS_LIMIT <= #[trigger] old(
            bodies,
        )@[k].x <= POS_LIMIT,
    ensures
        recycled == off_screen(
            old(bodies)@,
            passed_idx as int,
            cfg.pipe_width as int,
            cfg.half_width as int,
        ),
        recycled ==> recycled_pair_ok(old(bodies)@, final(bodies)@, passed_idx as int, *cfg),
        !recycled ==> final(bodies)@ == old(bodies)@,
{
    if is_passed_pipe_pair_off_left_screen(bodies, passed_idx, cfg.pipe_width, cfg.half_width) {
        let gap_offset = gen_range_i64(-cfg.half_height, cfg.half_height);
        recycle_pair(bodies, passed_idx, cfg, gap_offset);
        true
    } else {
        false
    }
}

} // verus!
