//! Tests of the obstacle pair factory.

use flappy_core::body::Shape;
use flappy_core::pipes::create_pipe_pair;

#[test]
fn pair_geometry_exact() {
    let (top, bot) = create_pipe_pair(1, 2, 200, 350, 700, 430, 123, -4);

    assert_eq!(top.id, 1);
    assert_eq!(bot.id, 2);
    assert_eq!(top.shape, Shape::Rectangle { width: 350, height: 700 });
    assert_eq!(bot.shape, Shape::Rectangle { width: 350, height: 700 });

    // both share the x-position and scroll leftward at the given velocity
    assert_eq!(top.x, 200);
    assert_eq!(bot.x, 200);
    assert_eq!(top.prev_x, 204);
    assert_eq!(bot.prev_x, 204);
    assert_eq!(top.x - top.prev_x, -4);

    // vertical placement: gap half-height plus the offset
    assert_eq!(top.y, 430 / 2 + 123);
    assert_eq!(bot.y, top.y - 430 - 700);

    // no vertical motion, no acceleration
    assert_eq!(top.prev_y, top.y);
    assert_eq!(bot.prev_y, bot.y);
    assert_eq!(top.acc_x, 0);
    assert_eq!(top.acc_y, 0);
    assert_eq!(bot.acc_x, 0);
    assert_eq!(bot.acc_y, 0);
}

#[test]
fn gap_invariant_independent_of_offset() {
    // the vertical distance between the top pipe's bottom edge and the
    // bottom pipe's top edge is exactly the gap height, whatever the offset
    let offsets: [i64; 7] = [-300, -123, -1, 0, 1, 123, 299];
    for &off in offsets.iter() {
        let (top, bot) = create_pipe_pair(1, 2, -1300, 350, 700, 430, off, -4);
        assert_eq!(top.y - (bot.y + 700), 430);
    }
}

#[test]
fn gap_invariant_odd_gap_height() {
    let (top, bot) = create_pipe_pair(5, 6, 0, 10, 25, 431, -7, -1);
    assert_eq!(top.y - (bot.y + 25), 431);
}
