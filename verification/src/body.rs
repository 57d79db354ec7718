//! Rigid bodies of the simulation: the player's circle and the obstacle
//! rectangles, with velocity-implicit motion (a body's velocity is its
//! position minus its previous position, the external integrator's
//! convention).

use vstd::prelude::*;

use crate::config::{CFG_LIMIT, POS_LIMIT};

verus! {

/// The collision shape of a body.
#[derive(Clone, Copy, PartialEq, Eq, Structural, Debug)]
pub enum Shape {
    Circle { radius: i64 },
    Rectangle { width: i64, height: i64 },
}

/// A rigid body: stable identity, shape, current and previous position, and
/// constant acceleration. The previous position encodes the velocity:
/// `prev == pos - vel`, so one integration step reproduces the intended
/// velocity.
#[derive(Clone, Copy, PartialEq, Eq, Structural, Debug)]
pub struct Body {
    pub id: usize,
    pub shape: Shape,
    pub x: i64,
    pub y: i64,
    pub prev_x: i64,
    pub prev_y: i64,
    pub acc_x: i64,
    pub acc_y: i64,
}

impl Body {
    /// Horizontal velocity implied by the previous position.
    pub open spec fn vel_x(self) -> int {
        self.x - self.prev_x
    }

    /// Vertical velocity implied by the previous position.
    pub open spec fn vel_y(self) -> int {
        self.y - self.prev_y
    }

    /// All coordinates of this body lie in the overflow-safe band, and its
    /// acceleration in the configuration band.
    pub open spec fn in_band(self) -> bool {
        &&& -POS_LIMIT <= self.x <= POS_LIMIT
        &&& -POS_LIMIT <= self.y <= POS_LIMIT
        &&& -POS_LIMIT <= self.prev_x <= POS_LIMIT
        &&& -POS_LIMIT <= self.prev_y <= POS_LIMIT
        &&& -CFG_LIMIT <= self.acc_x <= CFG_LIMIT
        &&& -CFG_LIMIT <= self.acc_y <= CFG_LIMIT
    }

    /// Build a circular body moving at the given velocity.
    pub fn circle(
        id: usize,
        x: i64,
        y: i64,
        vel_x: i64,
        vel_y: i64,
        acc_x: i64,
        acc_y: i64,
        radius: i64,
    ) -> (b: Body)
        requires
            i64::MIN <= x - vel_x <= i64::MAX,
            i64::MIN <= y - vel_y <= i64::MAX,
        ensures
            b.id == id,
            b.shape == (Shape::Circle { radius }),
            b.x == x && b.y == y,
            b.prev_x == x - vel_x && b.prev_y == y - vel_y,
            b.acc_x == acc_x && b.acc_y == acc_y,
            b.vel_x() == vel_x && b.vel_y() == vel_y,
    {
        Body {
            id,
            shape: Shape::Circle { radius },
            x,
            y,
            prev_x: x - vel_x,
            prev_y: y - vel_y,
            acc_x,
            acc_y,
        }
    }

    /// Build a rectangular body moving at the given velocity.
    pub fn rectangle(
        id: usize,
        x: i64,
        y: i64,
        vel_x: i64,
        vel_y: i64,
        acc_x: i64,
        acc_y: i64,
        width: i64,
        height: i64,
    ) -> (b: Body)
        requires
            i64::MIN <= x - vel_x <= i64::MAX,
            i64::MIN <= y - vel_y <= i64::MAX,
        ensures
            b.id == id,
            b.shape == (Shape::Rectangle { width, height }),
            b.x == x && b.y == y,
            b.prev_x == x - vel_x && b.prev_y == y - vel_y,
            b.acc_x == acc_x && b.acc_y == acc_y,
            b.vel_x() == vel_x && b.vel_y() == vel_y,
    {
        Body {
            id,
            shape: Shape::Rectangle { width, height },
            x,
            y,
            prev_x: x - vel_x,
            prev_y: y - vel_y,
            acc_x,
            acc_y,
        }
    }

    /// Overwrite the vertical velocity (not additive): re-encode the
    /// previous position so the next integration step moves the body up by
    /// exactly `vel_y`.
    pub fn set_velocity_y(&mut self, vel_y: i64)
        requires
            i64::MIN <= old(self).y - vel_y <= i64::MAX,
        ensures
            final(self).id == old(self).id,
            final(self).shape == old(self).shape,
            final(self).x == old(self).x && final(self).y == old(self).y,
            final(self).prev_x == old(self).prev_x,
            final(self).prev_y == old(self).y - vel_y,
            final(self).acc_x == old(self).acc_x && final(self).acc_y == old(self).acc_y,
            final(self).vel_y() == vel_y,
    {
        self.prev_y = self.y - vel_y;
    }
}

/// One fixed time step of velocity-implicit integration: the new position is
/// the current one advanced by the implied velocity plus the acceleration,
/// and the current position becomes the previous one.
pub fn integrate_step(b: &mut Body)
    requires
        old(b).in_band(),
    ensures
        final(b).id == old(b).id,
        final(b).shape == old(b).shape,
        final(b).x == 2 * old(b).x - old(b).prev_x + old(b).acc_x,
        final(b).y == 2 * old(b).y - old(b).prev_y + old(b).acc_y,
        final(b).prev_x == old(b).x,
        final(b).prev_y == old(b).y,
        final(b).acc_x == old(b).acc_x && final(b).acc_y == old(b).acc_y,
        final(b).vel_x() == old(b).vel_x() + old(b).acc_x,
        final(b).vel_y() == old(b).vel_y() + old(b).acc_y,
{
    let new_x = b.x + (b.x - b.prev_x) + b.acc_x;
    let new_y = b.y + (b.y - b.prev_y) + b.acc_y;
    b.prev_x = b.x;
    b.prev_y = b.y;
    b.x = new_x;
    b.y = new_y;
}

} // verus!
