//! The controlled entity: a ball with a fixed horizontal position whose
//! vertical motion is integrated under constant gravity, with an
//! instantaneous upward impulse on jump input.

use vstd::prelude::*;

use crate::config::{COORD_LIMIT, GRAVITY, JUMP_VELOCITY};

verus! {

/// The controlled ball. Horizontal position is fixed by the simulation; the
/// vertical position and velocity change every tick while playing.
#[derive(Clone, Copy, PartialEq, Eq, Structural, Debug)]
pub struct Ball {
    pub x_axis: i64,
    pub y_axis: i64,
    pub velocity: i64,
}

/// All coordinates of the ball lie within `m`.
pub open spec fn ball_within(b: Ball, m: int) -> bool {
    &&& -m <= b.x_axis <= m
    &&& -m <= b.y_axis <= m
    &&& -m <= b.velocity <= m
}

/// The ball after one tick of constant-acceleration motion: gravity is added
/// to the velocity, then the new velocity is added to the vertical position.
pub open spec fn integrated(b: Ball) -> Ball {
    Ball {
        x_axis: b.x_axis,
        y_axis: (b.y_axis + b.velocity + GRAVITY) as i64,
        velocity: (b.velocity + GRAVITY) as i64,
    }
}

impl Ball {
    /// One tick of vertical motion. No clamping is performed here;
    /// out-of-bounds positions are left to the collision check.
    pub fn integrate(&mut self)
        requires
            ball_within(*old(self), 2 * COORD_LIMIT),
        ensures
            *final(self) == integrated(*old(self)),
    {
        self.velocity = self.velocity + GRAVITY;
        self.y_axis = self.y_axis + self.velocity;
    }

    /// A jump: the velocity is set (not added) to the fixed upward constant,
    /// whatever its sign or magnitude was before.
    pub fn apply_impulse(&mut self)
        ensures
            final(self).velocity == JUMP_VELOCITY,
            final(self).x_axis == old(self).x_axis,
            final(self).y_axis == old(self).y_axis,
    {
        self.velocity = JUMP_VELOCITY;
    }
}

} // verus!
