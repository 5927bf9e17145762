//! The player character: position, vertical velocity, gravity and flap.

use vstd::prelude::*;

use crate::FLAP_VELOCITY;
use crate::GRAVITY_INCREMENT;
use crate::MAX_FALL_VELOCITY;
use crate::VELOCITY_SCALE;
use crate::X_LIMIT;

verus! {

/// The player-controlled character.  `x` counts total distance
/// travelled; `y` grows downward and is clamped to the top of the
/// playfield at 0; `velocity` is vertical speed in tenths of a cell per
/// physics step (negative is upward).
#[derive(Clone, Copy, Debug, PartialEq, Eq, Structural)]
pub struct Player {
    pub x: i32,
    pub y: i32,
    pub velocity: i32,
}

/// The velocity after one physics step: gravity adds a fixed increment
/// until the terminal fall velocity is reached, and never beyond it.
pub open spec fn spec_next_velocity(v: int) -> int {
    if v < MAX_FALL_VELOCITY as int {
        v + GRAVITY_INCREMENT as int
    } else {
        v
    }
}

/// Whole cells fallen in one step at velocity `v`: the fixed-point
/// velocity divided by the scale, truncated toward zero.
pub open spec fn spec_fall_delta(v: int) -> int {
    if v >= 0 {
        v / (VELOCITY_SCALE as int)
    } else {
        -((-v) / (VELOCITY_SCALE as int))
    }
}

/// The vertical position after one step at velocity `v`, clamped so it
/// never leaves the playfield upward.
pub open spec fn spec_clamped_y(y: int, v: int) -> int {
    let moved = y + spec_fall_delta(v);
    if moved < 0 {
        0
    } else {
        moved
    }
}

impl Player {
    /// Well-formedness: position within the bounds the game can ever
    /// produce, and a velocity reachable from gravity steps and flaps.
    pub open spec fn wf(self) -> bool {
        &&& 0 <= self.x <= X_LIMIT
        &&& 0 <= self.y
        &&& FLAP_VELOCITY <= self.velocity <= MAX_FALL_VELOCITY
        &&& self.velocity % 2 == 0
    }

    /// A player at rest at the given cell.
    pub fn new(x: i32, y: i32) -> (p: Player)
        ensures
            p.x == x,
            p.y == y,
            p.velocity == 0,
    {
        Player { x, y, velocity: 0 }
    }

    /// One fixed physics step: gravity raises the velocity toward its
    /// cap, the player falls by the truncated number of cells, advances
    /// one cell forward, and is clamped to the top of the playfield.
    ///
    /// The velocity strictly increases by the fixed gravity increment
    /// each step until it reaches the terminal fall velocity, and is
    /// never incremented beyond that cap; the vertical position is
    /// never negative afterwards.
    pub fn gravity_and_move(&mut self)
        requires
            old(self).wf(),
            old(self).x < X_LIMIT,
            old(self).y <= i32::MAX - 2,
        ensures
            final(self).wf(),
            final(self).velocity == spec_next_velocity(old(self).velocity as int),
            old(self).velocity < MAX_FALL_VELOCITY ==> final(self).velocity
                == old(self).velocity + GRAVITY_INCREMENT,
            old(self).velocity >= MAX_FALL_VELOCITY ==> final(self).velocity
                == old(self).velocity,
            final(self).velocity <= MAX_FALL_VELOCITY,
            final(self).x == old(self).x + 1,
            final(self).y == spec_clamped_y(old(self).y as int, final(self).velocity as int),
            final(self).y >= 0,
            final(self).y <= old(self).y + 2,
    {
        if self.velocity < MAX_FALL_VELOCITY {
            self.velocity = self.velocity + GRAVITY_INCREMENT;
        }

        let delta: i32 = if self.velocity >= 0 {
            self.velocity / VELOCITY_SCALE
        } else {
            -((-self.velocity) / VELOCITY_SCALE)
        };
        self.y = self.y + delta;
        self.x = self.x + 1;
        if self.y < 0 {
            self.y = 0;
        }
    }

    /// An instantaneous upward impulse: the velocity is reset to the
    /// same fixed negative value whatever it was before, never added to.
    pub fn flap(&mut self)
        ensures
            final(self).velocity == FLAP_VELOCITY,
            final(self).x == old(self).x,
            final(self).y == old(self).y,
            old(self).wf() ==> final(self).wf(),
    {
        self.velocity = FLAP_VELOCITY;
    }
}

} // verus!
