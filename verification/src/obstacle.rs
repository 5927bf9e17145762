//! Obstacles: randomly placed gaps that shrink as the score rises, and
//! the collision test against the player.

use vstd::prelude::*;

use crate::player::Player;
use crate::rng::random_range;
use crate::CENTER_MAX;
use crate::CENTER_MIN;
use crate::GAP_WANDER;
use crate::MAX_GAP_SIZE;
use crate::MIN_GAP_SIZE;
use crate::SCORE_SCALE;
use crate::SPRITE_COORD_TO_CONSOLE_COORD;

verus! {

/// One gated obstacle: a column at world position `x` with a passable
/// gap centred at `gap_y`, `size` cells tall.
#[derive(Clone, Copy, Debug, PartialEq, Eq, Structural)]
pub struct Obstacle {
    pub x: i32,
    pub gap_y: i32,
    pub size: i32,
}

/// Gap height for a given score (in hundredths of a point): it starts
/// at the maximum, shrinks by one cell per whole point scored, and is
/// floored at the minimum playable height.
pub open spec fn spec_size_for(score: int) -> int {
    let shrunk = MAX_GAP_SIZE as int - score / (SCORE_SCALE as int);
    if shrunk > MIN_GAP_SIZE as int {
        shrunk
    } else {
        MIN_GAP_SIZE as int
    }
}

impl Obstacle {
    /// Well-formedness: gap centre within the window spawning can ever
    /// produce, gap height between its floor and its start value, and a
    /// non-negative world position.
    pub open spec fn wf(self) -> bool {
        &&& 0 <= self.x
        &&& CENTER_MIN - GAP_WANDER <= self.gap_y < CENTER_MAX + GAP_WANDER
        &&& MIN_GAP_SIZE <= self.size <= MAX_GAP_SIZE
    }

    /// A new obstacle at column `x`: its gap centre is drawn uniformly
    /// within a fixed symmetric window around `seed_gap_y`, and its gap
    /// height is fixed by the current score.
    pub fn new(x: i32, seed_gap_y: i32, score: i32) -> (o: Obstacle)
        requires
            0 <= score,
            i32::MIN + GAP_WANDER <= seed_gap_y <= i32::MAX - GAP_WANDER,
        ensures
            o.x == x,
            seed_gap_y - GAP_WANDER <= o.gap_y < seed_gap_y + GAP_WANDER,
            o.size == spec_size_for(score as int),
    {
        let center: i32 = random_range(seed_gap_y - GAP_WANDER, seed_gap_y + GAP_WANDER);
        let shrunk: i32 = MAX_GAP_SIZE - score / SCORE_SCALE;
        let size: i32 = if shrunk > MIN_GAP_SIZE {
            shrunk
        } else {
            MIN_GAP_SIZE
        };
        Obstacle { x, gap_y: center, size }
    }

    /// The collision predicate: the player is exactly at this
    /// obstacle's column (within the half-sprite-width tolerance) and
    /// vertically strictly outside the gap.
    pub open spec fn spec_hit(self, player: Player) -> bool {
        &&& player.x == self.x - SPRITE_COORD_TO_CONSOLE_COORD / 2
        &&& (player.y < self.gap_y - self.size / 2 || player.y > self.gap_y + self.size / 2)
    }

    /// True exactly when the player collides with this obstacle: the
    /// player's column matches this obstacle's (within the tolerance)
    /// and the player's row is strictly above or strictly below the gap.
    pub fn hit_obstacle(&self, player: &Player) -> (r: bool)
        requires
            self.wf(),
        ensures
            r == self.spec_hit(*player),
    {
        let half_size: i32 = self.size / 2;

        let does_x_match = player.x == self.x - SPRITE_COORD_TO_CONSOLE_COORD / 2;
        let player_above_gap = player.y < self.gap_y - half_size;
        let player_below_gap = player.y > self.gap_y + half_size;

        does_x_match && (player_above_gap || player_below_gap)
    }
}

/// The gap of an obstacle never drops below the minimum playable
/// height, and is monotonically non-increasing as the score rises.
pub proof fn lemma_size_monotone(score1: int, score2: int)
    requires
        0 <= score1 <= score2,
    ensures
        MIN_GAP_SIZE <= spec_size_for(score2) <= spec_size_for(score1) <= MAX_GAP_SIZE,
{
    vstd::arithmetic::div_mod::lemma_div_is_ordered(score1, score2, SCORE_SCALE as int);
    vstd::arithmetic::div_mod::lemma_div_pos_is_pos(score1, SCORE_SCALE as int);
}

} // verus!
