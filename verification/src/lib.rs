//! Core simulation of a side-scrolling flap-to-fly arcade game.
//!
//! The player character falls under constant gravity and rises on a flap
//! impulse, flying through a sequence of gated obstacles.  Passing an
//! obstacle scores a fixed reward and shrinks future gaps; touching a
//! column or leaving the playfield ends the run.
//!
//! All quantities are fixed-point integers: vertical velocity is kept in
//! tenths of a cell per physics step, the score in hundredths of a point,
//! and the frame-time accumulator in microseconds.

use vstd::prelude::*;

pub mod obstacle;
pub mod player;
mod rng;
pub mod state;

verus! {

/// Width of the console grid in cells; a new obstacle spawns one full
/// screen width ahead of the player.
pub const SCREEN_WIDTH: i32 = 80;

/// Height of the console grid in cells; flying above it loses the run.
pub const SCREEN_HEIGHT: i32 = 50;

/// Physics advances only once the accumulator exceeds this many
/// microseconds (a 75 ms fixed step).
pub const FRAME_DURATION_MICROS: u64 = 75_000;

/// Reward for passing one obstacle, in hundredths of a point (0.05).
pub const SCORE_PER_OBSTACLE: i32 = 5;

/// Hundredths of a point per displayed point.
pub const SCORE_SCALE: i32 = 100;

/// Tenths of a cell per whole cell of vertical movement.
pub const VELOCITY_SCALE: i32 = 10;

/// Gravity adds this much velocity each physics step (0.2 cells).
pub const GRAVITY_INCREMENT: i32 = 2;

/// Terminal fall velocity in tenths of a cell per step (2.0 cells).
pub const MAX_FALL_VELOCITY: i32 = 20;

/// A flap resets the velocity to this value (-2.0 cells per step).
pub const FLAP_VELOCITY: i32 = -20;

/// Horizontal cell where every run starts.
pub const PLAYER_START_X: i32 = 5;

/// Vertical cell where every run starts.
pub const PLAYER_START_Y: i32 = 25;

/// Pixels per console cell; half of it is the horizontal collision
/// tolerance of an obstacle column.
pub const SPRITE_COORD_TO_CONSOLE_COORD: i32 = 8;

/// Gap height of the very first obstacle, and the largest ever used.
pub const MAX_GAP_SIZE: i32 = 30;

/// Gaps never shrink below this height, however large the score.
pub const MIN_GAP_SIZE: i32 = 5;

/// An obstacle's gap centre is drawn within this distance of its seed.
pub const GAP_WANDER: i32 = 5;

/// A spawned obstacle's seed centre is drawn within this distance of the
/// previous obstacle's gap centre.
pub const CENTER_WANDER: i32 = 7;

/// Lowest cell a spawned gap centre is clamped to.
pub const CENTER_MIN: i32 = 20;

/// Highest cell a spawned gap centre is clamped to (20 above the floor
/// of the playfield).
pub const CENTER_MAX: i32 = 30;

/// Horizontal positions stay below this bound so that spawning an
/// obstacle one screen ahead can never overflow an `i32`.
pub const X_LIMIT: i32 = 2_000_000_000;

/// Scores stay below this bound so that adding a reward can never
/// overflow an `i32`.
pub const SCORE_LIMIT: i32 = 2_000_000_000;

} // verus!
