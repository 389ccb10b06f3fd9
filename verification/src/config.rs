//! Fixed configuration of the game: screen size, physics constants and pipe
//! geometry, all in integer coordinate units.

use vstd::prelude::*;

verus! {

/// Coordinate units per pixel. The unit is half a pixel, so that the gravity
/// of half a pixel per tick squared is exactly `1`.
pub const UNITS_PER_PIXEL: i64 = 2;

/// Screen width (800 pixels).
pub const SCREEN_WIDTH: i64 = 800 * UNITS_PER_PIXEL;

/// Screen height (600 pixels).
pub const SCREEN_HEIGHT: i64 = 600 * UNITS_PER_PIXEL;

/// Gain in downward velocity per tick (half a pixel per tick squared).
pub const GRAVITY: i64 = 1;

/// Velocity a jump sets, upward (10 pixels per tick).
pub const JUMP_VELOCITY: i64 = -10 * UNITS_PER_PIXEL;

/// Horizontal extent of a pipe (50 pixels).
pub const PIPE_WIDTH: i64 = 50 * UNITS_PER_PIXEL;

/// Vertical extent of the gap in a pipe (150 pixels).
pub const PIPE_GAP: i64 = 150 * UNITS_PER_PIXEL;

/// How far every pipe slides left per tick (2 pixels per tick).
pub const PIPE_SPEED: i64 = 2 * UNITS_PER_PIXEL;

/// A new pipe spawns once the last one is further than this from the right
/// edge (300 pixels).
pub const SPAWN_SPACING: i64 = 300 * UNITS_PER_PIXEL;

/// Least height of the solid region above the gap of a spawned pipe
/// (50 pixels); the same margin is kept below the gap.
pub const GAP_TOP_MIN: i64 = 50 * UNITS_PER_PIXEL;

/// Exclusive upper bound on the height of the solid region above the gap of
/// a spawned pipe.
pub const GAP_TOP_MAX: i64 = SCREEN_HEIGHT - PIPE_GAP - GAP_TOP_MIN;

/// Solid radius of the ball used by collision checks (10 pixels).
pub const BALL_RADIUS: i64 = 10 * UNITS_PER_PIXEL;

/// The ball starts and restarts at a quarter of the screen width
/// (200 pixels).
pub const BALL_START_X: i64 = 200 * UNITS_PER_PIXEL;

/// The ball starts and restarts at half the screen height (300 pixels).
pub const BALL_START_Y: i64 = 300 * UNITS_PER_PIXEL;

/// Bound on the magnitude of every coordinate the simulation handles; far
/// above anything the game produces, yet small enough that each step is free
/// of `i64` overflow.
pub const COORD_LIMIT: i64 = 0x1000_0000_0000;

} // verus!
