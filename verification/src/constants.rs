//! World geometry and simulation limits.
//!
//! Distances are in milli-units (one thousandth of a world unit), speeds in
//! milli-units per second, durations in microseconds.

use vstd::prelude::*;

verus! {

/// Microseconds per second; the divisor of every motion integration step.
pub const MICROS_PER_SEC: u64 = 1_000_000;

pub const WORLD_WIDTH: i64 = 480_000;
pub const WORLD_HEIGHT: i64 = 640_000;

/// The camera shows the world scaled by 0.6 (per-mille: 600).
pub const CAMERA_SCALE_MILLI: i64 = 600;

pub const LEFT_WALL: i64 = -240_000;
pub const RIGHT_WALL: i64 = 240_000;

/// (WORLD_HEIGHT / 2) * 0.6 - 20.5 world units.
pub const UPPER_BOUND: i64 = 171_500;
/// -(WORLD_HEIGHT / 2) * 0.6 + 20.5 world units.
pub const LOWER_BOUND: i64 = -171_500;

/// -WORLD_WIDTH / 4.5 world units, rounded away from zero.
pub const BONUS_STAGE_INTRO_RIGHT_BOUNDARY: i64 = -106_667;

/// -WORLD_WIDTH / 3.5 world units, rounded away from zero.
pub const BONUS_STAGE_SPAWN_POS_X: i64 = -137_143;
pub const BONUS_STAGE_SPAWN_POS_Y: i64 = -28_000;

/// Ambient falling speed of the scrolling scenery and of a shuriken pinned
/// against a side wall.
pub const FALLING_SPEED: i64 = 600_000;

/// An entity whose y coordinate leaves this band is despawned.
pub const DESPAWN_MARGIN: i64 = 100_000;

/// Greatest coordinate the simulation keeps; integration saturates here,
/// far outside the playfield, so positions never overflow.
pub const COORD_LIMIT: i64 = 1_000_000_000;

/// Greatest speed the simulation keeps; gravity saturates here.
pub const SPEED_LIMIT: i64 = 100_000_000;

/// Longest frame delta a single tick accepts (ten seconds).
pub const DELTA_LIMIT: u64 = 10_000_000;

/// Longest duration a timer accepts (about eleven days).
pub const DURATION_LIMIT: u64 = 1_000_000_000_000;

/// Widest sprite extent (dimensions, hit boxes) the simulation keeps.
pub const EXTENT_LIMIT: i64 = 10_000_000;

/// Greatest sprite scale factor, in per-mille of the natural size.
pub const SCALE_LIMIT: i64 = 10_000;

} // verus!
