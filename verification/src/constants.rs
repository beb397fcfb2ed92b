//! Tuning constants of the locomotion core.
//!
//! Lengths are in milli-units (one thousandth of a world unit), times in
//! milliseconds. Expressed in whole units the values are: gravity -9 per
//! frame, side movement 5 per frame, jump power 25 per second of remaining
//! jump time, dash power 10 per frame.

use vstd::prelude::*;

verus! {

/// Vertical contribution of gravity to the pending movement, added once per
/// frame while neither dashing nor climbing (milli-units; -9 units).
pub const GRAVITY: i64 = -9000;

/// Horizontal contribution of a held move key, added once per frame while not
/// dashing (milli-units; 5 units).
pub const SIDE_MOVE_SPEED: i64 = 5000;

/// Duration of a fresh jump timer.
pub const JUMP_DURATION_MS: u64 = 750;

/// Lift contributed per millisecond of remaining jump time (milli-units), so
/// the lift decays linearly to zero as the timer drains. Equals a jump power
/// of 25 units per second of remaining time.
pub const JUMP_POWER_PER_MS: i64 = 25;

/// Duration of a fresh dash timer.
pub const DASH_DURATION_MS: u64 = 300;

/// Per-frame dash impulse along an orthogonal direction (milli-units;
/// 10 units).
pub const DASH_POWER: i64 = 10000;

/// Per-axis per-frame dash impulse for the four diagonal directions: the
/// nearest whole milli-unit to DASH_POWER divided by the square root of two,
/// so the resultant magnitude of a diagonal dash matches an orthogonal one.
pub const DASH_POWER_DIAGONAL: i64 = 7071;

/// When the head hits a ceiling, an active jump with more remaining time than
/// this is truncated to this remaining duration: the time gravity needs to
/// cancel the current lift, (-GRAVITY) / JUMP_POWER seconds, here 9/25 s.
pub const JUMP_ENDING_DURATION_MS: u64 = 360;

/// Bound on the positions and half-extents the pipeline accepts
/// (milli-units). Keeps every intermediate sum of the collision arithmetic
/// far inside the i64 range.
pub const COORD_LIMIT: i64 = 1_000_000_000_000;

/// Bound on a pending movement vector the collision resolver accepts
/// (milli-units). Any clamp the resolver writes stays within this bound,
/// since a clamp moves the player at most to the far face of an obstacle.
pub const MOVE_LIMIT: i64 = 5_000_000_000_000;

} // verus!
