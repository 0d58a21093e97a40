//! Fixed constants of the game.  Lengths and speeds are measured in
//! hundredths of a pixel (one pixel = `UNIT` units), so that the speed
//! steps of a twentieth of a pixel per tick are exact integers.

use vstd::prelude::*;

verus! {

/// Fixed-point units per pixel.
pub const UNIT: i64 = 100;

/// Field width, in units (1024 pixels).
pub const FIELD_W: i64 = 102400;

/// Field height, in units (768 pixels).
pub const FIELD_H: i64 = 76800;

/// Half the field width: the x coordinate of the right edge.
pub const HALF_W: i64 = 51200;

/// Half the field height: the y coordinate of the top edge.
pub const HALF_H: i64 = 38400;

/// The goal mouth spans y strictly between `-GOAL_HALF_HEIGHT` and
/// `GOAL_HALF_HEIGHT` at both x edges (100 pixels).
pub const GOAL_HALF_HEIGHT: i64 = 10000;

/// Radius of each player paddle (25 pixels).
pub const PLAYER_RADIUS: i64 = 2500;

/// Radius of the ball (10 pixels).
pub const BALL_RADIUS: i64 = 1000;

/// Radius of the four corner posts flanking the goal mouths (10 pixels).
pub const CORNER_RADIUS: i64 = 1000;

/// Largest speed, per axis, that the velocity controller hands out
/// (3 pixels per tick).
pub const MAX_SPEED: i64 = 300;

/// Speed added per tick, per axis, while a directional input is active
/// (a tenth of a pixel per tick).
pub const ACCEL_STEP: i64 = 10;

/// Speed removed per tick, per axis, when damping applies
/// (a twentieth of a pixel per tick).
pub const DAMP_STEP: i64 = 5;

/// Speed of a kick, directed from the kicking player towards the ball
/// (5 pixels per tick).
pub const KICK_SPEED: i64 = 500;

/// A match ends, and the score resets, when either side reaches this many
/// goals.
pub const WIN_SCORE: i32 = 3;

/// Kickoff x coordinate of the red player (-200 pixels).
pub const KICKOFF_RED_X: i64 = -20000;

/// Kickoff x coordinate of the blue player (200 pixels).
pub const KICKOFF_BLUE_X: i64 = 20000;

/// Bound on position coordinates accepted by a tick; far outside the field,
/// it exists only so that the fixed-width arithmetic cannot overflow.
pub const POS_LIMIT: i64 = 100000000;

/// Bound on velocity components accepted by a tick; far above any speed the
/// rules produce, it exists only so that the fixed-width arithmetic cannot
/// overflow.
pub const VEL_LIMIT: i64 = 1000000;

} // verus!
