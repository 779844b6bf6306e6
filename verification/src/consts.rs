//! Arena, paddle, ball and angle constants, in the crate's fixed-point units.
//!
//! One arena unit is 10000 fine units; positions, lengths and speeds below
//! are in fine units unless noted. Angles are in microradians.

use vstd::prelude::*;

verus! {

/// Scale of the direction's cosine and sine: a unit vector component lies in
/// `[-TRIG_ONE, TRIG_ONE]`. It equals the number of fine units per arena
/// unit, so `cos * dist` (distance in arena units) is a length in fine units.
pub const TRIG_ONE: i64 = 10_000;

/// Half the arena width (700 arena units).
pub const ARENA_HALF_WIDTH: i64 = 7_000_000;

/// Half the arena height (350 arena units).
pub const ARENA_HALF_HEIGHT: i64 = 3_500_000;

/// Half a paddle's vertical extent (50 arena units).
pub const PADDLE_HALF_LENGTH: i64 = 500_000;

/// Half a paddle's horizontal extent (10 arena units).
pub const PADDLE_HALF_WIDTH: i64 = 100_000;

/// Vertical paddle movement per tick (5 arena units).
pub const PADDLE_SPEED: i64 = 50_000;

/// Horizontal distance of each paddle's center from mid-field (600 arena
/// units): the left paddle sits at `-PADDLE_X`, the right one at `PADDLE_X`.
pub const PADDLE_X: i64 = 6_000_000;

/// Ball radius (15 arena units).
pub const BALL_RADIUS: i64 = 150_000;

/// Ball travel per tick, in whole arena units (not fine units): the distance
/// since the last bounce grows by this amount each tick.
pub const BALL_SPEED: i64 = 6;

/// Half the ball radius: the goal lines test `x +/- BALL_RADIUS / 2` against
/// the arena edge.
pub const GOAL_MARGIN: i64 = 75_000;

/// Half of (ball speed + paddle speed), the thickness of the band at a
/// paddle's top or bottom edge inside which a clipped corner counts as a
/// top/bottom bounce rather than a side bounce (5.5 arena units).
pub const CORNER_BAND: i64 = 55_000;

/// A side wins the session when its score equals this exactly.
pub const WIN_SCORE: u16 = 10;

/// Microradians per radian.
pub const ANGLE_ONE: i64 = 1_000_000;

/// Pi in microradians, rounded to the nearest integer.
pub const PI_ANGLE: i64 = 3_141_593;

/// Two pi in microradians; a top or bottom bounce maps a direction `a` to
/// `TWO_PI_ANGLE - a`.
pub const TWO_PI_ANGLE: i64 = 2 * PI_ANGLE;

/// Pi/3 in microradians: a serve toward the left paddle starts in
/// `[-THIRD_PI_ANGLE, THIRD_PI_ANGLE)`.
pub const THIRD_PI_ANGLE: i64 = 1_047_198;

/// 2*pi/3 in microradians: lower end of the right-serve range.
pub const TWO_THIRDS_PI_ANGLE: i64 = 2_094_395;

/// 4*pi/3 in microradians: upper end of the right-serve range.
pub const FOUR_THIRDS_PI_ANGLE: i64 = 4_188_790;

/// 0.1 radian in microradians: a freshly served direction within this band
/// of straight-right (left serve) or straight-left (right serve) is redrawn,
/// so a serve never crawls along the horizontal.
pub const SERVE_BAND: i64 = 100_000;

/// Redraws allowed when a serve keeps landing in the excluded band before
/// the generator settles on the nearest admissible angle. A draw lands in
/// the band with probability below a tenth, so the fallback is unreachable
/// in practice.
pub const REDRAW_LIMIT: u64 = 10_000;

/// A goal line in ball terms: scoring triggers once `|x| >= GOAL_X`.
pub const GOAL_X: i64 = ARENA_HALF_WIDTH - GOAL_MARGIN;

/// A wall in ball terms: a top/bottom bounce triggers once `|y| >= WALL_Y`.
pub const WALL_Y: i64 = ARENA_HALF_HEIGHT - BALL_RADIUS;

/// Largest change of a ball coordinate in one tick, in fine units.
pub const STEP: i64 = TRIG_ONE * BALL_SPEED;

/// Bound on `|x|` of the ball and of the bounce origin: one tick past a goal
/// line, where the reset event fires.
pub const X_LIMIT: i64 = GOAL_X + STEP;

/// Bound on `|y|` of the ball and of the bounce origin: a ball entering the
/// wall band moves at most one further step up before the reflection turns
/// it around.
pub const Y_LIMIT: i64 = WALL_Y + 2 * STEP;

/// Bound on the distance since the last bounce, in arena units. The direction
/// is a near-unit vector, so between bounces the ball crosses at most the
/// arena span; 2000 units leaves room to spare.
pub const DIST_MAX: i64 = 2_000;

/// Lower bound on `cos*cos + sin*sin` of a direction: a rounded unit vector
/// misses `TRIG_ONE^2` by less than `3 * TRIG_ONE`.
pub const NORM_MIN: i64 = TRIG_ONE * TRIG_ONE - 3 * TRIG_ONE;

/// Bound on the raw angle accepted by a tick. The angle is bookkeeping (only
/// its cosine and sine move the ball) and is never normalized, so it can grow
/// by up to two pi per bounce; half of `i64::MAX` keeps every reflection free
/// of overflow for longer than any session lasts.
pub const ANGLE_LIMIT: i64 = 4_611_686_018_427_387_903;

} // verus!
