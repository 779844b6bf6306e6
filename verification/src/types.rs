//! Entity state: the two paddles, the ball and its direction, the per-tick
//! key snapshot, and the transient collision outcome.

use vstd::prelude::*;
use crate::consts::{
    ARENA_HALF_HEIGHT, BALL_SPEED, DIST_MAX, NORM_MIN, PADDLE_HALF_LENGTH, PADDLE_SPEED, PADDLE_X,
    TRIG_ONE, X_LIMIT, Y_LIMIT,
};

verus! {

/// One of the two players, also labelling that player's goal line.
#[derive(Clone, Copy, Debug, PartialEq, Eq, Structural)]
pub enum Side {
    Left,
    Right,
}

/// What the ball hit this tick. `Top` and `Bottom` cover both the arena
/// walls and the matching paddle edges; `Left` and `Right` are paddle faces.
#[derive(Clone, Copy, Debug, PartialEq, Eq, Structural)]
pub enum Collision {
    Left,
    Right,
    Top,
    Bottom,
}

/// Key-down state of the four logical keys for one tick.
#[derive(Clone, Copy, Debug, PartialEq, Eq, Structural)]
pub struct InputState {
    pub left_up: bool,
    pub left_down: bool,
    pub right_up: bool,
    pub right_down: bool,
}

/// A travel direction: the raw angle in microradians, counterclockwise from
/// the positive x axis, and its cosine and sine scaled by [`TRIG_ONE`].
///
/// The angle is bookkeeping that reflections rewrite exactly; only the two
/// components move the ball. The host computes both components once when a
/// direction is born; [`Dir::new`] checks that they form a near-unit vector.
#[derive(Clone, Copy, Debug, PartialEq, Eq, Structural)]
pub struct Dir {
    pub angle: i64,
    pub cos: i64,
    pub sin: i64,
}

/// A direction's components lie in `[-TRIG_ONE, TRIG_ONE]` and form a
/// near-unit vector. Everything the simulation proves about ball travel
/// rests on this shape.
pub open spec fn dir_wf(d: Dir) -> bool {
    &&& -TRIG_ONE <= d.cos <= TRIG_ONE
    &&& -TRIG_ONE <= d.sin <= TRIG_ONE
    &&& d.cos * d.cos + d.sin * d.sin >= NORM_MIN
}

impl Dir {
    /// Checks the candidate components and builds a direction only from a
    /// near-unit vector, so a host cannot hand the simulation a degenerate
    /// direction.
    pub fn new(angle: i64, cos: i64, sin: i64) -> (r: Option<Dir>)
        ensures
            match r {
                Some(d) => d == (Dir { angle, cos, sin }) && dir_wf(d),
                None => !dir_wf(Dir { angle, cos, sin }),
            },
    {
        if -TRIG_ONE <= cos && cos <= TRIG_ONE && -TRIG_ONE <= sin && sin <= TRIG_ONE {
            proof {
                assert(0 <= cos * cos <= 100_000_000) by (nonlinear_arith)
                    requires -10_000 <= cos <= 10_000;
                assert(0 <= sin * sin <= 100_000_000) by (nonlinear_arith)
                    requires -10_000 <= sin <= 10_000;
            }
            if cos * cos + sin * sin >= NORM_MIN {
                return Some(Dir { angle, cos, sin });
            }
        }
        None
    }
}

/// The ball: current position, the origin recorded at the last bounce or
/// reset, the distance travelled since then (in arena units), and the
/// direction. Positions are in fine units.
#[derive(Clone, Copy, Debug, PartialEq, Eq, Structural)]
pub struct Ball {
    pub x: i64,
    pub y: i64,
    pub origin_x: i64,
    pub origin_y: i64,
    pub dist: i64,
    pub dir: Dir,
}

/// The ball's standing invariant:
/// - the direction is a near-unit vector;
/// - the position equals `origin + dist * (cos, sin)` exactly;
/// - the distance since the last bounce never exceeds the arena span;
/// - position and origin stay within one step of the goal lines and walls;
/// - the next motion step also lands within the vertical bound (a ball in
///   the wall band has already been turned around).
pub open spec fn ball_wf(b: Ball) -> bool {
    &&& dir_wf(b.dir)
    &&& 0 <= b.dist <= DIST_MAX
    &&& b.x == b.origin_x + b.dir.cos * b.dist
    &&& b.y == b.origin_y + b.dir.sin * b.dist
    &&& -X_LIMIT <= b.origin_x <= X_LIMIT
    &&& -Y_LIMIT <= b.origin_y <= Y_LIMIT
    &&& -X_LIMIT <= b.x <= X_LIMIT
    &&& -Y_LIMIT <= b.y <= Y_LIMIT
    &&& -Y_LIMIT <= b.y + b.dir.sin * BALL_SPEED <= Y_LIMIT
}

impl Ball {
    /// A ball at mid-field with a fresh direction: the state after setup and
    /// after every reset.
    pub fn at_center(dir: Dir) -> (b: Ball)
        requires
            dir_wf(dir),
        ensures
            b == (Ball { x: 0i64, y: 0i64, origin_x: 0i64, origin_y: 0i64, dist: 0i64, dir }),
            ball_wf(b),
    {
        Ball { x: 0, y: 0, origin_x: 0, origin_y: 0, dist: 0, dir }
    }
}

/// A paddle: its side (which fixes its x position at `-PADDLE_X` or
/// `PADDLE_X`), its vertical center in fine units, and its score.
#[derive(Clone, Copy, Debug, PartialEq, Eq, Structural)]
pub struct Paddle {
    pub side: Side,
    pub y: i64,
    pub score: u16,
}

/// The paddle never strays more than one corrective step past the arena:
/// `|y| + PADDLE_HALF_LENGTH <= ARENA_HALF_HEIGHT + PADDLE_SPEED`.
pub open spec fn paddle_wf(p: Paddle) -> bool {
    &&& -(ARENA_HALF_HEIGHT + PADDLE_SPEED - PADDLE_HALF_LENGTH) <= p.y
    &&& p.y <= ARENA_HALF_HEIGHT + PADDLE_SPEED - PADDLE_HALF_LENGTH
}

impl Paddle {
    /// A paddle at mid-height with no points, as at session start.
    pub fn at_start(side: Side) -> (p: Paddle)
        ensures
            p == (Paddle { side, y: 0i64, score: 0u16 }),
            paddle_wf(p),
    {
        Paddle { side, y: 0, score: 0 }
    }

    /// The paddle's fixed horizontal center.
    pub fn center_x(&self) -> (x: i64)
        ensures
            x == spec_paddle_x(self.side),
    {
        match self.side {
            Side::Left => -PADDLE_X,
            Side::Right => PADDLE_X,
        }
    }
}

/// Horizontal center of the paddle on a given side.
pub open spec fn spec_paddle_x(side: Side) -> int {
    match side {
        Side::Left => -PADDLE_X as int,
        Side::Right => PADDLE_X as int,
    }
}

} // verus!
