//! The simulation context and the fixed-tick step: reset handling, paddle
//! and ball motion, collision resolution, scoring, and the win check, in the
//! per-tick order.

use vstd::prelude::*;
use crate::consts::{
    ANGLE_LIMIT, ARENA_HALF_WIDTH, BALL_SPEED, GOAL_MARGIN, GOAL_X, WALL_Y, WIN_SCORE, X_LIMIT,
    Y_LIMIT,
};
use crate::types::{ball_wf, dir_wf, paddle_wf, Ball, Collision, Dir, InputState, Paddle, Side};
use crate::paddle::{move_paddle, spec_move_paddle};
use crate::ball::move_ball;
use crate::collision::{collision, spec_collision_outcome, spec_reflect_angle, spec_wall_collision};

verus! {

/// The whole session state: both paddles, the ball, the single-slot reset
/// signal emitted by scoring and consumed at the start of the next tick, and
/// the termination flag.
#[derive(Clone, Copy, Debug, PartialEq, Eq, Structural)]
pub struct Sim {
    pub left: Paddle,
    pub right: Paddle,
    pub ball: Ball,
    pub pending_reset: bool,
    pub finished: bool,
}

/// What one tick reported: the transient collision outcome, which side (if
/// any) was awarded a point, and whether the session is over.
#[derive(Clone, Copy, Debug, PartialEq, Eq, Structural)]
pub struct TickEvents {
    pub collision: Option<Collision>,
    pub scored: Option<Side>,
    pub finished: bool,
}

/// The session invariant, preserved by every tick:
/// - ball and paddles are well formed;
/// - the paddles keep their sides;
/// - unless a reset is pending, the ball is still inside the goal lines;
/// - scores never pass the winning score, and the termination flag is set
///   exactly when a score equals it.
pub open spec fn sim_wf(s: Sim) -> bool {
    &&& ball_wf(s.ball)
    &&& paddle_wf(s.left)
    &&& paddle_wf(s.right)
    &&& s.left.side == Side::Left
    &&& s.right.side == Side::Right
    &&& s.pending_reset || (-GOAL_X < s.ball.x < GOAL_X)
    &&& s.left.score <= WIN_SCORE
    &&& s.right.score <= WIN_SCORE
    &&& s.finished == (s.left.score == WIN_SCORE || s.right.score == WIN_SCORE)
}

/// Which side a post-motion ball position awards a point to: crossing an
/// edge by half the ball radius scores, deliberately, for the side whose
/// label the edge carries — the right edge for `Right`, the left edge for
/// `Left` — not for the opponent as the usual convention would have it.
pub open spec fn spec_goal_side(x: int) -> Option<Side> {
    if x + GOAL_MARGIN >= ARENA_HALF_WIDTH {
        Some(Side::Right)
    } else if x - GOAL_MARGIN <= -ARENA_HALF_WIDTH {
        Some(Side::Left)
    } else {
        None
    }
}

/// Awards a point for the ball's current position, if it crossed a goal
/// line: that side's score grows by one and the reset signal is raised.
/// Everything else, the ball included, is untouched.
pub fn score(sim: &mut Sim) -> (scored: Option<Side>)
    requires
        -X_LIMIT <= old(sim).ball.x <= X_LIMIT,
        old(sim).left.score < 65535,
        old(sim).right.score < 65535,
    ensures
        scored == spec_goal_side(old(sim).ball.x as int),
        final(sim).ball == old(sim).ball,
        final(sim).finished == old(sim).finished,
        final(sim).left.side == old(sim).left.side,
        final(sim).right.side == old(sim).right.side,
        final(sim).left.y == old(sim).left.y,
        final(sim).right.y == old(sim).right.y,
        final(sim).left.score == old(sim).left.score
            + (if scored == Some(Side::Left) { 1int } else { 0int }),
        final(sim).right.score == old(sim).right.score
            + (if scored == Some(Side::Right) { 1int } else { 0int }),
        final(sim).pending_reset == (old(sim).pending_reset || scored is Some),
{
    let scored: Option<Side> = if sim.ball.x + GOAL_MARGIN >= ARENA_HALF_WIDTH {
        Some(Side::Right)
    } else if sim.ball.x - GOAL_MARGIN <= -ARENA_HALF_WIDTH {
        Some(Side::Left)
    } else {
        None
    };
    match scored {
        Some(Side::Right) => {
            sim.right.score = sim.right.score + 1;
            sim.pending_reset = true;
        },
        Some(Side::Left) => {
            sim.left.score = sim.left.score + 1;
            sim.pending_reset = true;
        },
        None => {},
    }
    scored
}

/// Consumes a pending reset signal: the ball returns to mid-field with zero
/// travel and the freshly served direction. Without a pending signal the
/// state is untouched.
pub fn reset_ball(sim: &mut Sim, serve: Dir)
    requires
        dir_wf(serve),
    ensures
        !old(sim).pending_reset ==> *final(sim) == *old(sim),
        old(sim).pending_reset ==> {
            &&& final(sim).ball == (Ball {
                x: 0i64,
                y: 0i64,
                origin_x: 0i64,
                origin_y: 0i64,
                dist: 0i64,
                dir: serve,
            })
            &&& final(sim).pending_reset == false
            &&& final(sim).left == old(sim).left
            &&& final(sim).right == old(sim).right
            &&& final(sim).finished == old(sim).finished
        },
        sim_wf(*old(sim)) ==> sim_wf(*final(sim)),
{
    if sim.pending_reset {
        sim.ball = Ball::at_center(serve);
        sim.pending_reset = false;
    }
}

/// The win check: the session terminates when a side's score equals the
/// winning score exactly (increments are by one, so it is never passed).
pub fn check_for_win(sim: &Sim) -> (w: bool)
    ensures
        w == (sim.left.score == WIN_SCORE || sim.right.score == WIN_SCORE),
{
    sim.left.score == WIN_SCORE || sim.right.score == WIN_SCORE
}

/// The full effect of one tick, phase by phase: a pending reset is consumed
/// first (using the served direction), both paddles move, the ball moves,
/// the collision decision list runs on the post-motion position, a crossed
/// goal line awards a point and raises the reset signal, and the win check
/// sets the termination flag.
pub open spec fn spec_tick_rel(
    pre: Sim,
    input: InputState,
    serve: Dir,
    post: Sim,
    ev: TickEvents,
) -> bool {
    let b0 = if pre.pending_reset {
        Ball { x: 0i64, y: 0i64, origin_x: 0i64, origin_y: 0i64, dist: 0i64, dir: serve }
    } else {
        pre.ball
    };
    let ly = spec_move_paddle(pre.left.y as int, input.left_up, input.left_down);
    let ry = spec_move_paddle(pre.right.y as int, input.right_up, input.right_down);
    let d1 = b0.dist + BALL_SPEED;
    let x1 = b0.origin_x + b0.dir.cos * d1;
    let y1 = b0.origin_y + b0.dir.sin * d1;
    let c = spec_collision_outcome(x1, y1, ly, ry);
    let g = spec_goal_side(x1);
    &&& post.left.side == Side::Left
    &&& post.right.side == Side::Right
    &&& post.left.y == ly
    &&& post.right.y == ry
    &&& post.ball.x == x1
    &&& post.ball.y == y1
    &&& match c {
        None => {
            &&& post.ball.origin_x == b0.origin_x
            &&& post.ball.origin_y == b0.origin_y
            &&& post.ball.dist == d1
            &&& post.ball.dir == b0.dir
        },
        Some(cc) => {
            &&& post.ball.origin_x == x1
            &&& post.ball.origin_y == y1
            &&& post.ball.dist == 0
            &&& post.ball.dir.angle == spec_reflect_angle(cc, b0.dir.angle as int)
            &&& match cc {
                Collision::Top | Collision::Bottom => post.ball.dir.cos == b0.dir.cos
                    && post.ball.dir.sin == -b0.dir.sin,
                Collision::Left | Collision::Right => post.ball.dir.cos == -b0.dir.cos
                    && post.ball.dir.sin == b0.dir.sin,
            }
        },
    }
    &&& post.left.score == pre.left.score + (if g == Some(Side::Left) { 1int } else { 0int })
    &&& post.right.score == pre.right.score + (if g == Some(Side::Right) { 1int } else { 0int })
    &&& post.pending_reset == (g is Some)
    &&& post.finished == (post.left.score == WIN_SCORE || post.right.score == WIN_SCORE)
    &&& ev.collision == c
    &&& ev.scored == g
    &&& ev.finished == post.finished
}

/// Between two bounces the ball can only cross the arena: a near-unit
/// direction whose scaled travel stays within the position bounds caps the
/// parametric distance itself.
proof fn lemma_travel_bound(cos: int, sin: int, d: int)
    requires
        -10_000 <= cos <= 10_000,
        -10_000 <= sin <= 10_000,
        cos * cos + sin * sin >= 99_970_000,
        d >= 0,
        -13_970_000 <= cos * d <= 13_970_000,
        -6_940_000 <= sin * d <= 6_940_000,
    ensures
        d <= 1_976,
{
    if cos >= 7_071 || cos <= -7_071 {
        assert(d <= 1_976) by (nonlinear_arith)
            requires
                (cos >= 7_071 || cos <= -7_071),
                d >= 0,
                -13_970_000 <= cos * d <= 13_970_000,
        ;
    } else {
        assert(sin >= 7_071 || sin <= -7_071) by (nonlinear_arith)
            requires
                -7_071 < cos < 7_071,
                -10_000 <= sin <= 10_000,
                cos * cos + sin * sin >= 99_970_000,
        ;
        assert(d <= 1_976) by (nonlinear_arith)
            requires
                (sin >= 7_071 || sin <= -7_071),
                d >= 0,
                -6_940_000 <= sin * d <= 6_940_000,
        ;
    }
}

impl Sim {
    /// A fresh session: paddles centered with no points, the ball at
    /// mid-field with the first serve.
    pub fn new(serve: Dir) -> (s: Sim)
        requires
            dir_wf(serve),
        ensures
            sim_wf(s),
            s.left == (Paddle { side: Side::Left, y: 0i64, score: 0u16 }),
            s.right == (Paddle { side: Side::Right, y: 0i64, score: 0u16 }),
            s.ball == (Ball {
                x: 0i64,
                y: 0i64,
                origin_x: 0i64,
                origin_y: 0i64,
                dist: 0i64,
                dir: serve,
            }),
            !s.pending_reset,
            !s.finished,
    {
        Sim {
            left: Paddle::at_start(Side::Left),
            right: Paddle::at_start(Side::Right),
            ball: Ball::at_center(serve),
            pending_reset: false,
            finished: false,
        }
    }

    /// One fixed time step. `serve` is the direction a pending reset serves
    /// with; it is drawn fresh by the host each tick and unused when no
    /// reset is pending. The angle bounds are bookkeeping room: the raw
    /// angle, never normalized, grows by at most two pi per bounce and must
    /// stay clear of the 64-bit edge.
    pub fn tick(&mut self, input: &InputState, serve: Dir) -> (ev: TickEvents)
        requires
            sim_wf(*old(self)),
            !old(self).finished,
            dir_wf(serve),
            -ANGLE_LIMIT <= old(self).ball.dir.angle <= ANGLE_LIMIT,
            -ANGLE_LIMIT <= serve.angle <= ANGLE_LIMIT,
        ensures
            sim_wf(*final(self)),
            spec_tick_rel(*old(self), *input, serve, *final(self), ev),
            ev.finished == final(self).finished,
            final(self).left.score >= old(self).left.score,
            final(self).right.score >= old(self).right.score,
    {
        reset_ball(self, serve);
        let ghost s1 = *self;
        move_paddle(&mut self.left, input);
        move_paddle(&mut self.right, input);
        move_ball(&mut self.ball);

        let ghost c0 = s1.ball.dir.cos as int;
        let ghost sn0 = s1.ball.dir.sin as int;
        let ghost d0 = s1.ball.dist as int;
        let ghost x0 = s1.ball.x as int;
        let ghost y0 = s1.ball.y as int;
        proof {
            assert(c0 * (d0 + 6) == c0 * d0 + 6 * c0) by (nonlinear_arith);
            assert(sn0 * (d0 + 6) == sn0 * d0 + 6 * sn0) by (nonlinear_arith);
            assert(self.ball.x == x0 + 6 * c0);
            assert(self.ball.y == y0 + 6 * sn0);
            assert(-X_LIMIT <= self.ball.x <= X_LIMIT);
            assert(-Y_LIMIT <= self.ball.y <= Y_LIMIT);
        }
        let ghost x1 = self.ball.x as int;
        let ghost y1 = self.ball.y as int;

        let c = collision(&mut self.ball, &self.left, &self.right);
        proof {
            if c is None {
                assert(x1 - s1.ball.origin_x == c0 * (d0 + 6));
                assert(y1 - s1.ball.origin_y == sn0 * (d0 + 6));
                lemma_travel_bound(c0, sn0, d0 + 6);
            } else {
                assert(self.ball.dir.cos * self.ball.dist == 0) by (nonlinear_arith)
                    requires self.ball.dist == 0,
                ;
                assert(self.ball.dir.sin * self.ball.dist == 0) by (nonlinear_arith)
                    requires self.ball.dist == 0,
                ;
            }
            // The vertical bound still holds one step ahead: a wall or
            // corner bounce turns the ball back to where it came from, and
            // anything else stays below the wall band.
            match c {
                Some(Collision::Top) | Some(Collision::Bottom) => {
                    assert(y1 + 6 * (self.ball.dir.sin as int) == y0);
                },
                _ => {
                    assert(spec_wall_collision(y1) is None);
                    assert(-WALL_Y < y1 < WALL_Y);
                },
            }
        }

        let g = score(self);
        let w = check_for_win(self);
        self.finished = w;

        TickEvents { collision: c, scored: g, finished: w }
    }
}

} // verus!
