//! Collision resolution: the per-tick ordered decision list over the ball's
//! post-motion position, and the angle reflection applied on a hit.

use vstd::prelude::*;
use crate::consts::{
    ANGLE_LIMIT, ARENA_HALF_HEIGHT, BALL_RADIUS, CORNER_BAND, PADDLE_HALF_LENGTH,
    PADDLE_HALF_WIDTH, PADDLE_X, PI_ANGLE, TWO_PI_ANGLE, X_LIMIT, Y_LIMIT,
};
use crate::types::{dir_wf, paddle_wf, spec_paddle_x, Ball, Collision, Paddle, Side};

verus! {

/// First two entries of the decision list: the top wall, then the bottom
/// wall, each tested with the full ball radius.
pub open spec fn spec_wall_collision(y: int) -> Option<Collision> {
    if y + BALL_RADIUS >= ARENA_HALF_HEIGHT {
        Some(Collision::Top)
    } else if y - BALL_RADIUS <= -ARENA_HALF_HEIGHT {
        Some(Collision::Bottom)
    } else {
        None
    }
}

/// The early-exit test: the ball has crossed beyond this paddle's far edge
/// on the x axis, so the scan stops for the rest of the tick.
pub open spec fn spec_past_paddle(x: int, side: Side) -> bool {
    match side {
        Side::Right => x + BALL_RADIUS >= spec_paddle_x(side) + PADDLE_HALF_WIDTH,
        Side::Left => x - BALL_RADIUS <= spec_paddle_x(side) - PADDLE_HALF_WIDTH,
    }
}

/// Side-face check against one paddle: the ball's span overlaps the paddle's
/// y span and has crossed the near x edge. A miss leaves the outcome found
/// so far in place.
pub open spec fn spec_face_collision(
    x: int,
    y: int,
    paddle_y: int,
    side: Side,
    cur: Option<Collision>,
) -> Option<Collision> {
    if y - BALL_RADIUS <= paddle_y + PADDLE_HALF_LENGTH
        && y + BALL_RADIUS >= paddle_y - PADDLE_HALF_LENGTH {
        match side {
            Side::Right => if x + BALL_RADIUS >= spec_paddle_x(side) - PADDLE_HALF_WIDTH {
                Some(Collision::Right)
            } else {
                cur
            },
            Side::Left => if x - BALL_RADIUS <= spec_paddle_x(side) + PADDLE_HALF_WIDTH {
                Some(Collision::Left)
            } else {
                cur
            },
        }
    } else {
        cur
    }
}

/// Corner check against one paddle: when the ball's x span overlaps the
/// paddle's and the ball's lower edge sits within [`CORNER_BAND`] of the
/// paddle's top (or the symmetric test at the bottom), the hit counts as a
/// top/bottom bounce, overriding a side-face outcome. The top test compares
/// the ball's lower edge on both bounds, as the decision list has it.
pub open spec fn spec_corner_collision(
    x: int,
    y: int,
    paddle_y: int,
    side: Side,
    cur: Option<Collision>,
) -> Option<Collision> {
    if x + BALL_RADIUS >= spec_paddle_x(side) - PADDLE_HALF_WIDTH
        && x - BALL_RADIUS <= spec_paddle_x(side) + PADDLE_HALF_WIDTH {
        if y - BALL_RADIUS <= paddle_y + PADDLE_HALF_LENGTH
            && y - BALL_RADIUS >= paddle_y + PADDLE_HALF_LENGTH - CORNER_BAND {
            Some(Collision::Top)
        } else if y + BALL_RADIUS >= paddle_y - PADDLE_HALF_LENGTH
            && y - BALL_RADIUS <= paddle_y - PADDLE_HALF_LENGTH + CORNER_BAND {
            Some(Collision::Bottom)
        } else {
            cur
        }
    } else {
        cur
    }
}

/// One paddle's scan: the side faces first, then the corner bands, a later
/// match overriding an earlier one.
pub open spec fn spec_scan_paddle(
    x: int,
    y: int,
    paddle_y: int,
    side: Side,
    cur: Option<Collision>,
) -> Option<Collision> {
    spec_corner_collision(x, y, paddle_y, side, spec_face_collision(x, y, paddle_y, side, cur))
}

/// The whole decision list of one tick: walls first; otherwise the paddles
/// in scan order, left before right. The early exit is deliberate: once the
/// ball is past one paddle's far edge, every remaining paddle is skipped for
/// that tick — so a ball past the left paddle's boundary is never tested
/// against the right paddle either.
pub open spec fn spec_collision_outcome(x: int, y: int, left_y: int, right_y: int)
    -> Option<Collision> {
    match spec_wall_collision(y) {
        Some(c) => Some(c),
        None => if spec_past_paddle(x, Side::Left) {
            None
        } else {
            let after_left = spec_scan_paddle(x, y, left_y, Side::Left, None);
            if spec_past_paddle(x, Side::Right) {
                after_left
            } else {
                spec_scan_paddle(x, y, right_y, Side::Right, after_left)
            }
        },
    }
}

/// Reflection at a top or bottom surface: the direction angle `a` becomes
/// `2*pi - a`, on the raw, never-normalized angle.
pub open spec fn spec_reflect_wall(a: int) -> int {
    TWO_PI_ANGLE - a
}

/// Reflection at a paddle face: the direction angle `a` becomes `pi - a`.
pub open spec fn spec_reflect_face(a: int) -> int {
    PI_ANGLE - a
}

/// The reflected angle for each collision kind.
pub open spec fn spec_reflect_angle(c: Collision, a: int) -> int {
    match c {
        Collision::Top => spec_reflect_wall(a),
        Collision::Bottom => spec_reflect_wall(a),
        Collision::Left => spec_reflect_face(a),
        Collision::Right => spec_reflect_face(a),
    }
}

/// Law: the top/bottom reflection is an involution. Applying `a -> 2*pi - a`
/// twice returns the original direction exactly — and so in particular
/// modulo a full turn. On the components it only flips the sine, so a double
/// wall bounce restores the direction completely.
pub proof fn lemma_wall_reflection_involutive(a: int)
    ensures
        spec_reflect_wall(spec_reflect_wall(a)) == a,
{
}

/// Law: the paddle-face reflection `a -> pi - a` is an involution as well;
/// on the components it only flips the cosine.
pub proof fn lemma_face_reflection_involutive(a: int)
    ensures
        spec_reflect_face(spec_reflect_face(a)) == a,
{
}

/// Resolves collisions for one tick, on the ball's post-motion position.
///
/// Returns the transient outcome of the decision list. On a hit the
/// direction is reflected — the angle by the exact `2*pi - a` or `pi - a`
/// identity, the components by the matching single sign flip — and the
/// bounce origin is reset to the current position with distance zero. On a
/// miss the ball is untouched.
pub fn collision(ball: &mut Ball, left: &Paddle, right: &Paddle) -> (c: Option<Collision>)
    requires
        left.side == Side::Left,
        right.side == Side::Right,
        paddle_wf(*left),
        paddle_wf(*right),
        dir_wf(old(ball).dir),
        -X_LIMIT <= old(ball).x <= X_LIMIT,
        -Y_LIMIT <= old(ball).y <= Y_LIMIT,
        -ANGLE_LIMIT <= old(ball).dir.angle <= ANGLE_LIMIT,
    ensures
        c == spec_collision_outcome(
            old(ball).x as int,
            old(ball).y as int,
            left.y as int,
            right.y as int,
        ),
        final(ball).x == old(ball).x,
        final(ball).y == old(ball).y,
        dir_wf(final(ball).dir),
        match c {
            None => *final(ball) == *old(ball),
            Some(cc) => {
                &&& final(ball).origin_x == old(ball).x
                &&& final(ball).origin_y == old(ball).y
                &&& final(ball).dist == 0
                &&& final(ball).dir.angle == spec_reflect_angle(cc, old(ball).dir.angle as int)
                &&& match cc {
                    Collision::Top | Collision::Bottom => final(ball).dir.cos == old(ball).dir.cos
                        && final(ball).dir.sin == -old(ball).dir.sin,
                    Collision::Left | Collision::Right => final(ball).dir.cos
                        == -old(ball).dir.cos && final(ball).dir.sin == old(ball).dir.sin,
                }
            },
        },
{
    let x = ball.x;
    let y = ball.y;
    let mut coll: Option<Collision> = None;

    if y + BALL_RADIUS >= ARENA_HALF_HEIGHT {
        coll = Some(Collision::Top);
    } else if y - BALL_RADIUS <= -ARENA_HALF_HEIGHT {
        coll = Some(Collision::Bottom);
    } else {
        // Paddle scan in order, left then right, with the early exit once
        // the ball is confirmed past a paddle's far edge.
        if x - BALL_RADIUS <= -(PADDLE_X) - PADDLE_HALF_WIDTH {
            // past the left paddle: stop scanning entirely this tick
        } else {
            coll = scan_paddle(x, y, left, coll);
            if x + BALL_RADIUS >= PADDLE_X + PADDLE_HALF_WIDTH {
                // past the right paddle: stop here
            } else {
                coll = scan_paddle(x, y, right, coll);
            }
        }
    }

    if let Some(cc) = coll {
        match cc {
            Collision::Top | Collision::Bottom => {
                let ghost s0 = ball.dir.sin;
                ball.dir.angle = TWO_PI_ANGLE - ball.dir.angle;
                ball.dir.sin = -ball.dir.sin;
                proof {
                    assert(ball.dir.sin * ball.dir.sin == s0 * s0) by (nonlinear_arith)
                        requires ball.dir.sin == -s0,
                    ;
                }
            },
            Collision::Left | Collision::Right => {
                let ghost c0 = ball.dir.cos;
                ball.dir.angle = PI_ANGLE - ball.dir.angle;
                ball.dir.cos = -ball.dir.cos;
                proof {
                    assert(ball.dir.cos * ball.dir.cos == c0 * c0) by (nonlinear_arith)
                        requires ball.dir.cos == -c0,
                    ;
                }
            },
        }
        ball.origin_x = ball.x;
        ball.origin_y = ball.y;
        ball.dist = 0;
    }
    coll
}

/// One paddle's scan step, side faces then corner bands.
fn scan_paddle(x: i64, y: i64, paddle: &Paddle, cur: Option<Collision>) -> (r: Option<Collision>)
    requires
        paddle_wf(*paddle),
        -X_LIMIT <= x <= X_LIMIT,
        -Y_LIMIT <= y <= Y_LIMIT,
    ensures
        r == spec_scan_paddle(x as int, y as int, paddle.y as int, paddle.side, cur),
{
    let px = paddle.center_x();
    let mut r = cur;

    // Side faces: y spans overlap and the near x edge is crossed.
    if y - BALL_RADIUS <= paddle.y + PADDLE_HALF_LENGTH
        && y + BALL_RADIUS >= paddle.y - PADDLE_HALF_LENGTH {
        match paddle.side {
            Side::Right => {
                if x + BALL_RADIUS >= px - PADDLE_HALF_WIDTH {
                    r = Some(Collision::Right);
                }
            },
            Side::Left => {
                if x - BALL_RADIUS <= px + PADDLE_HALF_WIDTH {
                    r = Some(Collision::Left);
                }
            },
        }
    }

    // Corner bands: x spans overlap and the ball edge sits within the band
    // at the paddle's top or bottom.
    if x + BALL_RADIUS >= px - PADDLE_HALF_WIDTH && x - BALL_RADIUS <= px + PADDLE_HALF_WIDTH {
        if y - BALL_RADIUS <= paddle.y + PADDLE_HALF_LENGTH
            && y - BALL_RADIUS >= paddle.y + PADDLE_HALF_LENGTH - CORNER_BAND {
            r = Some(Collision::Top);
        } else if y + BALL_RADIUS >= paddle.y - PADDLE_HALF_LENGTH
            && y - BALL_RADIUS <= paddle.y - PADDLE_HALF_LENGTH + CORNER_BAND {
            r = Some(Collision::Bottom);
        }
    }
    r
}

} // verus!
