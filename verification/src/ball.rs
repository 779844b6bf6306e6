//! Ball motion: advance the parametric distance from the last bounce and
//! recompute the position from the bounce origin.

use vstd::prelude::*;
use crate::consts::{BALL_SPEED, DIST_MAX, TRIG_ONE, X_LIMIT, Y_LIMIT};
use crate::types::{dir_wf, Ball};

verus! {

/// Moves the ball for one tick.
///
/// The distance since the last bounce grows by [`BALL_SPEED`] and the
/// position is recomputed from the origin — `pos = origin + dist * (cos,
/// sin)`, exactly — rather than integrated incrementally, so a bounce can
/// reset the origin without accumulated drift. The two position clauses are
/// that identity.
pub fn move_ball(b: &mut Ball)
    requires
        dir_wf(old(b).dir),
        0 <= old(b).dist <= DIST_MAX,
        -X_LIMIT <= old(b).origin_x <= X_LIMIT,
        -Y_LIMIT <= old(b).origin_y <= Y_LIMIT,
    ensures
        final(b).dist == old(b).dist + BALL_SPEED,
        final(b).x == old(b).origin_x + old(b).dir.cos * final(b).dist,
        final(b).y == old(b).origin_y + old(b).dir.sin * final(b).dist,
        final(b).origin_x == old(b).origin_x,
        final(b).origin_y == old(b).origin_y,
        final(b).dir == old(b).dir,
{
    b.dist = b.dist + BALL_SPEED;
    proof {
        assert(-20_060_000 <= b.dir.cos * b.dist <= 20_060_000) by (nonlinear_arith)
            requires
                -10_000 <= b.dir.cos <= 10_000,
                0 <= b.dist <= 2_006,
        ;
        assert(-20_060_000 <= b.dir.sin * b.dist <= 20_060_000) by (nonlinear_arith)
            requires
                -10_000 <= b.dir.sin <= 10_000,
                0 <= b.dist <= 2_006,
        ;
    }
    b.x = b.origin_x + b.dir.cos * b.dist;
    b.y = b.origin_y + b.dir.sin * b.dist;
}

} // verus!
