//! The serve: a random initial direction for a fresh ball, with the
//! excluded near-horizontal band.

use vstd::prelude::*;
use rand::Rng;
use crate::consts::{
    FOUR_THIRDS_PI_ANGLE, PI_ANGLE, REDRAW_LIMIT, SERVE_BAND, THIRD_PI_ANGLE, TWO_THIRDS_PI_ANGLE,
};
use crate::types::Side;

verus! {

/// Relies on `rand::Rng::gen` with the `Standard` distribution on `bool`: a
/// fair coin. Nothing is promised of the outcome.
#[verifier::external_body]
fn coin_flip() -> bool {
    rand::thread_rng().gen()
}

/// Relies on `rand::Rng::gen_range` on an `i64` half-open range: uniform in
/// `[lo, hi)`, panicking only on an empty range, which the precondition
/// rules out.
#[verifier::external_body]
fn sample_range(lo: i64, hi: i64) -> (r: i64)
    requires
        lo < hi,
    ensures
        lo <= r < hi,
{
    rand::thread_rng().gen_range(lo..hi)
}

/// A serve toward the side's paddle: drawn uniformly from that side's range
/// in microradians, redrawing while the draw lands in the excluded band.
///
/// - `Left`: drawn from `[-pi/3, pi/3)`; a draw within `[-0.1, 0.1]` of
///   straight-right is redrawn from the same range.
/// - `Right`: drawn from `[2*pi/3, 4*pi/3)`; a draw within `[pi-0.1,
///   pi+0.1]` of straight-left is redrawn — from the *left* serve's range
///   `[-pi/3, pi/3)`, a deliberate asymmetry this crate keeps, so a
///   right serve can land in the left serve's range (even nearly
///   horizontal), but never in its own excluded band around pi.
///
/// The left redraw is capped at [`REDRAW_LIMIT`] tries; if every draw landed
/// in the band (a draw does so with probability below a tenth, so this is
/// unreachable in practice) the serve settles on the nearest admissible
/// angle above the band.
pub fn first_direction_for_side(side: Side) -> (a: i64)
    ensures
        match side {
            Side::Left => -THIRD_PI_ANGLE <= a < THIRD_PI_ANGLE
                && !(-SERVE_BAND <= a <= SERVE_BAND),
            Side::Right => (TWO_THIRDS_PI_ANGLE <= a < FOUR_THIRDS_PI_ANGLE
                || -THIRD_PI_ANGLE <= a < THIRD_PI_ANGLE)
                && !(PI_ANGLE - SERVE_BAND <= a <= PI_ANGLE + SERVE_BAND),
        },
{
    match side {
        Side::Left => {
            let mut a = sample_range(-THIRD_PI_ANGLE, THIRD_PI_ANGLE);
            let mut tries: u64 = 0;
            while -SERVE_BAND <= a && a <= SERVE_BAND && tries < REDRAW_LIMIT
                invariant
                    -THIRD_PI_ANGLE <= a < THIRD_PI_ANGLE,
                    tries <= REDRAW_LIMIT,
                decreases REDRAW_LIMIT - tries,
            {
                a = sample_range(-THIRD_PI_ANGLE, THIRD_PI_ANGLE);
                tries = tries + 1;
            }
            if -SERVE_BAND <= a && a <= SERVE_BAND {
                a = SERVE_BAND + 1;
            }
            a
        },
        Side::Right => {
            let mut a = sample_range(TWO_THIRDS_PI_ANGLE, FOUR_THIRDS_PI_ANGLE);
            if PI_ANGLE - SERVE_BAND <= a && a <= PI_ANGLE + SERVE_BAND {
                // One redraw from the left serve's range settles it: that
                // range ends far below the band around pi.
                a = sample_range(-THIRD_PI_ANGLE, THIRD_PI_ANGLE);
            }
            a
        },
    }
}

/// The initial (and after-reset) ball direction: a fair coin picks the side
/// the serve leans toward, then that side's range is drawn as
/// [`first_direction_for_side`] describes. The result is never within the
/// excluded band around straight-left; a near-straight-right serve can only
/// come out of the right-serve redraw asymmetry.
pub fn ball_first_direction() -> (a: i64)
    ensures
        -THIRD_PI_ANGLE <= a < THIRD_PI_ANGLE
            || TWO_THIRDS_PI_ANGLE <= a < FOUR_THIRDS_PI_ANGLE,
        !(PI_ANGLE - SERVE_BAND <= a <= PI_ANGLE + SERVE_BAND),
{
    let side = if coin_flip() {
        Side::Left
    } else {
        Side::Right
    };
    first_direction_for_side(side)
}

} // verus!
