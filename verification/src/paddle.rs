//! Paddle motion: apply the key intent, then one corrective step at the
//! arena boundary.

use vstd::prelude::*;
use crate::consts::{ARENA_HALF_HEIGHT, PADDLE_HALF_LENGTH, PADDLE_SPEED};
use crate::types::{paddle_wf, InputState, Paddle, Side};

verus! {

/// The up key bound to a side (W for the left paddle, the up arrow for the
/// right one, in the host's mapping).
pub open spec fn spec_up_key(input: InputState, side: Side) -> bool {
    match side {
        Side::Left => input.left_up,
        Side::Right => input.right_up,
    }
}

/// The down key bound to a side.
pub open spec fn spec_down_key(input: InputState, side: Side) -> bool {
    match side {
        Side::Left => input.left_down,
        Side::Right => input.right_down,
    }
}

/// Net vertical intent of one tick: each held key contributes one speed step,
/// so both keys held cancel out.
pub open spec fn spec_intent_delta(up: bool, down: bool) -> int {
    (if up { PADDLE_SPEED as int } else { 0 }) - (if down { PADDLE_SPEED as int } else { 0 })
}

/// The boundary policy: a paddle whose leading edge reaches past a wall is
/// moved back by one speed step — an overshoot-then-correct rule, not a hard
/// clamp to the boundary.
pub open spec fn spec_confine(y: int) -> int {
    if y + PADDLE_HALF_LENGTH >= ARENA_HALF_HEIGHT {
        y - PADDLE_SPEED
    } else if y - PADDLE_HALF_LENGTH <= -ARENA_HALF_HEIGHT {
        y + PADDLE_SPEED
    } else {
        y
    }
}

/// One paddle motion step as a whole: intent, then the boundary correction.
pub open spec fn spec_move_paddle(y: int, up: bool, down: bool) -> int {
    spec_confine(y + spec_intent_delta(up, down))
}

/// Moves one paddle for one tick from the key snapshot.
///
/// The preserved well-formedness bound is the motion law: after every step,
/// `|y| + PADDLE_HALF_LENGTH <= ARENA_HALF_HEIGHT + PADDLE_SPEED`, i.e. the
/// overshoot past the arena stays bounded by a single corrective step and
/// never diverges.
pub fn move_paddle(p: &mut Paddle, input: &InputState)
    requires
        paddle_wf(*old(p)),
    ensures
        paddle_wf(*final(p)),
        final(p).y == spec_move_paddle(
            old(p).y as int,
            spec_up_key(*input, old(p).side),
            spec_down_key(*input, old(p).side),
        ),
        final(p).side == old(p).side,
        final(p).score == old(p).score,
{
    match p.side {
        Side::Left => {
            if input.left_up {
                p.y = p.y + PADDLE_SPEED;
            }
            if input.left_down {
                p.y = p.y - PADDLE_SPEED;
            }
        }
        Side::Right => {
            if input.right_up {
                p.y = p.y + PADDLE_SPEED;
            }
            if input.right_down {
                p.y = p.y - PADDLE_SPEED;
            }
        }
    }
    if p.y + PADDLE_HALF_LENGTH >= ARENA_HALF_HEIGHT {
        p.y = p.y - PADDLE_SPEED;
    } else if p.y - PADDLE_HALF_LENGTH <= -ARENA_HALF_HEIGHT {
        p.y = p.y + PADDLE_SPEED;
    }
}

} // verus!
