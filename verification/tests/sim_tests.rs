use pong::ball::move_ball;
use pong::collision::collision;
use pong::consts::{
    ARENA_HALF_HEIGHT, BALL_RADIUS, GOAL_X, PADDLE_HALF_LENGTH, PADDLE_SPEED, PADDLE_X, PI_ANGLE,
    TRIG_ONE, TWO_PI_ANGLE, WIN_SCORE,
};
use pong::paddle::move_paddle;
use pong::sim::{check_for_win, score, Sim};
use pong::types::{Ball, Collision, Dir, InputState, Paddle, Side};

fn no_keys() -> InputState {
    InputState { left_up: false, left_down: false, right_up: false, right_down: false }
}

fn dir_right() -> Dir {
    Dir::new(0, TRIG_ONE, 0).unwrap()
}

fn dir_left() -> Dir {
    Dir::new(PI_ANGLE, -TRIG_ONE, 0).unwrap()
}

fn dir_up() -> Dir {
    Dir::new(1_570_796, 0, TRIG_ONE).unwrap()
}

#[test]
fn paddle_moves_by_one_speed_step() {
    let mut p = Paddle::at_start(Side::Left);
    let input = InputState { left_up: true, left_down: false, right_up: false, right_down: false };
    move_paddle(&mut p, &input);
    assert_eq!(p.y, PADDLE_SPEED);
    let input = InputState { left_up: false, left_down: true, right_up: false, right_down: false };
    move_paddle(&mut p, &input);
    move_paddle(&mut p, &input);
    assert_eq!(p.y, -PADDLE_SPEED);
}

#[test]
fn paddle_ignores_other_sides_keys() {
    let mut p = Paddle::at_start(Side::Left);
    let input = InputState { left_up: false, left_down: false, right_up: true, right_down: false };
    move_paddle(&mut p, &input);
    assert_eq!(p.y, 0);
}

#[test]
fn paddle_both_keys_cancel() {
    let mut p = Paddle::at_start(Side::Right);
    let input = InputState { left_up: false, left_down: false, right_up: true, right_down: true };
    move_paddle(&mut p, &input);
    assert_eq!(p.y, 0);
}

#[test]
fn paddle_boundary_correction_does_not_stick() {
    // Paddle at y = 300 units (half-length 50, arena half-height 350),
    // holding up at speed 5: the step to 305 puts the edge past the wall
    // (355 >= 350), and the corrective step brings it straight back.
    let mut p = Paddle { side: Side::Right, y: 3_000_000, score: 0 };
    let input = InputState { left_up: false, left_down: false, right_up: true, right_down: false };
    for _ in 0..5 {
        move_paddle(&mut p, &input);
        assert_eq!(p.y, 3_000_000);
        assert!(p.y.abs() + PADDLE_HALF_LENGTH <= ARENA_HALF_HEIGHT + PADDLE_SPEED);
    }
    // Released keys: the boundary test is inclusive (300 + 50 >= 350), so
    // one more corrective step settles the paddle strictly inside.
    move_paddle(&mut p, &no_keys());
    assert_eq!(p.y, 2_950_000);
    move_paddle(&mut p, &no_keys());
    assert_eq!(p.y, 2_950_000);
}

#[test]
fn paddle_bottom_boundary_correction() {
    let mut p = Paddle { side: Side::Left, y: -3_000_000, score: 0 };
    let input = InputState { left_up: false, left_down: true, right_up: false, right_down: false };
    for _ in 0..5 {
        move_paddle(&mut p, &input);
        assert_eq!(p.y, -3_000_000);
    }
}

#[test]
fn ball_motion_straight_right() {
    let mut b = Ball::at_center(dir_right());
    move_ball(&mut b);
    assert_eq!(b.dist, 6);
    assert_eq!(b.x, 60_000);
    assert_eq!(b.y, 0);
}

#[test]
fn ball_motion_parametric_identity() {
    // A 3-4-5 direction: cos 0.8, sin 0.6. Position is always
    // origin + dist * (cos, sin), exactly.
    let d = Dir::new(643_501, 8_000, 6_000).unwrap();
    let mut b = Ball::at_center(d);
    for tick in 1..=10i64 {
        move_ball(&mut b);
        assert_eq!(b.dist, 6 * tick);
        assert_eq!(b.x, b.origin_x + d.cos * b.dist);
        assert_eq!(b.y, b.origin_y + d.sin * b.dist);
    }
    assert_eq!(b.x, 480_000);
    assert_eq!(b.y, 360_000);
}

#[test]
fn top_wall_reflection_flips_sine_and_angle() {
    let left = Paddle::at_start(Side::Left);
    let right = Paddle::at_start(Side::Right);
    // Ball just touching the top wall band: y + radius == arena half-height.
    let mut b = Ball {
        x: 0,
        y: ARENA_HALF_HEIGHT - BALL_RADIUS,
        origin_x: 0,
        origin_y: ARENA_HALF_HEIGHT - BALL_RADIUS - 60_000,
        dist: 6,
        dir: dir_up(),
    };
    let c = collision(&mut b, &left, &right);
    assert_eq!(c, Some(Collision::Top));
    assert_eq!(b.dir.angle, TWO_PI_ANGLE - 1_570_796);
    assert_eq!(b.dir.cos, 0);
    assert_eq!(b.dir.sin, -TRIG_ONE);
    assert_eq!(b.origin_x, b.x);
    assert_eq!(b.origin_y, b.y);
    assert_eq!(b.dist, 0);
    // Still inside the band: the reflection formula applied twice restores
    // the original direction exactly.
    let c2 = collision(&mut b, &left, &right);
    assert_eq!(c2, Some(Collision::Top));
    assert_eq!(b.dir.angle, 1_570_796);
    assert_eq!(b.dir.sin, TRIG_ONE);
}

#[test]
fn bottom_wall_reflection() {
    let left = Paddle::at_start(Side::Left);
    let right = Paddle::at_start(Side::Right);
    let d = Dir::new(-1_570_796, 0, -TRIG_ONE).unwrap();
    let mut b = Ball {
        x: 0,
        y: -(ARENA_HALF_HEIGHT - BALL_RADIUS),
        origin_x: 0,
        origin_y: -(ARENA_HALF_HEIGHT - BALL_RADIUS) + 60_000,
        dist: 6,
        dir: d,
    };
    let c = collision(&mut b, &left, &right);
    assert_eq!(c, Some(Collision::Bottom));
    assert_eq!(b.dir.angle, TWO_PI_ANGLE + 1_570_796);
    assert_eq!(b.dir.sin, TRIG_ONE);
}

#[test]
fn right_paddle_face_reflection_flips_cosine() {
    let left = Paddle::at_start(Side::Left);
    let right = Paddle::at_start(Side::Right);
    // Ball crossing the right paddle's near face at paddle height:
    // x + radius >= paddle_x - half_width, but not past the far edge.
    let mut b = Ball {
        x: PADDLE_X - PADDLE_HALF_LENGTH + 250_000,
        y: 0,
        origin_x: 0,
        origin_y: 0,
        dist: 576,
        dir: dir_right(),
    };
    b.origin_x = b.x - b.dir.cos * b.dist;
    let c = collision(&mut b, &left, &right);
    assert_eq!(c, Some(Collision::Right));
    assert_eq!(b.dir.angle, PI_ANGLE);
    assert_eq!(b.dir.cos, -TRIG_ONE);
    assert_eq!(b.dir.sin, 0);
    assert_eq!(b.dist, 0);
}

#[test]
fn corner_band_overrides_side_face() {
    let left = Paddle::at_start(Side::Left);
    let right = Paddle::at_start(Side::Right);
    // Ball overlapping the right paddle's x span, its lower edge within the
    // corner band at the paddle's top: classified Top, not Right.
    let mut b = Ball {
        x: PADDLE_X - 200_000,
        y: PADDLE_HALF_LENGTH + 100_000,
        origin_x: PADDLE_X - 200_000,
        origin_y: PADDLE_HALF_LENGTH + 100_000,
        dist: 0,
        dir: dir_right(),
    };
    // y - radius = 450_000, within [445_000, 500_000] of the paddle top.
    let c = collision(&mut b, &left, &right);
    assert_eq!(c, Some(Collision::Top));
    assert_eq!(b.dir.sin, 0);
    assert_eq!(b.dir.cos, TRIG_ONE);
    assert_eq!(b.dir.angle, TWO_PI_ANGLE);
}

#[test]
fn past_left_paddle_skips_every_paddle() {
    // The deliberate early exit: a ball already past the left paddle's far
    // edge is not tested against any paddle that tick, even though it still
    // overlaps the left paddle's side-face region here.
    let left = Paddle::at_start(Side::Left);
    let right = Paddle::at_start(Side::Right);
    let mut b = Ball {
        x: -(PADDLE_X + 100_000) + BALL_RADIUS,
        y: 0,
        origin_x: -(PADDLE_X + 100_000) + BALL_RADIUS,
        origin_y: 0,
        dist: 0,
        dir: dir_left(),
    };
    let before = b;
    let c = collision(&mut b, &left, &right);
    assert_eq!(c, None);
    assert_eq!(b, before);
}

#[test]
fn goal_line_is_exact() {
    // Scoring uses half the radius: x + radius/2 >= arena half-width, so
    // GOAL_X = 692.5 units exactly.
    let serve = dir_right();
    let mut sim = Sim::new(serve);
    sim.ball.x = GOAL_X - 1;
    assert_eq!(score(&mut sim), None);
    assert_eq!(sim.right.score, 0);
    sim.ball.x = GOAL_X;
    assert_eq!(score(&mut sim), Some(Side::Right));
    assert_eq!(sim.right.score, 1);
    assert!(sim.pending_reset);
}

#[test]
fn left_goal_awards_left() {
    // Crossing the left edge awards the point to the side labelled Left —
    // the deliberate attribution, not the usual opponent-scores rule.
    let mut sim = Sim::new(dir_left());
    sim.ball.x = -GOAL_X;
    assert_eq!(score(&mut sim), Some(Side::Left));
    assert_eq!(sim.left.score, 1);
    assert_eq!(sim.right.score, 0);
}

#[test]
fn straight_serve_scores_right_and_resets() {
    // Ball at (0,0), direction 0, speed 6/tick, arena half-width 700: the
    // ball reaches x >= 700 - 7.5 units on tick 116, Right's score goes
    // 0 -> 1, and the next tick serves again from (0,0).
    let serve = dir_right();
    let mut sim = Sim::new(serve);
    // Park both paddles near the top wall, clear of the ball's path.
    sim.left.y = 3_000_000;
    sim.right.y = 3_000_000;
    let mut ticks = 0;
    let scored_side = loop {
        let ev = sim.tick(&no_keys(), serve);
        ticks += 1;
        assert!(ticks <= 116, "goal should fire on tick 116");
        if let Some(side) = ev.scored {
            break side;
        }
    };
    assert_eq!(ticks, 116);
    assert_eq!(scored_side, Side::Right);
    assert_eq!(sim.right.score, 1);
    assert_eq!(sim.left.score, 0);
    assert_eq!(sim.ball.x, 116 * 60_000);
    assert!(sim.pending_reset);
    // The reset is consumed at the start of the next tick: the ball starts
    // over from the center and has moved one step by the tick's end.
    let ev = sim.tick(&no_keys(), serve);
    assert_eq!(ev.scored, None);
    assert_eq!(sim.ball.origin_x, 0);
    assert_eq!(sim.ball.origin_y, 0);
    assert_eq!(sim.ball.dist, 6);
    assert_eq!(sim.ball.x, 60_000);
}

#[test]
fn win_fires_exactly_when_score_becomes_ten() {
    let serve = dir_left();
    let mut sim = Sim::new(serve);
    sim.left.score = WIN_SCORE - 1;
    // Park both paddles near the top wall, clear of the ball's path.
    sim.left.y = 3_000_000;
    sim.right.y = 3_000_000;
    let mut ticks = 0;
    loop {
        assert!(!sim.finished);
        assert!(!check_for_win(&sim));
        let ev = sim.tick(&no_keys(), serve);
        ticks += 1;
        assert!(ticks <= 116);
        if let Some(side) = ev.scored {
            // The termination signal fires on the very tick the score
            // becomes ten, and not before.
            assert_eq!(side, Side::Left);
            assert_eq!(sim.left.score, WIN_SCORE);
            assert!(ev.finished);
            assert!(sim.finished);
            break;
        }
        assert!(!ev.finished);
    }
    // The signal is stable: the win check keeps reporting the session over.
    assert!(check_for_win(&sim));
    assert!(check_for_win(&sim));
}

#[test]
fn scores_are_monotone_under_play() {
    let serve = dir_right();
    let mut sim = Sim::new(serve);
    let keys = InputState { left_up: true, left_down: false, right_up: false, right_down: true };
    let mut last = (0u16, 0u16);
    for _ in 0..600 {
        if sim.finished {
            break;
        }
        sim.tick(&keys, serve);
        assert!(sim.left.score >= last.0 && sim.right.score >= last.1);
        last = (sim.left.score, sim.right.score);
    }
    assert!(sim.right.score >= 1);
}

#[test]
fn corner_band_boundary_is_exact() {
    let left = Paddle::at_start(Side::Left);
    let right = Paddle::at_start(Side::Right);
    // The band is (ball speed + paddle speed) / 2 = 5.5 units below the
    // paddle top. With the ball's lower edge exactly at the band's floor the
    // hit still counts as Top; one fine unit lower it is a side face again.
    let x = PADDLE_X - 200_000;
    let band_floor_y = PADDLE_HALF_LENGTH - 55_000 + BALL_RADIUS;
    let mut b = Ball {
        x,
        y: band_floor_y,
        origin_x: x,
        origin_y: band_floor_y,
        dist: 0,
        dir: dir_right(),
    };
    assert_eq!(collision(&mut b, &left, &right), Some(Collision::Top));

    let mut b2 = Ball {
        x,
        y: band_floor_y - 1,
        origin_x: x,
        origin_y: band_floor_y - 1,
        dist: 0,
        dir: dir_right(),
    };
    assert_eq!(collision(&mut b2, &left, &right), Some(Collision::Right));
}

#[test]
fn wall_threshold_is_exact() {
    let left = Paddle::at_start(Side::Left);
    let right = Paddle::at_start(Side::Right);
    // One fine unit below the wall band nothing happens.
    let mut b = Ball {
        x: 0,
        y: ARENA_HALF_HEIGHT - BALL_RADIUS - 1,
        origin_x: 0,
        origin_y: ARENA_HALF_HEIGHT - BALL_RADIUS - 1,
        dist: 0,
        dir: dir_up(),
    };
    let before = b;
    assert_eq!(collision(&mut b, &left, &right), None);
    assert_eq!(b, before);
}
