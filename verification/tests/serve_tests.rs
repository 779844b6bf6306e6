use pong::consts::{
    FOUR_THIRDS_PI_ANGLE, NORM_MIN, PI_ANGLE, SERVE_BAND, THIRD_PI_ANGLE, TRIG_ONE,
    TWO_THIRDS_PI_ANGLE,
};
use pong::random::{ball_first_direction, first_direction_for_side};
use pong::types::{Dir, Side};

#[test]
fn left_serve_never_in_near_zero_band() {
    // 10,000 left serves: every one lies in [-pi/3, pi/3) and outside the
    // excluded band [-0.1, 0.1] around straight-right.
    for _ in 0..10_000 {
        let a = first_direction_for_side(Side::Left);
        assert!(-THIRD_PI_ANGLE <= a && a < THIRD_PI_ANGLE);
        assert!(a < -SERVE_BAND || a > SERVE_BAND);
    }
}

#[test]
fn right_serve_never_in_near_pi_band() {
    // 10,000 right serves: never within [pi - 0.1, pi + 0.1]. Because the
    // redraw comes from the left serve's range (the kept asymmetry), a
    // right serve may land in [-pi/3, pi/3) — even near zero — but never in
    // its own excluded band.
    for _ in 0..10_000 {
        let a = first_direction_for_side(Side::Right);
        assert!(
            (TWO_THIRDS_PI_ANGLE <= a && a < FOUR_THIRDS_PI_ANGLE)
                || (-THIRD_PI_ANGLE <= a && a < THIRD_PI_ANGLE)
        );
        assert!(a < PI_ANGLE - SERVE_BAND || a > PI_ANGLE + SERVE_BAND);
    }
}

#[test]
fn first_direction_stays_clear_of_straight_left() {
    for _ in 0..10_000 {
        let a = ball_first_direction();
        assert!(
            (-THIRD_PI_ANGLE <= a && a < THIRD_PI_ANGLE)
                || (TWO_THIRDS_PI_ANGLE <= a && a < FOUR_THIRDS_PI_ANGLE)
        );
        assert!(a < PI_ANGLE - SERVE_BAND || a > PI_ANGLE + SERVE_BAND);
    }
}

#[test]
fn serves_vary_and_cover_both_ranges() {
    // A constant generator would fail this: among 2,000 draws there are
    // many distinct values and both serve ranges appear.
    let mut first = None;
    let mut saw_distinct = false;
    let mut saw_left_range = false;
    let mut saw_right_range = false;
    for _ in 0..2_000 {
        let a = ball_first_direction();
        match first {
            None => first = Some(a),
            Some(f) => {
                if a != f {
                    saw_distinct = true;
                }
            },
        }
        if a < THIRD_PI_ANGLE {
            saw_left_range = true;
        } else {
            saw_right_range = true;
        }
    }
    assert!(saw_distinct);
    assert!(saw_left_range);
    assert!(saw_right_range);
}

#[test]
fn dir_new_accepts_near_unit_vectors_only() {
    let d = Dir::new(0, TRIG_ONE, 0).unwrap();
    assert_eq!(d.angle, 0);
    assert_eq!(d.cos, TRIG_ONE);
    assert_eq!(d.sin, 0);
    assert!(Dir::new(643_501, 8_000, 6_000).is_some());
    // Degenerate or overlong vectors are refused.
    assert!(Dir::new(0, 0, 0).is_none());
    assert!(Dir::new(0, TRIG_ONE + 1, 0).is_none());
    assert!(Dir::new(0, -TRIG_ONE - 1, 0).is_none());
    assert!(Dir::new(0, 7_000, 7_000).is_none());
    // 7_000^2 + 7_000^2 = 98_000_000 < NORM_MIN.
    assert!(98_000_000 < NORM_MIN);
    // The host's rounded cosine/sine always pass: the squared norm misses
    // TRIG_ONE^2 by far less than the allowance.
    let cos = 7_071;
    let sin = -7_071;
    assert!(Dir::new(-785_398, cos, sin).is_some());
}
