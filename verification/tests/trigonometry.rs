use space_game::trig::{arctan2, cosine, sine, wrap, HALF_PI, PI, TWO_PI};

#[test]
fn wrap_brings_angles_into_the_half_open_turn() {
    assert_eq!(wrap(0), 0);
    assert_eq!(wrap(PI), PI);
    assert_eq!(wrap(-PI), PI);
    assert_eq!(wrap(PI + 1), -PI + 1);
    assert_eq!(wrap(-PI - 1), PI - 1);
    assert_eq!(wrap(TWO_PI), 0);
    assert_eq!(wrap(3 * TWO_PI + 17), 17);
    assert_eq!(wrap(-5 * TWO_PI - 17), -17);
}

#[test]
fn wrap_takes_any_integer() {
    for angle in [i64::MIN, i64::MIN + 1, -1, 0, 1, i64::MAX - 1, i64::MAX] {
        let wrapped = wrap(angle);
        assert!(-PI < wrapped && wrapped <= PI);
        assert_eq!((angle as i128 - wrapped as i128).rem_euclid(TWO_PI as i128), 0);
        assert_eq!(wrap(wrapped), wrapped);
    }
}

#[test]
fn two_pi_is_twice_pi() {
    assert_eq!(TWO_PI, 2 * PI);
    assert_eq!(HALF_PI, PI / 2);
}

#[test]
fn sine_and_cosine_at_the_axes() {
    assert_eq!(sine(0), 0);
    assert_eq!(cosine(0), 1_000_000);
    assert_eq!(sine(HALF_PI), 1_000_000);
    assert_eq!(sine(-HALF_PI), -1_000_000);
    assert_eq!(cosine(PI), -1_000_000);
    assert_eq!(sine(PI), 0);
}

#[test]
fn sine_and_cosine_of_one_radian() {
    assert_eq!(sine(1_000_000), 841_471);
    assert_eq!(cosine(1_000_000), 540_303);
}

#[test]
fn sine_and_cosine_are_within_two_millionths() {
    let mut angle = -PI + 1;
    while angle <= PI {
        let s = sine(angle) as f64;
        let c = cosine(angle) as f64;
        let a = angle as f64 / 1e6;
        assert!((s - a.sin() * 1e6).abs() <= 2.0, "sine of {}", angle);
        assert!((c - a.cos() * 1e6).abs() <= 2.5, "cosine of {}", angle);
        angle += 1_237;
    }
}

#[test]
fn sine_is_periodic() {
    assert_eq!(sine(1_000_000 + TWO_PI), sine(1_000_000));
    assert_eq!(cosine(1_000_000 - 3 * TWO_PI), cosine(1_000_000));
}

#[test]
fn arctangent_on_the_axes_and_diagonals() {
    assert_eq!(arctan2(0, 0), 0);
    assert_eq!(arctan2(0, 5), 0);
    assert_eq!(arctan2(5, 0), HALF_PI);
    assert_eq!(arctan2(-3, 0), -HALF_PI);
    assert_eq!(arctan2(0, -5), PI);
    assert_eq!(arctan2(1_000_000, 1_000_000), 785_410);
    assert_eq!(arctan2(1, -1), 2_356_183);
    assert_eq!(arctan2(-1, -1), -2_356_183);
}

#[test]
fn arctangent_is_within_twenty_millionths() {
    let points: [(i64, i64); 8] = [
        (3, 4),
        (-3, 4),
        (3, -4),
        (-3, -4),
        (1_000_000_000, 1),
        (1, 1_000_000_000),
        (123_456_789, -987_654_321),
        (-7, 1_000),
    ];
    for (y, x) in points {
        let exact = (y as f64).atan2(x as f64) * 1e6;
        let got = arctan2(y, x) as f64;
        assert!((got - exact).abs() <= 20.0, "arctan2({}, {}): {} vs {}", y, x, got, exact);
    }
}

#[test]
fn arctangent_takes_the_least_integer() {
    let angle = arctan2(i64::MIN, i64::MIN);
    assert!(-PI < angle && angle <= PI);
    assert_eq!(angle, -2_356_183);
}
