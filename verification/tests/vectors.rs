use space_game::fixed::{LIMIT, ONE};
use space_game::trig::HALF_PI;
use space_game::vector::{within_reach, Vec2};

#[test]
fn sums_and_differences_are_componentwise() {
    let a = Vec2::new(3 * ONE, -4 * ONE);
    let b = Vec2::new(ONE, ONE);
    assert_eq!(a.plus(b), Vec2::new(4 * ONE, -3 * ONE));
    assert_eq!(a.minus(b), Vec2::new(2 * ONE, -5 * ONE));
    assert_eq!(Vec2::new(LIMIT, 0).plus(Vec2::new(LIMIT, 0)), Vec2::new(LIMIT, 0));
}

#[test]
fn whole_coordinates() {
    assert_eq!(Vec2::from_units(-1000, 500), Vec2::new(-1_000_000_000, 500_000_000));
    assert_eq!(Vec2::zero(), Vec2::new(0, 0));
}

#[test]
fn scaling_truncates_each_component() {
    let a = Vec2::new(3 * ONE, -4 * ONE);
    assert_eq!(a.scale(500_000), Vec2::new(1_500_000, -2 * ONE));
    assert_eq!(a.scale(-ONE), Vec2::new(-3 * ONE, 4 * ONE));
    assert_eq!(Vec2::new(7, -7).scale_ratio(1, 2), Vec2::new(3, -3));
    assert_eq!(a.scale_ratio(1, 0), Vec2::new(0, 0));
}

#[test]
fn inner_product() {
    let a = Vec2::new(3 * ONE, -4 * ONE);
    let b = Vec2::new(2 * ONE, ONE);
    assert_eq!(a.dot(b), 2 * ONE);
    assert_eq!(a.dot(a), 25 * ONE);
    assert_eq!(Vec2::new(1, 0).dot(Vec2::new(999_999, 0)), 0);
    assert_eq!(Vec2::new(-1, 0).dot(Vec2::new(1_999_999, 0)), -1);
}

#[test]
fn inner_product_saturates() {
    let big = Vec2::new(i64::MIN, i64::MIN);
    assert_eq!(big.dot(big), LIMIT);
    assert_eq!(big.dot(Vec2::new(LIMIT, LIMIT)), -LIMIT);
    assert_eq!(Vec2::new(i64::MIN, LIMIT).dot(Vec2::new(LIMIT, LIMIT)), -9_223_372_036_854);
}

#[test]
fn length_of_the_three_four_five_triangle() {
    assert_eq!(Vec2::new(3 * ONE, -4 * ONE).length(), 5 * ONE);
    assert_eq!(Vec2::new(0, 0).length(), 0);
    assert_eq!(Vec2::new(1, 1).length(), 1);
    assert_eq!(Vec2::new(i64::MIN, i64::MIN).length(), LIMIT);
}

#[test]
fn distance_is_the_length_of_the_difference() {
    let a = Vec2::new(ONE, ONE);
    let b = Vec2::new(4 * ONE, 5 * ONE);
    assert_eq!(a.distance(b), 5 * ONE);
    assert_eq!(b.distance(a), 5 * ONE);
}

#[test]
fn normalizing_gives_unit_length() {
    assert_eq!(Vec2::new(3 * ONE, -4 * ONE).normalize(), Vec2::new(600_000, -800_000));
    assert_eq!(Vec2::new(0, -12).normalize(), Vec2::new(0, -ONE));
    assert_eq!(Vec2::new(0, 0).normalize(), Vec2::new(0, 0));
}

#[test]
fn unit_vector_at_an_angle() {
    assert_eq!(Vec2::from_angle(0), Vec2::new(ONE, 0));
    assert_eq!(Vec2::from_angle(HALF_PI), Vec2::new(1, ONE));
    assert_eq!(Vec2::from_angle(1_000_000), Vec2::new(540_303, 841_471));
}

#[test]
fn unit_vectors_have_length_one_to_a_few_millionths() {
    let mut angle = -3_141_592i64;
    while angle <= 3_141_593 {
        let unit = Vec2::from_angle(angle);
        let square = unit.x * unit.x + unit.y * unit.y;
        assert!((square - ONE * ONE).abs() <= 6 * ONE, "angle {}: {:?}", angle, unit);
        assert!(unit.x.abs() <= ONE + 3 && unit.y.abs() <= ONE + 3);
        angle += 1_009;
    }
    assert_eq!(Vec2::from_angle(785_398), Vec2::new(707_107, 707_106));
    assert_eq!(Vec2::from_angle(3_141_593), Vec2::new(-ONE, 0));
}

#[test]
fn a_scaled_unit_vector_has_the_length_it_was_scaled_to() {
    let distances = [0i64, 1, 7, 50 * ONE, 123_456_789, 3000 * ONE, 1_000_000_000_000_000];
    let mut angle = -3_141_592i64;
    while angle <= 3_141_593 {
        for distance in distances {
            let length = Vec2::from_angle(angle).scale(distance).length();
            assert!(
                (length - distance).abs() <= distance / 100_000 + 4,
                "angle {}, distance {}: {}",
                angle,
                distance,
                length
            );
        }
        angle += 100_003;
    }
}

#[test]
fn reach_is_compared_exactly() {
    let a = Vec2::new(0, 0);
    let b = Vec2::new(3, 4);
    assert!(within_reach(a, b, 5));
    assert!(!within_reach(a, b, 4));
    assert!(within_reach(a, a, 0));
    assert!(!within_reach(a, a, -1));
    assert!(within_reach(b, a, 5));
}

#[test]
fn reach_is_compared_without_overflow() {
    let low = Vec2::new(i64::MIN, i64::MIN);
    let high = Vec2::new(i64::MAX, i64::MAX);
    assert!(!within_reach(low, high, u64::MAX as i128));
    assert!(within_reach(low, Vec2::new(i64::MAX, i64::MIN), u64::MAX as i128));
    assert!(!within_reach(low, Vec2::new(i64::MAX, i64::MIN), u64::MAX as i128 - 1));
}
