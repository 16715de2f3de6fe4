use arcade_physics::fixed::{from_units, magnitude, minus, narrow, negate, over, plus, times};
use arcade_physics::fixed::{unsigned_magnitude, SCALE, STEPS_PER_SECOND};
use arcade_physics::root::{ceil_root, floor_root};
use arcade_physics::vec2::Vec2;

#[test]
fn one_unit_is_a_thousand_raw() {
    assert_eq!(SCALE, 1000);
    assert_eq!(from_units(1), 1000);
    assert_eq!(from_units(-25), -25_000);
    assert_eq!(from_units(i32::MAX), 2_147_483_647_000);
}

#[test]
fn sums_saturate_at_both_ends() {
    assert_eq!(plus(2, 3), 5);
    assert_eq!(plus(i64::MAX, 1), i64::MAX);
    assert_eq!(plus(i64::MIN, -1), i64::MIN);
    assert_eq!(minus(5, 7), -2);
    assert_eq!(minus(i64::MIN, 1), i64::MIN);
    assert_eq!(minus(i64::MAX, -1), i64::MAX);
    assert_eq!(narrow(i64::MAX as i128 + 10), i64::MAX);
    assert_eq!(narrow(-7), -7);
}

#[test]
fn negation_and_magnitude_of_the_most_negative_value() {
    assert_eq!(negate(4), -4);
    assert_eq!(negate(i64::MIN), i64::MAX);
    assert_eq!(magnitude(-4), 4);
    assert_eq!(magnitude(i64::MIN), i64::MAX);
    assert_eq!(unsigned_magnitude(i64::MIN), 9_223_372_036_854_775_808u64);
    assert_eq!(unsigned_magnitude(-3), 3);
}

#[test]
fn products_round_toward_zero() {
    assert_eq!(times(1500, 1500), 2250);
    assert_eq!(times(-2500, 1000), -2500);
    assert_eq!(times(-1, 500), 0);
    assert_eq!(times(1, 999), 0);
    assert_eq!(times(-1999, 1), -1);
    assert_eq!(times(1999, -1), -1);
    assert_eq!(times(300_000, 5000), 1_500_000);
    assert_eq!(times(i64::MAX, i64::MAX), i64::MAX);
    assert_eq!(times(i64::MIN, i64::MAX), i64::MIN);
    assert_eq!(times(i64::MIN, i64::MIN), i64::MAX);
}

#[test]
fn rates_are_per_second_and_steps_are_nanoseconds() {
    assert_eq!(STEPS_PER_SECOND, 1_000_000_000);
    assert_eq!(over(1000, 1_000_000_000), 1000);
    assert_eq!(over(1000, 16_666_667), 16);
    assert_eq!(over(60_000, 16_666_667), 1000);
    assert_eq!(over(1_000_000, 400_000), 400);
    assert_eq!(over(-1, 999_999_999), 0);
    assert_eq!(over(-3, 1_000_000_000), -3);
    assert_eq!(over(-1_999_999_999, 1), -1);
    assert_eq!(over(i64::MAX, i64::MAX), i64::MAX);
    assert_eq!(over(i64::MIN, i64::MAX), i64::MIN);
    assert_eq!(Vec2::new(3000, -4000).over(500_000_000), Vec2::new(1500, -2000));
}

#[test]
fn square_roots_round_as_named() {
    assert_eq!(floor_root(0), 0);
    assert_eq!(floor_root(1), 1);
    assert_eq!(floor_root(8), 2);
    assert_eq!(floor_root(9), 3);
    assert_eq!(floor_root(u128::MAX), 18_446_744_073_709_551_615);
    assert_eq!(ceil_root(0), 0);
    assert_eq!(ceil_root(1), 1);
    assert_eq!(ceil_root(2), 2);
    assert_eq!(ceil_root(9_000_000), 3000);
    assert_eq!(ceil_root(9_000_001), 3001);
    assert_eq!(ceil_root(u128::MAX), 18_446_744_073_709_551_616);
}

#[test]
fn vector_arithmetic_is_component_wise() {
    let a = Vec2::new(3000, -4000);
    let b = Vec2::splat(500);
    assert_eq!(a.plus(b), Vec2::new(3500, -3500));
    assert_eq!(a.minus(b), Vec2::new(2500, -4500));
    assert_eq!(a.negated(), Vec2::new(-3000, 4000));
    assert_eq!(a.scaled(16), Vec2::new(48, -64));
    assert_eq!(a.length_squared(), 25_000_000);
    assert_eq!(Vec2::zero(), Vec2::new(0, 0));
    assert_eq!(Vec2::new(i64::MIN, i64::MIN).length_squared(), 1u128 << 127);
}

#[test]
fn distance_test_is_strict_and_exact() {
    let origin = Vec2::zero();
    assert!(origin.within(Vec2::new(3000, 4000), 5001));
    assert!(!origin.within(Vec2::new(3000, 4000), 5000));
    assert!(!origin.within(origin, 0));
    assert!(!origin.within(origin, -5));
    assert!(origin.within(origin, 1));
    assert!(!Vec2::new(i64::MIN, 0).within(Vec2::new(i64::MAX, 0), i64::MAX));
}
