use arcade_physics::physics::movement::{cap_magnitude, clamp_length, factored, opposing};
use arcade_physics::physics::movement::{AngularForceFactor, AngularFriction, AngularMaxVelocity};
use arcade_physics::physics::movement::{AngularVelocity, LinearForceFactor, LinearFriction};
use arcade_physics::physics::movement::{LinearMaxVelocity, LinearVelocity};
use arcade_physics::vec2::Vec2;

#[test]
fn builders_and_setters_keep_what_they_are_given() {
    let mut v = LinearVelocity::new(Vec2::new(1, 2), Vec2::new(3, 4));
    assert_eq!(v.value, Vec2::new(1, 2));
    assert_eq!(v.force, Vec2::new(3, 4));
    v.set(Vec2::new(9, 9));
    assert_eq!(v, LinearVelocity::new(Vec2::new(9, 9), Vec2::new(3, 4)));
    v.apply_force(Vec2::new(1, -1));
    assert_eq!(v.force, Vec2::new(4, 3));
    v.flush();
    assert_eq!(v, LinearVelocity::new(Vec2::new(9, 9), Vec2::zero()));
    assert_eq!(LinearVelocity::zero(), LinearVelocity::new(Vec2::zero(), Vec2::zero()));

    let mut m = LinearMaxVelocity::new(500_000);
    m.set(7);
    assert_eq!(m.value, 7);
    let mut f = LinearFriction::new(Vec2::splat(500_000));
    f.set(Vec2::new(1, 2));
    assert_eq!(f.value, Vec2::new(1, 2));
    let mut k = LinearForceFactor::splat(Vec2::new(5000, 15_000));
    assert_eq!(k.positive, k.negative);
    k.set_positive(Vec2::new(1, 1));
    k.set_negative(Vec2::new(2, 2));
    assert_eq!(k, LinearForceFactor::new(Vec2::new(1, 1), Vec2::new(2, 2)));

    let mut a = AngularVelocity::new(5, 6);
    a.set(8);
    a.apply_force(4);
    assert_eq!(a, AngularVelocity::new(8, 10));
    a.flush();
    assert_eq!(a, AngularVelocity::new(8, 0));
    assert_eq!(AngularVelocity::zero(), AngularVelocity::new(0, 0));
    let mut am = AngularMaxVelocity::new(1);
    am.set(2);
    assert_eq!(am.value, 2);
    let mut af = AngularFriction::new(1);
    af.set(3);
    assert_eq!(af.value, 3);
    let mut ak = AngularForceFactor::splat(4);
    assert_eq!(ak, AngularForceFactor::new(4, 4));
    ak.set_positive(5);
    ak.set_negative(6);
    assert_eq!(ak, AngularForceFactor::new(5, 6));
}

#[test]
fn friction_opposes_each_component_up_to_its_bound() {
    let mut v = LinearVelocity::new(Vec2::new(3000, -4000), Vec2::zero());
    v.apply_friction(&LinearFriction::new(Vec2::splat(500_000)));
    assert_eq!(v.value, Vec2::new(3000, -4000));
    assert_eq!(v.force, Vec2::new(-3000, 4000));

    let mut w = LinearVelocity::new(Vec2::new(3000, -4000), Vec2::new(10, 10));
    w.apply_friction(&LinearFriction::new(Vec2::new(1000, 2500)));
    assert_eq!(w.value, Vec2::new(3000, -4000));
    assert_eq!(w.force, Vec2::new(-990, 2510));

    assert_eq!(opposing(7000, 500), -500);
    assert_eq!(opposing(-7000, 500), 500);
    assert_eq!(opposing(0, 500), 0);
    assert_eq!(opposing(300, 500), -300);
    assert_eq!(opposing(i64::MIN, i64::MAX), i64::MAX);
}

#[test]
fn friction_snaps_a_slow_linear_velocity_to_rest() {
    let mut v = LinearVelocity::new(Vec2::new(600, -700), Vec2::new(5, 6));
    v.apply_friction(&LinearFriction::new(Vec2::splat(500_000)));
    assert_eq!(v.value, Vec2::zero());
    assert_eq!(v.force, Vec2::new(5, 6));

    let mut edge = LinearVelocity::new(Vec2::new(1000, 0), Vec2::zero());
    edge.apply_friction(&LinearFriction::new(Vec2::splat(500_000)));
    assert_eq!(edge.value, Vec2::new(1000, 0));
    assert_eq!(edge.force, Vec2::new(-1000, 0));

    let mut below = LinearVelocity::new(Vec2::new(999, 0), Vec2::zero());
    below.apply_friction(&LinearFriction::new(Vec2::splat(500_000)));
    assert_eq!(below.value, Vec2::zero());
    assert_eq!(below.force, Vec2::zero());
}

#[test]
fn angular_friction_has_its_own_rest_zone() {
    let mut slow = AngularVelocity::new(-9, 3);
    slow.apply_friction(&AngularFriction::new(500));
    assert_eq!(slow, AngularVelocity::new(0, 3));

    let mut edge = AngularVelocity::new(10, 0);
    edge.apply_friction(&AngularFriction::new(500));
    assert_eq!(edge, AngularVelocity::new(10, -10));

    let mut fast = AngularVelocity::new(-2000, 1);
    fast.apply_friction(&AngularFriction::new(500));
    assert_eq!(fast, AngularVelocity::new(-2000, 501));
}

#[test]
fn force_is_scaled_by_the_factor_for_its_direction() {
    let factor = LinearForceFactor::new(Vec2::new(5000, 15_000), Vec2::new(2000, 3000));
    let mut v = LinearVelocity::new(Vec2::new(1000, 1000), Vec2::new(300, -300));
    v.apply_force_factor(&factor);
    assert_eq!(v.force, Vec2::new(1500, -900));
    assert_eq!(v.value, Vec2::new(1000, 1000));

    let mut rest = LinearVelocity::new(Vec2::zero(), Vec2::new(300, -300));
    rest.apply_force_factor(&factor);
    assert_eq!(rest.force, Vec2::new(1500, -900));

    assert_eq!(factored(-1, -100, 2000, 3000), -200);
    assert_eq!(factored(-1, 100, 2000, 3000), 300);
    assert_eq!(factored(-1, 0, 2000, 3000), 0);

    let mut a = AngularVelocity::new(-50, -40);
    a.apply_force_factor(&AngularForceFactor::new(2000, 500));
    assert_eq!(a, AngularVelocity::new(-50, -80));
    let mut b = AngularVelocity::new(50, -40);
    b.apply_force_factor(&AngularForceFactor::new(2000, 500));
    assert_eq!(b, AngularVelocity::new(50, -20));
}

#[test]
fn integration_adds_force_times_step_and_clears_the_force() {
    let mut v = LinearVelocity::new(Vec2::new(100, 200), Vec2::new(1_500_000, -1000));
    v.integrate(16_000_000);
    assert_eq!(v.value, Vec2::new(24_100, 184));
    assert_eq!(v.force, Vec2::zero());

    let mut a = AngularVelocity::new(5, 2500);
    a.integrate(500_000_000);
    assert_eq!(a, AngularVelocity::new(1255, 0));
}

#[test]
fn clamp_keeps_direction_and_limits_length() {
    assert_eq!(clamp_length(Vec2::new(3000, 4000), 2500), Vec2::new(1500, 2000));
    assert_eq!(clamp_length(Vec2::new(-3000, 4000), 2500), Vec2::new(-1500, 2000));
    assert_eq!(clamp_length(Vec2::new(3000, 4000), 5000), Vec2::new(3000, 4000));
    assert_eq!(clamp_length(Vec2::new(3000, 4000), 6000), Vec2::new(3000, 4000));
    assert_eq!(clamp_length(Vec2::new(3000, 4000), 0), Vec2::zero());
    assert_eq!(clamp_length(Vec2::zero(), 0), Vec2::zero());
    assert_eq!(clamp_length(Vec2::new(1000, 1000), 1000), Vec2::new(706, 706));

    let mut v = LinearVelocity::new(Vec2::new(600_000, -800_000), Vec2::new(1, 2));
    v.apply_max_velocity(&LinearMaxVelocity::new(500_000));
    assert_eq!(v.value, Vec2::new(300_000, -400_000));
    assert_eq!(v.force, Vec2::new(1, 2));
}

#[test]
fn clamping_twice_is_clamping_once() {
    let caps: [i64; 5] = [0, 1, 999, 2500, 500_000];
    let samples = [
        Vec2::new(3000, 4000),
        Vec2::new(-1, 7),
        Vec2::new(123_456, -654_321),
        Vec2::new(i64::MAX, i64::MIN),
        Vec2::new(0, -9),
        Vec2::new(1000, 1000),
    ];
    for cap in caps {
        for v in samples {
            let once = clamp_length(v, cap);
            assert_eq!(clamp_length(once, cap), once);
            assert!(once.length_squared() <= (cap as u128) * (cap as u128));
        }
        for a in [-7000i64, -3, 0, 3, 7000, i64::MIN, i64::MAX] {
            let once = cap_magnitude(a, cap);
            assert_eq!(cap_magnitude(once, cap), once);
        }
    }
}

#[test]
fn angular_cap_keeps_the_sign() {
    assert_eq!(cap_magnitude(7000, 500), 500);
    assert_eq!(cap_magnitude(-7000, 500), -500);
    assert_eq!(cap_magnitude(-300, 500), -300);
    assert_eq!(cap_magnitude(0, 500), 0);
    let mut a = AngularVelocity::new(-9000, 4);
    a.apply_max_velocity(&AngularMaxVelocity::new(1000));
    assert_eq!(a, AngularVelocity::new(-1000, 4));
}

#[test]
fn euler_step_moves_by_velocity_times_step() {
    let v = LinearVelocity::new(Vec2::new(1500, -250), Vec2::zero());
    assert_eq!(v.moved(Vec2::new(10, 10), 16_000_000), Vec2::new(34, 6));
    assert_eq!(v.moved(Vec2::new(10, 10), 1_000_000_000), Vec2::new(1510, -240));
    assert_eq!(v.moved(Vec2::new(10, 10), 0), Vec2::new(10, 10));
    let a = AngularVelocity::new(3000, 0);
    assert_eq!(a.turned(100, 500_000_000), 1600);
    assert_eq!(a.turned(100, 1_000_000_000), 3100);
}

#[test]
fn a_sixtieth_of_a_second_and_a_short_step_both_count() {
    let v = LinearVelocity::new(Vec2::new(60_000, -6_000_000), Vec2::zero());
    assert_eq!(v.moved(Vec2::zero(), 16_666_667), Vec2::new(1000, -100_000));
    assert_eq!(v.moved(Vec2::zero(), 400_000), Vec2::new(24, -2400));
    assert_eq!(v.moved(Vec2::zero(), 1), Vec2::zero());
    let mut w = LinearVelocity::new(Vec2::zero(), Vec2::new(1_500_000, 0));
    w.integrate(16_666_667);
    assert_eq!(w.value, Vec2::new(25_000, 0));
}
