use arcade_physics::physics::body::{Body, World};
use arcade_physics::physics::collision::{Collider, CollisionDetector, StaticBody};
use arcade_physics::physics::integrator::{apply_angular_force_factor, apply_angular_friction};
use arcade_physics::physics::integrator::{apply_angular_max_velocity, apply_angular_velocity};
use arcade_physics::physics::integrator::{apply_linear_force_factor, apply_linear_friction};
use arcade_physics::physics::integrator::{apply_linear_max_velocity, apply_linear_velocity};
use arcade_physics::physics::integrator::{movement_phase, update_position, update_rotation};
use arcade_physics::physics::movement::{AngularForceFactor, AngularFriction, AngularMaxVelocity};
use arcade_physics::physics::movement::{AngularVelocity, LinearForceFactor, LinearFriction};
use arcade_physics::physics::movement::{LinearMaxVelocity, LinearVelocity};
use arcade_physics::physics::tick::{collision_phase, tick};
use arcade_physics::vec2::Vec2;

fn player() -> Body {
    let mut body = Body::new(1, Vec2::zero());
    body.linear_velocity = Some(LinearVelocity::zero());
    body.linear_max_velocity = Some(LinearMaxVelocity::new(500_000));
    body.linear_force_factor = Some(LinearForceFactor::splat(Vec2::new(5000, 15_000)));
    body.linear_friction = Some(LinearFriction::new(Vec2::splat(500_000)));
    body.collider = Some(Collider::square(50_000));
    body.collision_detector = Some(CollisionDetector::new(500_000));
    body
}

fn wall(x: i64) -> Body {
    let mut body = Body::new(2, Vec2::new(x, 0));
    body.collider = Some(Collider::square(50_000));
    body.static_body = Some(StaticBody);
    body
}

fn spinner() -> Body {
    let mut body = Body::new(3, Vec2::new(5, 5));
    body.angular_velocity = Some(AngularVelocity::new(2000, 1000));
    body.angular_max_velocity = Some(AngularMaxVelocity::new(1500));
    body.angular_force_factor = Some(AngularForceFactor::new(2000, 500));
    body.angular_friction = Some(AngularFriction::new(300));
    body
}

#[test]
fn a_body_without_a_part_skips_its_stage() {
    let mut world = World::new();
    let mut bare = Body::new(7, Vec2::new(1, 2));
    bare.linear_velocity = Some(LinearVelocity::new(Vec2::new(3000, 4000), Vec2::new(500, 0)));
    world.spawn(bare);
    world.spawn(Body::new(8, Vec2::new(9, 9)));
    apply_linear_friction(&mut world);
    apply_linear_force_factor(&mut world);
    apply_linear_max_velocity(&mut world);
    apply_angular_friction(&mut world);
    apply_angular_force_factor(&mut world);
    apply_angular_velocity(&mut world, 1_000_000_000);
    apply_angular_max_velocity(&mut world);
    update_rotation(&mut world, 1_000_000_000);
    let v = LinearVelocity::new(Vec2::new(3000, 4000), Vec2::new(500, 0));
    assert_eq!(world.bodies[0].linear_velocity, Some(v));
    apply_linear_velocity(&mut world, 1_000_000_000);
    update_position(&mut world, 1_000_000_000);
    assert_eq!(world.bodies[0].linear_velocity, Some(LinearVelocity::new(Vec2::new(3500, 4000), Vec2::zero())));
    assert_eq!(world.bodies[0].position, Vec2::new(3501, 4002));
    assert_eq!(world.bodies[0].rotation, 0);
    assert_eq!(world.bodies[1].position, Vec2::new(9, 9));
    assert_eq!(world.bodies[1].linear_velocity, None);
}

#[test]
fn movement_phase_runs_its_stages_in_order() {
    let mut world = World::new();
    let mut body = player();
    body.linear_velocity = Some(LinearVelocity::new(Vec2::new(3000, -4000), Vec2::new(300_000, 0)));
    world.spawn(body);
    world.spawn(spinner());
    movement_phase(&mut world, 100_000_000);
    // friction adds (-3000, 4000); the factors give (297000 * 5, 4000 * 15);
    // a tenth of that force is added to the velocity; it stays under the cap.
    let velocity = Vec2::new(3000 + 148_500, -4000 + 6000);
    assert_eq!(world.bodies[0].linear_velocity, Some(LinearVelocity::new(velocity, Vec2::zero())));
    assert_eq!(world.bodies[0].position, Vec2::new(15_150, 200));
    // torque 1000 - 300 = 700, doubled to 1400; velocity 2000 + 140, capped.
    assert_eq!(world.bodies[1].angular_velocity, Some(AngularVelocity::new(1500, 0)));
    assert_eq!(world.bodies[1].rotation, 150);
    assert_eq!(world.bodies[1].position, Vec2::new(5, 5));
}

#[test]
fn constant_velocity_moves_by_velocity_times_step() {
    let mut world = World::new();
    let mut body = Body::new(1, Vec2::new(-100, 50));
    body.linear_velocity = Some(LinearVelocity::new(Vec2::new(2500, -125), Vec2::zero()));
    body.angular_velocity = Some(AngularVelocity::new(-3000, 0));
    world.spawn(body);
    update_position(&mut world, 16_000_000);
    update_rotation(&mut world, 16_000_000);
    assert_eq!(world.bodies[0].position, Vec2::new(-60, 48));
    assert_eq!(world.bodies[0].rotation, -48);
    update_position(&mut world, 1_000_000_000);
    assert_eq!(world.bodies[0].position, Vec2::new(2440, -77));
}

#[test]
fn a_pushed_box_settles_flush_against_a_wall() {
    let mut world = World::new();
    world.spawn(player());
    world.spawn(wall(100_000));
    let mut touched = false;
    for _ in 0..2000 {
        collision_phase(&mut world);
        if world.bodies[1].collision_count() > 0 {
            touched = true;
            assert_eq!(world.bodies[0].position, Vec2::new(50_000, 0));
            assert_eq!(world.bodies[0].linear_velocity, Some(LinearVelocity::zero()));
        }
        world.bodies[0].linear_velocity.as_mut().unwrap().apply_force(Vec2::new(300_000, 0));
        movement_phase(&mut world, 16_666_667);
        assert!(world.bodies[0].position.x < 75_000);
    }
    assert!(touched);
    collision_phase(&mut world);
    assert_eq!(world.bodies[0].position, Vec2::new(50_000, 0));
    assert_eq!(world.bodies[0].linear_velocity, Some(LinearVelocity::zero()));
    assert_eq!(world.bodies[1].position, Vec2::new(100_000, 0));
    let edge = world.bodies[0].corners().unwrap().0.x;
    collision_phase(&mut world);
    assert_eq!(world.bodies[0].corners().unwrap().0.x, world.bodies[1].corners().unwrap().1.x);
    assert!(edge > world.bodies[1].corners().unwrap().1.x);
    assert_eq!(world.bodies[0].collision_count(), 0);
}

#[test]
fn a_tick_is_the_collision_phase_then_the_movement_phase() {
    let mut one = World::new();
    one.spawn(player());
    one.spawn(wall(40_000));
    let mut two = World::new();
    two.spawn(player());
    two.spawn(wall(40_000));
    one.bodies[0].linear_velocity.as_mut().unwrap().apply_force(Vec2::new(300_000, 0));
    two.bodies[0].linear_velocity.as_mut().unwrap().apply_force(Vec2::new(300_000, 0));
    tick(&mut one, 16_000_000);
    collision_phase(&mut two);
    movement_phase(&mut two, 16_000_000);
    assert_eq!(one.bodies[0].position, two.bodies[0].position);
    assert_eq!(one.bodies[0].linear_velocity, two.bodies[0].linear_velocity);
    // resolution cleared the pending force, so nothing moves the box on.
    assert_eq!(one.bodies[0].position, Vec2::new(-10_000, 0));
    assert_eq!(one.bodies[0].linear_velocity, Some(LinearVelocity::zero()));
}
