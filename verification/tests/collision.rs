use arcade_physics::physics::body::{Body, World};
use arcade_physics::physics::collision::{calc_collision, push, Collider, Collision};
use arcade_physics::physics::collision::{CollisionDetector, StaticBody};
use arcade_physics::physics::detection::{detect_collision_target, flush_collider};
use arcade_physics::physics::detection::{flush_collision_detector, scan, update_vertices};
use arcade_physics::physics::movement::LinearVelocity;
use arcade_physics::physics::narrow_phase::{detect_collision, detect_pair, locate_target};
use arcade_physics::physics::resolver::{handle_static_body_collisions, locate_movable};
use arcade_physics::physics::resolver::resolve_collision;
use arcade_physics::physics::tick::collision_phase;
use arcade_physics::vec2::Vec2;

fn moving_box(entity: u64, x: i64, y: i64, range: i64) -> Body {
    let mut body = Body::new(entity, Vec2::new(x, y));
    body.linear_velocity = Some(LinearVelocity::new(Vec2::new(7000, 8000), Vec2::new(1, 2)));
    body.collider = Some(Collider::square(50_000));
    body.collision_detector = Some(CollisionDetector::new(range));
    body
}

fn wall(entity: u64, x: i64, y: i64) -> Body {
    let mut body = Body::new(entity, Vec2::new(x, y));
    body.collider = Some(Collider::square(50_000));
    body.static_body = Some(StaticBody);
    body
}

fn square_at(x: i64, y: i64) -> (Vec2, Vec2) {
    (Vec2::new(x + 25_000, y + 25_000), Vec2::new(x - 25_000, y - 25_000))
}

#[test]
fn square_collider_is_centred() {
    let c = Collider::square(50_000);
    assert_eq!(c.size, (Vec2::splat(25_000), Vec2::splat(-25_000)));
    assert_eq!(c.vertices, c.size);
    assert!(c.collisions.is_empty());
    let odd = Collider::square(-5);
    assert_eq!(odd.size, (Vec2::splat(-2), Vec2::splat(2)));
    let custom = Collider::new((Vec2::new(4, 3), Vec2::new(-2, -1)));
    assert_eq!(custom.size, (Vec2::new(4, 3), Vec2::new(-2, -1)));
    assert_eq!(custom.vertices, custom.size);
}

#[test]
fn collider_records_and_forgets() {
    let mut c = Collider::square(10);
    c.collide(Collision::new(4, Vec2::new(1, 2)));
    c.collide(Collision::new(5, Vec2::new(3, 4)));
    assert_eq!(c.collisions, vec![Collision::new(4, Vec2::new(1, 2)), Collision::new(5, Vec2::new(3, 4))]);
    c.flush();
    assert!(c.collisions.is_empty());
    assert_eq!(c.size, (Vec2::splat(5), Vec2::splat(-5)));

    let mut d = CollisionDetector::new(500_000);
    assert_eq!(d.range, 500_000);
    d.add_possible_target(8);
    d.add_possible_target(9);
    assert_eq!(d.possible_targets, vec![8, 9]);
    d.flush();
    assert!(d.possible_targets.is_empty());
    assert_eq!(d.range, 500_000);
}

#[test]
fn vertices_follow_the_origin_without_rotation() {
    let mut c = Collider::square(50_000);
    c.update_vertices(Vec2::new(40_000, -10_000));
    assert_eq!(c.vertices, (Vec2::new(65_000, 15_000), Vec2::new(15_000, -35_000)));
    assert_eq!(c.size, (Vec2::splat(25_000), Vec2::splat(-25_000)));
}

#[test]
fn overlapping_boxes_report_the_shorter_way_out() {
    let a = square_at(0, 0);
    let b = square_at(40_000, 0);
    assert_eq!(calc_collision(a, b), Some(Vec2::new(-10_000, 50_000)));
    assert_eq!(calc_collision(b, a), Some(Vec2::new(10_000, 50_000)));
    let c = square_at(10_000, -45_000);
    assert_eq!(calc_collision(a, c), Some(Vec2::new(-40_000, 5000)));
    assert_eq!(calc_collision(c, a), Some(Vec2::new(40_000, -5000)));
    assert_eq!(push(25, -25, 65, 15), -10);
    assert_eq!(push(65, 15, 25, -25), 10);
    assert_eq!(push(25, -25, 25, -25), 50);
}

#[test]
fn boxes_apart_on_one_axis_never_collide() {
    let a = square_at(0, 0);
    assert_eq!(calc_collision(a, square_at(50_000, 0)), None);
    assert_eq!(calc_collision(a, square_at(-50_000, 0)), None);
    assert_eq!(calc_collision(a, square_at(0, 50_000)), None);
    assert_eq!(calc_collision(a, square_at(0, -50_000)), None);
    assert_eq!(calc_collision(a, square_at(60_000, 10_000)), None);
    assert_eq!(calc_collision(a, square_at(10_000, -70_000)), None);
    assert!(calc_collision(a, square_at(49_999, 49_999)).is_some());
}

#[test]
fn broad_phase_lists_near_targets_in_world_order() {
    let mut world = World::new();
    world.spawn(wall(10, 300_000, 400_000));
    world.spawn(moving_box(1, 0, 0, 500_001));
    world.spawn(wall(11, 300_000, 400_002));
    world.spawn(wall(12, -1000, 0));
    world.spawn(moving_box(2, 0, 0, 500_000));
    world.spawn(Body::new(13, Vec2::zero()));
    assert_eq!(world.len(), 6);
    detect_collision_target(&mut world);
    let first = world.bodies[1].collision_detector.as_ref().unwrap();
    assert_eq!(first.possible_targets, vec![10, 12, 2]);
    let second = world.bodies[4].collision_detector.as_ref().unwrap();
    assert_eq!(second.possible_targets, vec![1, 12]);
    detect_collision_target(&mut world);
    let again = world.bodies[1].collision_detector.as_ref().unwrap();
    assert_eq!(again.possible_targets, vec![10, 12, 2, 10, 12, 2]);
    flush_collision_detector(&mut world);
    assert!(world.bodies[1].collision_detector.as_ref().unwrap().possible_targets.is_empty());
    assert_eq!(world.bodies[1].collision_detector.as_ref().unwrap().range, 500_001);
}

#[test]
fn a_larger_range_keeps_every_candidate() {
    let mut world = World::new();
    world.spawn(wall(10, 100_000, 0));
    world.spawn(moving_box(1, 0, 0, 1));
    world.spawn(wall(11, 0, 250_000));
    world.spawn(wall(12, -400_000, 300_000));
    world.spawn(moving_box(13, 1, 1, 1));
    let origin = Vec2::zero();
    let ranges: [i64; 7] = [-1, 0, 2, 100_001, 250_001, 500_000, 500_001];
    let mut last: Vec<u64> = Vec::new();
    for range in ranges {
        let found = scan(&world, 1, origin, range);
        for entity in &last {
            assert!(found.contains(entity));
        }
        last = found;
    }
    assert_eq!(last, vec![10, 11, 12, 13]);
    assert_eq!(scan(&world, 1, origin, 2), vec![13]);
    assert_eq!(scan(&world, 1, origin, 250_001), vec![10, 11, 13]);
    assert_eq!(scan(&world, 4, origin, 250_001), vec![10, 1, 11]);
    assert_eq!(scan(&world, 9, origin, 2), vec![1, 13]);
}

#[test]
fn narrow_phase_records_the_same_vector_on_both_sides() {
    let mut world = World::new();
    world.spawn(moving_box(1, 0, 0, 500_000));
    world.spawn(wall(2, 40_000, 0));
    world.spawn(wall(3, 200_000, 0));
    update_vertices(&mut world);
    detect_collision_target(&mut world);
    assert_eq!(locate_target(&world, 0, 2), Some(1));
    assert_eq!(locate_target(&world, 0, 1), None);
    assert_eq!(locate_target(&world, 1, 1), Some(0));
    assert_eq!(locate_target(&world, 1, 2), None);
    assert_eq!(locate_target(&world, 0, 99), None);
    detect_collision(&mut world);
    let hit = Vec2::new(-10_000, 50_000);
    assert_eq!(world.bodies[0].collider.as_ref().unwrap().collisions, vec![Collision::new(2, hit)]);
    assert_eq!(world.bodies[1].collider.as_ref().unwrap().collisions, vec![Collision::new(1, hit)]);
    assert!(world.bodies[2].collider.as_ref().unwrap().collisions.is_empty());
    assert_eq!(world.bodies[0].collision_count(), 1);
    assert_eq!(world.bodies[0].collision_at(0), Some(Collision::new(2, hit)));
    assert_eq!(world.bodies[0].collision_at(1), None);
    assert_eq!(world.bodies[0].target_count(), 2);
    assert_eq!(world.bodies[0].target_at(1), Some(3));
    assert_eq!(world.bodies[0].target_at(2), None);
    assert_eq!(world.bodies[1].corners(), Some((Vec2::new(65_000, 25_000), Vec2::new(15_000, -25_000))));
    flush_collider(&mut world);
    assert!(world.bodies[0].collider.as_ref().unwrap().collisions.is_empty());
    assert!(world.bodies[1].collider.as_ref().unwrap().collisions.is_empty());
}

#[test]
fn two_detectors_find_and_record_each_other() {
    let mut world = World::new();
    world.spawn(moving_box(1, 0, 0, 500_000));
    world.spawn(moving_box(2, 10_000, 0, 500_000));
    update_vertices(&mut world);
    detect_collision_target(&mut world);
    assert_eq!(world.bodies[0].collision_detector.as_ref().unwrap().possible_targets, vec![2]);
    assert_eq!(world.bodies[1].collision_detector.as_ref().unwrap().possible_targets, vec![1]);
    detect_collision(&mut world);
    let first = Vec2::new(-40_000, 50_000);
    let second = Vec2::new(40_000, 50_000);
    assert_eq!(
        world.bodies[0].collider.as_ref().unwrap().collisions,
        vec![Collision::new(2, first), Collision::new(2, second)]
    );
    assert_eq!(
        world.bodies[1].collider.as_ref().unwrap().collisions,
        vec![Collision::new(1, first), Collision::new(1, second)]
    );
}

#[test]
fn a_detector_far_from_another_records_nothing() {
    let mut world = World::new();
    world.spawn(moving_box(1, 0, 0, 500_000));
    world.spawn(moving_box(2, 50_000, 0, 500_000));
    world.spawn(moving_box(3, 0, 600_000, 500_000));
    update_vertices(&mut world);
    detect_collision_target(&mut world);
    assert_eq!(world.bodies[0].collision_detector.as_ref().unwrap().possible_targets, vec![2]);
    assert_eq!(world.bodies[2].collision_detector.as_ref().unwrap().possible_targets, vec![]);
    detect_collision(&mut world);
    assert_eq!(world.bodies[0].collision_count(), 0);
    assert_eq!(world.bodies[1].collision_count(), 0);
    assert_eq!(world.bodies[2].collision_count(), 0);
}

#[test]
fn a_candidate_that_left_the_world_is_passed_over() {
    let mut world = World::new();
    world.spawn(moving_box(1, 0, 0, 500_000));
    world.spawn(wall(2, 40_000, 0));
    update_vertices(&mut world);
    world.bodies[0].collision_detector.as_mut().unwrap().add_possible_target(77);
    detect_collision(&mut world);
    assert!(world.bodies[0].collider.as_ref().unwrap().collisions.is_empty());
    detect_pair(&mut world, 0, 2);
    assert_eq!(world.bodies[0].collision_count(), 1);
    assert_eq!(world.bodies[1].collision_count(), 1);
}

#[test]
fn overlap_with_a_static_box_is_resolved_along_the_shorter_axis() {
    let mut world = World::new();
    world.spawn(moving_box(1, 0, 0, 500_000));
    world.spawn(wall(2, 40_000, 0));
    collision_phase(&mut world);
    let hit = Vec2::new(-10_000, 50_000);
    assert_eq!(world.bodies[0].collider.as_ref().unwrap().collisions, vec![Collision::new(2, hit)]);
    assert_eq!(world.bodies[1].collider.as_ref().unwrap().collisions, vec![Collision::new(1, hit)]);
    assert_eq!(world.bodies[0].position, Vec2::new(-10_000, 0));
    assert_eq!(world.bodies[0].linear_velocity, Some(LinearVelocity::zero()));
    assert_eq!(world.bodies[1].position, Vec2::new(40_000, 0));
    assert_eq!(world.bodies[1].linear_velocity, None);
    collision_phase(&mut world);
    assert!(world.bodies[0].collider.as_ref().unwrap().collisions.is_empty());
    assert!(world.bodies[1].collider.as_ref().unwrap().collisions.is_empty());
    assert_eq!(world.bodies[0].position, Vec2::new(-10_000, 0));
}

#[test]
fn resolution_skips_partners_that_are_gone_or_static() {
    let mut world = World::new();
    world.spawn(wall(2, 40_000, 0));
    world.spawn(moving_box(1, 0, 0, 500_000));
    world.spawn(wall(3, 0, 0));
    world.bodies[0].collide(Collision::new(99, Vec2::new(-5, 9)));
    world.bodies[0].collide(Collision::new(3, Vec2::new(-5, 9)));
    world.bodies[0].collide(Collision::new(1, Vec2::new(-7, 7)));
    world.bodies[1].collide(Collision::new(1, Vec2::new(100, 1)));
    assert_eq!(locate_movable(&world, 1), Some(1));
    assert_eq!(locate_movable(&world, 3), None);
    assert_eq!(locate_movable(&world, 99), None);
    handle_static_body_collisions(&mut world);
    assert_eq!(world.bodies[1].position, Vec2::new(0, 7));
    assert_eq!(world.bodies[1].linear_velocity, Some(LinearVelocity::zero()));
    assert_eq!(world.bodies[2].position, Vec2::zero());
    assert_eq!(world.bodies[0].position, Vec2::new(40_000, 0));
    resolve_collision(&mut world, Collision::new(1, Vec2::new(-3, 4)));
    assert_eq!(world.bodies[1].position, Vec2::new(-3, 7));
    world.bodies[1].push_out(Vec2::new(i64::MIN, i64::MAX));
    assert_eq!(world.bodies[1].position, Vec2::new(-3, i64::MAX));
}
