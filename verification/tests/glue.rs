use arcade_physics::camera::{control_camera_movement, margin_of};
use arcade_physics::physics::body::World;
use arcade_physics::physics::collision::StaticBody;
use arcade_physics::physics::movement::{LinearForceFactor, LinearFriction, LinearMaxVelocity};
use arcade_physics::physics::movement::LinearVelocity;
use arcade_physics::player::{axis_of, control_player_movement, spawn_player};
use arcade_physics::terrain::generate_terrain;
use arcade_physics::vec2::Vec2;

#[test]
fn margin_is_a_share_of_the_view_but_never_narrow() {
    assert_eq!(margin_of(1_280_000), 448_000);
    assert_eq!(margin_of(720_000), 252_000);
    assert_eq!(margin_of(200_000), 100_000);
    assert_eq!(margin_of(-5), 100_000);
}

#[test]
fn camera_follows_a_player_beyond_the_margins() {
    let mut velocity = LinearVelocity::new(Vec2::new(1, 1), Vec2::new(7, 8));
    control_camera_movement(&mut velocity, 1_280_000, 720_000, Vec2::new(1_000_000, 100_000));
    assert_eq!(velocity.value, Vec2::new(504_000, 456_000));
    assert_eq!(velocity.force, Vec2::new(7, 8));

    control_camera_movement(&mut velocity, 1_280_000, 720_000, Vec2::new(100_000, 700_000));
    assert_eq!(velocity.value, Vec2::new(-1_044_000, -696_000));

    control_camera_movement(&mut velocity, 1_280_000, 720_000, Vec2::new(640_000, 360_000));
    assert_eq!(velocity.value, Vec2::zero());

    control_camera_movement(&mut velocity, 100_000, 100_000, Vec2::new(50_000, 50_000));
    assert_eq!(velocity.value, Vec2::zero());

    control_camera_movement(&mut velocity, 200_000, 200_000, Vec2::new(150_000, 150_000));
    assert_eq!(velocity.value, Vec2::new(150_000, -150_000));
}

#[test]
fn controls_push_with_the_same_force_in_every_direction() {
    assert_eq!(axis_of(true, false), 300_000);
    assert_eq!(axis_of(false, true), -300_000);
    assert_eq!(axis_of(true, true), 0);
    assert_eq!(axis_of(false, false), 0);

    let mut v = LinearVelocity::new(Vec2::new(5, 5), Vec2::new(10, 20));
    control_player_movement(&mut v, false, false, true, false);
    assert_eq!(v, LinearVelocity::new(Vec2::new(5, 5), Vec2::new(300_010, 20)));

    let mut w = LinearVelocity::zero();
    control_player_movement(&mut w, true, false, false, true);
    assert_eq!(w.force, Vec2::new(-212_131, 212_131));

    let mut still = LinearVelocity::zero();
    control_player_movement(&mut still, true, true, false, false);
    assert_eq!(still, LinearVelocity::zero());

    let mut down = LinearVelocity::zero();
    control_player_movement(&mut down, false, true, true, true);
    assert_eq!(down.force, Vec2::new(0, -300_000));
}

#[test]
fn the_player_enters_with_its_parts_and_the_boundary_with_two() {
    let mut world = World::new();
    spawn_player(&mut world, 4, 9);
    assert_eq!(world.len(), 2);
    let player = &world.bodies[0];
    assert_eq!(player.entity, 4);
    assert_eq!(player.position, Vec2::zero());
    assert_eq!(player.linear_velocity, Some(LinearVelocity::zero()));
    assert_eq!(player.linear_max_velocity, Some(LinearMaxVelocity::new(500_000)));
    assert_eq!(player.linear_force_factor, Some(LinearForceFactor::splat(Vec2::new(5000, 15_000))));
    assert_eq!(player.linear_friction, Some(LinearFriction::new(Vec2::splat(500_000))));
    assert_eq!(player.angular_velocity, None);
    assert_eq!(player.collider.as_ref().unwrap().size, (Vec2::splat(25_000), Vec2::splat(-25_000)));
    assert_eq!(player.collision_detector.as_ref().unwrap().range, 500_000);
    assert_eq!(player.static_body, None);
    let wall = &world.bodies[1];
    assert_eq!(wall.entity, 9);
    assert_eq!(wall.static_body, Some(StaticBody));
    assert_eq!(wall.collider.as_ref().unwrap().size, (Vec2::splat(25_000), Vec2::splat(-25_000)));
    assert_eq!(wall.linear_velocity, None);
    assert!(wall.collision_detector.is_none());
}

#[test]
fn terrain_is_a_centred_grid_of_coloured_tiles() {
    let tiles = generate_terrain();
    assert_eq!(tiles.len(), 49);
    assert_eq!(tiles[0].position, Vec2::new(-600_000, -600_000));
    assert_eq!(tiles[1].position, Vec2::new(-600_000, -400_000));
    assert_eq!(tiles[7].position, Vec2::new(-400_000, -600_000));
    assert_eq!(tiles[24].position, Vec2::zero());
    assert_eq!(tiles[48].position, Vec2::new(600_000, 600_000));
    let mut seen = [false; 4];
    for _ in 0..20 {
        for tile in generate_terrain() {
            assert!(tile.color < 4);
            seen[tile.color] = true;
        }
    }
    assert_eq!(seen, [true; 4]);
}
