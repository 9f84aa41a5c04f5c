use platformer_core::config::Config;
use platformer_core::enemy::{update_enemy, Enemy};
use platformer_core::platform::{update_platform, Platform};
use platformer_core::world::{Vec2, World};

#[test]
fn tile_layer_probe() {
    let mut world = World::new();
    // one row of three tiles: solid, empty, solid; tiles are 8 units square
    world.add_static_tiled_layer(vec![true, false, true], 8_000, 3);
    let a = world.add_actor(8_500, -8_000, 8_000, 8_000);
    // fully above the tile row: nothing to hit
    assert!(world.collide_check(a, 8_500, -8_500) == false);
    // into the row, offset so the box spans into the third tile's column
    assert!(world.collide_check(a, 8_500, 500));
    // fully inside the middle (empty) column: an 8-wide box fits only at x=8000
    assert!(world.collide_check(a, 8_000, 500) == false);
    // over the first (solid) tile
    assert!(world.collide_check(a, 0, 500));
}

#[test]
fn horizontal_sweep_stops_at_wall() {
    let mut world = World::new();
    world.add_solid(20_000, 0, 8_000, 8_000);
    let a = world.add_actor(0, 0, 8_000, 8_000);
    world.move_h(a, 50_000);
    // the sweep stops with the actor's right edge against the wall
    assert_eq!(world.actor_pos(a), (12_000, 0));
    // moving away is unobstructed and consumes the full distance
    world.move_h(a, -5_000);
    assert_eq!(world.actor_pos(a), (7_000, 0));
}

#[test]
fn vertical_sweep_stops_at_floor() {
    let mut world = World::new();
    world.add_solid(-10_000, 30_000, 100_000, 8_000);
    let a = world.add_actor(0, 0, 8_000, 8_000);
    world.move_v(a, 99_000);
    assert_eq!(world.actor_pos(a), (0, 22_000));
    world.move_v(a, -1_000);
    assert_eq!(world.actor_pos(a), (0, 21_000));
}

#[test]
fn sweep_without_obstacle_travels_fully() {
    let mut world = World::new();
    let a = world.add_actor(0, 0, 8_000, 8_000);
    world.move_h(a, 123_456);
    world.move_v(a, -789);
    assert_eq!(world.actor_pos(a), (123_456, -789));
}

#[test]
fn solid_carries_resting_actor() {
    let mut world = World::new();
    let s = world.add_solid(10_000, 50_000, 32_000, 8_000);
    // resting exactly on the solid's top edge
    let rider = world.add_actor(20_000, 42_000, 8_000, 8_000);
    let bystander = world.add_actor(100_000, 42_000, 8_000, 8_000);
    world.solid_move(s, 5_000, 0);
    assert_eq!(world.solid_pos(s), (15_000, 50_000));
    assert_eq!(world.actor_pos(rider), (25_000, 42_000));
    assert_eq!(world.actor_pos(bystander), (100_000, 42_000));
}

#[test]
fn enemy_init_values() {
    let cfg = Config::standard();
    let mut world = World::new();
    let enemy = Enemy::init(&mut world, &cfg);
    assert_eq!(world.actor_pos(enemy.collider), (80_000, 112_000));
    assert_eq!(enemy.speed, Vec2 { x: 30_000, y: 0 });
    assert_eq!(enemy.health, 3);
}

#[test]
fn enemy_flips_once_at_right_bound() {
    let cfg = Config::standard();
    let mut world = World::new();
    let a = world.add_actor(104_000, 112_000, 8_000, 8_000);
    let mut enemy = Enemy { collider: a, speed: Vec2 { x: 30_000, y: 0 }, health: 3 };
    update_enemy(&mut world, &mut enemy, 16, &cfg);
    // 30 units/s for 16 ms moves 0.48 units, leftward after the flip
    assert_eq!(enemy.speed.x, -30_000);
    assert_eq!(world.actor_pos(a), (103_520, 112_000));
    // still near the right bound, but now moving left: no second flip
    update_enemy(&mut world, &mut enemy, 16, &cfg);
    assert_eq!(enemy.speed.x, -30_000);
    assert_eq!(world.actor_pos(a), (103_040, 112_000));
}

#[test]
fn enemy_flips_at_left_bound() {
    let cfg = Config::standard();
    let mut world = World::new();
    let a = world.add_actor(80_000, 112_000, 8_000, 8_000);
    let mut enemy = Enemy { collider: a, speed: Vec2 { x: -30_000, y: 0 }, health: 3 };
    update_enemy(&mut world, &mut enemy, 16, &cfg);
    assert_eq!(enemy.speed.x, 30_000);
    assert_eq!(world.actor_pos(a), (80_480, 112_000));
}

#[test]
fn enemy_between_bounds_keeps_speed() {
    let cfg = Config::standard();
    let mut world = World::new();
    let a = world.add_actor(90_000, 112_000, 8_000, 8_000);
    let mut enemy = Enemy { collider: a, speed: Vec2 { x: 30_000, y: 0 }, health: 3 };
    update_enemy(&mut world, &mut enemy, 100, &cfg);
    assert_eq!(enemy.speed.x, 30_000);
    assert_eq!(world.actor_pos(a), (93_000, 112_000));
}

#[test]
fn platform_init_values() {
    let cfg = Config::standard();
    let mut world = World::new();
    let platform = Platform::init(&mut world, &cfg);
    assert_eq!(world.solid_pos(platform.collider), (170_000, 130_000));
    assert_eq!(platform.speed, 50_000);
}

#[test]
fn platform_flips_after_crossing_right_bound() {
    let cfg = Config::standard();
    let mut world = World::new();
    let mut platform = Platform::init(&mut world, &cfg);
    // place it just short of the right bound
    world.solid_move(platform.collider, 49_900, 0);
    assert_eq!(world.solid_pos(platform.collider), (219_900, 130_000));
    // 50 units/s for 16 ms moves 0.8 units, crossing the bound; the flip
    // happens after the move, on the new position
    update_platform(&mut world, &mut platform, 16, &cfg);
    assert_eq!(world.solid_pos(platform.collider), (220_700, 130_000));
    assert_eq!(platform.speed, -50_000);
    // moving left now: no second flip while lingering past the bound
    update_platform(&mut world, &mut platform, 16, &cfg);
    assert_eq!(world.solid_pos(platform.collider), (219_900, 130_000));
    assert_eq!(platform.speed, -50_000);
}

#[test]
fn platform_carries_rider_by_frame_delta() {
    let cfg = Config::standard();
    let mut world = World::new();
    let mut platform = Platform::init(&mut world, &cfg);
    // resting on the platform's top edge at y = 130: an 8-tall box at 122
    let rider = world.add_actor(180_000, 122_000, 8_000, 8_000);
    update_platform(&mut world, &mut platform, 100, &cfg);
    // 50 units/s for 100 ms: both displaced by 5 units
    assert_eq!(world.solid_pos(platform.collider), (175_000, 130_000));
    assert_eq!(world.actor_pos(rider), (185_000, 122_000));
}
