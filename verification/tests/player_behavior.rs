use platformer_core::config::Config;
use platformer_core::enemy::Enemy;
use platformer_core::player::{update_player, Clinging, InAir, Input, Player, Stance};
use platformer_core::world::{Vec2, World};

fn no_input() -> Input {
    Input { left_held: false, right_held: false, jump_pressed: false, jump_held: false }
}

/// A world with a floor slab spanning the test area, a far-away enemy actor,
/// and a player actor standing on the floor.
fn ground_setup() -> (World, Player, Enemy, Config) {
    let cfg = Config::standard();
    let mut world = World::new();
    world.add_solid(-100_000, 112_000, 600_000, 8_000);
    let mut player = Player::init(&mut world, &cfg);
    let far = world.add_actor(500_000, 0, 8_000, 8_000);
    let enemy = Enemy { collider: far, speed: Vec2 { x: 0, y: 0 }, health: 3 };
    player.stance = Stance::OnGround;
    (world, player, enemy, cfg)
}

#[test]
fn init_values() {
    let cfg = Config::standard();
    let mut world = World::new();
    let player = Player::init(&mut world, &cfg);
    assert_eq!(world.actor_pos(player.collider), (50_000, 104_000));
    assert_eq!(world.actor_size(player.collider), (8_000, 8_000));
    assert_eq!(player.stance, Stance::InAir(InAir::Falling));
    assert_eq!(player.jumps_left, 2);
    assert_eq!(player.speed, Vec2 { x: 0, y: 0 });
    assert_eq!(player.hang_before_cling, 0);
    assert_eq!(player.atk_cool_dn, 0);
}

#[test]
fn standard_config_values() {
    let cfg = Config::standard();
    assert_eq!(cfg.max_jumps, 2);
    assert_eq!(cfg.gravity, 500_000);
    assert_eq!(cfg.jump_speed, 120_000);
    assert_eq!(cfg.run_speed, 100_000);
    assert_eq!(cfg.clamp_min, -500_000);
    assert_eq!(cfg.clamp_max, 200_000);
    assert_eq!(cfg.hang_time, 0);
}

#[test]
fn jump_from_ground_launches() {
    let (mut world, mut player, enemy, cfg) = ground_setup();
    let input = Input { jump_pressed: true, jump_held: true, ..no_input() };
    update_player(&mut world, &mut player, &enemy, &input, 16, &cfg);
    assert_eq!(player.stance, Stance::InAir(InAir::Jumping));
    assert_eq!(player.jumps_left, 1);
    assert_eq!(player.speed.y, -120_000);
}

#[test]
fn on_ground_is_idempotent() {
    let (mut world, mut player, enemy, cfg) = ground_setup();
    let input = no_input();
    let pos0 = world.actor_pos(player.collider);
    for _ in 0..5 {
        update_player(&mut world, &mut player, &enemy, &input, 16, &cfg);
        assert_eq!(player.stance, Stance::OnGround);
        assert_eq!(player.jumps_left, 2);
        assert_eq!(player.speed.y, 0);
        assert_eq!(world.actor_pos(player.collider), pos0);
    }
}

#[test]
fn falling_without_support() {
    let cfg = Config::standard();
    let mut world = World::new();
    let mut player = Player::init(&mut world, &cfg);
    let far = world.add_actor(500_000, 0, 8_000, 8_000);
    let enemy = Enemy { collider: far, speed: Vec2 { x: 0, y: 0 }, health: 3 };
    update_player(&mut world, &mut player, &enemy, &no_input(), 100, &cfg);
    assert_eq!(player.stance, Stance::InAir(InAir::Falling));
    // gravity: 500 units/s^2 for 100 ms adds 50 units/s
    assert_eq!(player.speed.y, 50_000);
    // the fall moves the body down by 50 units/s * 100 ms = 5 units
    assert_eq!(world.actor_pos(player.collider), (50_000, 109_000));
}

#[test]
fn vertical_speed_clamped_at_fall_cap() {
    let cfg = Config::standard();
    let mut world = World::new();
    let mut player = Player::init(&mut world, &cfg);
    let far = world.add_actor(500_000, 0, 8_000, 8_000);
    let enemy = Enemy { collider: far, speed: Vec2 { x: 0, y: 0 }, health: 3 };
    player.speed.y = 190_000;
    update_player(&mut world, &mut player, &enemy, &no_input(), 100, &cfg);
    // 190 + 50 = 240 units/s, clamped to the 200 units/s cap
    assert_eq!(player.speed.y, 200_000);
}

#[test]
fn double_jump_consumes_second_charge() {
    let cfg = Config::standard();
    let mut world = World::new();
    let mut player = Player::init(&mut world, &cfg);
    let far = world.add_actor(500_000, 0, 8_000, 8_000);
    let enemy = Enemy { collider: far, speed: Vec2 { x: 0, y: 0 }, health: 3 };
    player.jumps_left = 1;
    let input = Input { jump_pressed: true, jump_held: true, ..no_input() };
    update_player(&mut world, &mut player, &enemy, &input, 16, &cfg);
    assert_eq!(player.stance, Stance::InAir(InAir::Jumping));
    assert_eq!(player.jumps_left, 0);
    assert_eq!(player.speed.y, -120_000);
}

#[test]
fn no_jump_without_charge() {
    let cfg = Config::standard();
    let mut world = World::new();
    let mut player = Player::init(&mut world, &cfg);
    let far = world.add_actor(500_000, 0, 8_000, 8_000);
    let enemy = Enemy { collider: far, speed: Vec2 { x: 0, y: 0 }, health: 3 };
    player.jumps_left = 0;
    let input = Input { jump_pressed: true, jump_held: true, ..no_input() };
    update_player(&mut world, &mut player, &enemy, &input, 16, &cfg);
    assert_eq!(player.stance, Stance::InAir(InAir::Falling));
    assert_eq!(player.jumps_left, 0);
}

#[test]
fn wall_press_engages_precling_then_cling() {
    let cfg = Config::standard();
    let mut world = World::new();
    // wall immediately to the right of the player's spawn box
    world.add_solid(58_000, 80_000, 8_000, 60_000);
    let mut player = Player::init(&mut world, &cfg);
    let input = Input { right_held: true, ..no_input() };
    let next = Player::transition(&world, &input, 16, &cfg, &mut player);
    assert_eq!(next, Stance::Clinging(Clinging::PreCling));
    player.stance = next;
    let next2 = Player::transition(&world, &input, 16, &cfg, &mut player);
    assert_eq!(next2, Stance::Clinging(Clinging::Right));
}

#[test]
fn positive_hang_time_delays_cling() {
    let mut cfg = Config::standard();
    cfg.hang_time = 100;
    let mut world = World::new();
    world.add_solid(58_000, 80_000, 8_000, 60_000);
    let mut player = Player::init(&mut world, &cfg);
    assert_eq!(player.hang_before_cling, 100);
    let input = Input { right_held: true, ..no_input() };
    let next = Player::transition(&world, &input, 16, &cfg, &mut player);
    // the press only ticks the timer down; no cling yet
    assert_eq!(next, Stance::InAir(InAir::Falling));
    assert_eq!(player.hang_before_cling, 84);
}

#[test]
fn wall_jump_pushes_off_right_wall() {
    let cfg = Config::standard();
    let mut world = World::new();
    world.add_solid(58_000, 80_000, 8_000, 60_000);
    let mut player = Player::init(&mut world, &cfg);
    let far = world.add_actor(500_000, 0, 8_000, 8_000);
    let enemy = Enemy { collider: far, speed: Vec2 { x: 0, y: 0 }, health: 3 };
    player.stance = Stance::Clinging(Clinging::Right);
    let input = Input { jump_pressed: true, jump_held: true, ..no_input() };
    update_player(&mut world, &mut player, &enemy, &input, 16, &cfg);
    assert_eq!(player.stance, Stance::InAir(InAir::Jumping));
    // no direction held: the final horizontal speed is exactly the -100
    // units/s push-off impulse
    assert_eq!(player.speed.x, -100_000);
    assert_eq!(player.speed.y, -120_000);
    assert_eq!(player.jumps_left, 1);
}

#[test]
fn clinging_grips_and_restores_charges() {
    let cfg = Config::standard();
    let mut world = World::new();
    world.add_solid(58_000, 80_000, 8_000, 60_000);
    let mut player = Player::init(&mut world, &cfg);
    let far = world.add_actor(500_000, 0, 8_000, 8_000);
    let enemy = Enemy { collider: far, speed: Vec2 { x: 0, y: 0 }, health: 3 };
    player.stance = Stance::Clinging(Clinging::Right);
    player.jumps_left = 0;
    player.speed = Vec2 { x: 50_000, y: 90_000 };
    let input = Input { right_held: true, ..no_input() };
    update_player(&mut world, &mut player, &enemy, &input, 16, &cfg);
    assert_eq!(player.stance, Stance::Clinging(Clinging::Right));
    assert_eq!(player.speed, Vec2 { x: 0, y: 0 });
    assert_eq!(player.jumps_left, 2);
}

#[test]
fn enemy_overlap_forces_bounce() {
    let cfg = Config::standard();
    let mut world = World::new();
    let mut player = Player::init(&mut world, &cfg);
    // enemy box overlapping the player's spawn box
    let near = world.add_actor(54_000, 104_000, 8_000, 8_000);
    let enemy = Enemy { collider: near, speed: Vec2 { x: 0, y: 0 }, health: 3 };
    player.speed.y = 150_000;
    update_player(&mut world, &mut player, &enemy, &no_input(), 0, &cfg);
    // zero elapsed time: gravity adds nothing, so the forced bounce survives
    assert_eq!(player.speed.y, -120_000);
    assert_eq!(player.stance, Stance::InAir(InAir::Falling));
}

#[test]
fn held_direction_sets_base_speed() {
    let (mut world, mut player, enemy, cfg) = ground_setup();
    let input = Input { right_held: true, ..no_input() };
    update_player(&mut world, &mut player, &enemy, &input, 10, &cfg);
    assert_eq!(player.speed.x, 100_000);
    // 100 units/s for 10 ms moves one unit right
    assert_eq!(world.actor_pos(player.collider), (51_000, 104_000));
    let input_l = Input { left_held: true, ..no_input() };
    update_player(&mut world, &mut player, &enemy, &input_l, 10, &cfg);
    assert_eq!(player.speed.x, -100_000);
    assert_eq!(world.actor_pos(player.collider), (50_000, 104_000));
}

#[test]
fn negative_elapsed_time_is_clamped() {
    let (mut world, mut player, enemy, cfg) = ground_setup();
    let pos0 = world.actor_pos(player.collider);
    let input = Input { right_held: true, ..no_input() };
    update_player(&mut world, &mut player, &enemy, &input, -50, &cfg);
    assert_eq!(world.actor_pos(player.collider), pos0);
    assert_eq!(player.stance, Stance::OnGround);
}

#[test]
fn attack_cooldown_carried_unchanged() {
    let (mut world, mut player, enemy, cfg) = ground_setup();
    player.atk_cool_dn = 700;
    update_player(&mut world, &mut player, &enemy, &no_input(), 16, &cfg);
    assert_eq!(player.atk_cool_dn, 700);
}
