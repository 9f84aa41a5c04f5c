use vstd::prelude::*;
use crate::config::{dt_used, Config, DT_CAP, UNIT, VEL_LIMIT};
use crate::world::{lemma_v_sweep_same_geometry, scaled_delta, vel_to_delta, Actor, Body, Vec2,
    World};

verus! {

/// The patrolling enemy: a kinetic body plus a decorative health counter
/// (no damage path is wired; the value is carried unchanged).
pub struct Enemy {
    pub collider: Actor,
    pub speed: Vec2,
    pub health: i32,
}

/// The bounded-oscillation rule shared by the enemy and the platform: the
/// horizontal speed is negated when the body moves right at or beyond the
/// right bound, or left at or beyond the left bound. Speeds of magnitude at
/// most one unit per second never flip.
pub open spec fn patrol_flip(pos: int, v: int, left: int, right: int) -> int {
    let v1: int = if v > UNIT && pos >= right {
        -v
    } else {
        v
    };
    if v1 < -UNIT && pos <= left {
        -v1
    } else {
        v1
    }
}

impl Enemy {
    /// Machine-limit bounds on the speed components.
    pub open spec fn wf(self) -> bool {
        &&& -2 * VEL_LIMIT <= self.speed.x <= 2 * VEL_LIMIT
        &&& -2 * VEL_LIMIT <= self.speed.y <= 2 * VEL_LIMIT
    }

    /// Creates the enemy: an 8 x 8 actor at its spawn point, walking right.
    pub fn init(world: &mut World, cfg: &Config) -> (e: Enemy)
        requires
            old(world).wf(),
            cfg.wf(),
        ensures
            final(world).wf(),
            e.collider.0 == old(world).actors@.len(),
            final(world).valid_actor(e.collider),
            final(world).actors@ == old(world).actors@.push(
                Body { x: 80_000i64, y: 112_000i64, w: 8_000i64, h: 8_000i64 }),
            final(world).solids@ == old(world).solids@,
            final(world).tiles@ == old(world).tiles@,
            final(world).tile_size == old(world).tile_size,
            final(world).grid_width == old(world).grid_width,
            e.speed == (Vec2 { x: cfg.enemy_speed, y: 0i64 }),
            e.health == 3,
            e.wf(),
    {
        let collider = world.add_actor(80_000, 112_000, 8_000, 8_000);
        Enemy { collider, speed: Vec2 { x: cfg.enemy_speed, y: 0 }, health: 3 }
    }
}

/// One frame of the enemy patrol: flip the speed at a bound contact, then
/// sweep horizontally and vertically by the elapsed time.
pub fn update_enemy(world: &mut World, enemy: &mut Enemy, dt: i64, cfg: &Config)
    requires
        old(world).wf(),
        cfg.wf(),
        old(world).valid_actor(old(enemy).collider),
        old(enemy).wf(),
        dt <= DT_CAP,
    ensures
        final(world).wf(),
        final(enemy).wf(),
        final(enemy).collider == old(enemy).collider,
        final(enemy).health == old(enemy).health,
        final(enemy).speed.y == old(enemy).speed.y,
        ({
            let a = old(enemy).collider.0 as int;
            let d = dt_used(dt);
            let w0 = *old(world);
            let eb = w0.actors@[a];
            let vx = patrol_flip(eb.x as int, old(enemy).speed.x as int,
                cfg.enemy_left as int, cfg.enemy_right as int);
            &&& final(enemy).speed.x as int == vx
            &&& w0.unchanged_except_actor(*final(world), a)
            &&& w0.h_sweep(eb.w as int, eb.h as int, eb.x as int, eb.y as int,
                vel_to_delta(vx, d), final(world).actors@[a].x as int)
            &&& w0.v_sweep(eb.w as int, eb.h as int, final(world).actors@[a].x as int,
                eb.y as int, vel_to_delta(old(enemy).speed.y as int, d),
                final(world).actors@[a].y as int)
        }),
{
    let d: i64 = if dt < 0 {
        0
    } else {
        dt
    };
    let pos = world.actor_pos(enemy.collider);
    if enemy.speed.x > UNIT && pos.0 >= cfg.enemy_right {
        enemy.speed.x = -enemy.speed.x;
    }
    if enemy.speed.x < -UNIT && pos.0 <= cfg.enemy_left {
        enemy.speed.x = -enemy.speed.x;
    }
    let dx = scaled_delta(enemy.speed.x, d);
    let dy = scaled_delta(enemy.speed.y, d);
    world.move_h(enemy.collider, dx);
    let ghost mid: World = *world;
    world.move_v(enemy.collider, dy);
    proof {
        let a = enemy.collider.0 as int;
        let eb = old(world).actors@[a];
        lemma_v_sweep_same_geometry(mid, *old(world), eb.w as int, eb.h as int,
            world.actors@[a].x as int, eb.y as int, dy as int, world.actors@[a].y as int);
    }
}

} // verus!
