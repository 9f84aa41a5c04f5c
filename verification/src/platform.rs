use vstd::prelude::*;
use crate::config::{dt_used, Config, DT_CAP, UNIT, VEL_LIMIT};
use crate::enemy::patrol_flip;
use crate::world::{scaled_delta, vel_to_delta, Body, Solid, World};

verus! {

/// The moving platform: a solid body with a signed horizontal speed. It is
/// the only body whose movement passively displaces other bodies.
pub struct Platform {
    pub collider: Solid,
    pub speed: i64,
}

impl Platform {
    /// Machine-limit bound on the speed.
    pub open spec fn wf(self) -> bool {
        -2 * VEL_LIMIT <= self.speed <= 2 * VEL_LIMIT
    }

    /// Creates the platform: a 32 x 8 solid at its spawn point, moving right.
    pub fn init(world: &mut World, cfg: &Config) -> (p: Platform)
        requires
            old(world).wf(),
            cfg.wf(),
        ensures
            final(world).wf(),
            p.collider.0 == old(world).solids@.len(),
            final(world).valid_solid(p.collider),
            final(world).solids@ == old(world).solids@.push(
                Body { x: 170_000i64, y: 130_000i64, w: 32_000i64, h: 8_000i64 }),
            final(world).actors@ == old(world).actors@,
            final(world).tiles@ == old(world).tiles@,
            final(world).tile_size == old(world).tile_size,
            final(world).grid_width == old(world).grid_width,
            p.speed == cfg.platform_speed,
            p.wf(),
    {
        let collider = world.add_solid(170_000, 130_000, 32_000, 8_000);
        Platform { collider, speed: cfg.platform_speed }
    }
}

/// One frame of the platform patrol: move the solid by the elapsed time,
/// carrying any actor resting on or overlapping it, then flip the speed at a
/// bound contact of the new position.
pub fn update_platform(world: &mut World, platform: &mut Platform, dt: i64, cfg: &Config)
    requires
        old(world).wf(),
        cfg.wf(),
        old(world).valid_solid(old(platform).collider),
        old(platform).wf(),
        dt <= DT_CAP,
    ensures
        final(world).wf(),
        final(platform).wf(),
        final(platform).collider == old(platform).collider,
        ({
            let s = old(platform).collider.0 as int;
            let d = dt_used(dt);
            let w0 = *old(world);
            &&& w0.solid_moved(*final(world), s,
                vel_to_delta(old(platform).speed as int, d), 0)
            &&& final(platform).speed as int == patrol_flip(
                final(world).solids@[s].x as int, old(platform).speed as int,
                cfg.platform_left as int, cfg.platform_right as int)
        }),
{
    let d: i64 = if dt < 0 {
        0
    } else {
        dt
    };
    let dx = scaled_delta(platform.speed, d);
    world.solid_move(platform.collider, dx, 0);
    let pos = world.solid_pos(platform.collider);
    if platform.speed > UNIT && pos.0 >= cfg.platform_right {
        platform.speed = -platform.speed;
    }
    if platform.speed < -UNIT && pos.0 <= cfg.platform_left {
        platform.speed = -platform.speed;
    }
}

} // verus!
