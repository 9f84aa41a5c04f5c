use vstd::prelude::*;
use crate::config::{dt_used, Config, DT_CAP, TIMER_LIMIT, UNIT, VEL_LIMIT};
use crate::enemy::Enemy;
use crate::world::{boxes_overlap, scaled_delta, lemma_v_sweep_same_geometry, Actor, Body, Vec2,
    World};

verus! {

/// The wall-cling sub-states: the grace period before a cling engages, and
/// an engaged cling on a left or right wall.
#[derive(Clone, Copy, Debug, PartialEq, Eq, Structural)]
pub enum Clinging {
    PreCling,
    Left,
    Right,
}

/// The airborne sub-states.
#[derive(Clone, Copy, Debug, PartialEq, Eq, Structural)]
pub enum InAir {
    Falling,
    Jumping,
}

/// The player's motion state: exactly one variant is active per frame.
#[derive(Clone, Copy, Debug, PartialEq, Eq, Structural)]
pub enum Stance {
    Clinging(Clinging),
    OnGround,
    InAir(InAir),
}

/// The logical input state of one frame. `jump_pressed` is edge-triggered:
/// true only on the frame the action began.
#[derive(Clone, Copy, Debug, PartialEq, Eq, Structural)]
pub struct Input {
    pub left_held: bool,
    pub right_held: bool,
    pub jump_pressed: bool,
    pub jump_held: bool,
}

/// The controllable character: a kinetic body plus the stance machine's
/// counters. `atk_cool_dn` is reserved for an attack action and is carried
/// through every update unchanged.
pub struct Player {
    pub collider: Actor,
    pub stance: Stance,
    pub speed: Vec2,
    pub jumps_left: i32,
    pub hang_before_cling: i64,
    pub atk_cool_dn: i64,
}

/// One-step-ahead probe below the actor: its box moved down one unit.
pub open spec fn probe_below(w: World, a: int) -> bool {
    w.blocked(w.actors@[a].x as int, w.actors@[a].y as int + UNIT as int,
        w.actors@[a].w as int, w.actors@[a].h as int)
}

/// One-step-ahead probe to the left of the actor.
pub open spec fn probe_left(w: World, a: int) -> bool {
    w.blocked(w.actors@[a].x as int - UNIT as int, w.actors@[a].y as int,
        w.actors@[a].w as int, w.actors@[a].h as int)
}

/// One-step-ahead probe to the right of the actor.
pub open spec fn probe_right(w: World, a: int) -> bool {
    w.blocked(w.actors@[a].x as int + UNIT as int, w.actors@[a].y as int,
        w.actors@[a].w as int, w.actors@[a].h as int)
}

/// One tick of the hang timer: `d` milliseconds are subtracted, saturating
/// at `-TIMER_LIMIT` (only the timer's sign is ever read).
pub open spec fn hang_ticked(h: int, d: int) -> int {
    if h - d < -TIMER_LIMIT {
        -TIMER_LIMIT as int
    } else {
        h - d
    }
}

/// The stance transition of one frame, as a pure function: from the current
/// stance, the three directional probes, the input, the jump and hang
/// counters and the elapsed time, it yields the next stance, the new hang
/// timer, and the horizontal impulse the transition applies (a wall push-off,
/// added onto the input-driven base speed).
pub open spec fn transition_result(
    s: Stance, below: bool, tl: bool, tr: bool, inp: Input,
    jumps: int, hang: int, d: int, cfg: Config,
) -> (Stance, int, int) {
    match s {
        Stance::OnGround => {
            if inp.jump_pressed {
                (Stance::InAir(InAir::Jumping), hang, 0)
            } else if below {
                (Stance::OnGround, hang, 0)
            } else {
                (Stance::InAir(InAir::Falling), hang, 0)
            }
        },
        Stance::InAir(_) => {
            let pressed = (tr && inp.right_held) || (tl && inp.left_held);
            if pressed && hang <= 0 {
                (Stance::Clinging(Clinging::PreCling), hang, 0)
            } else {
                let h1 = if pressed {
                    hang_ticked(hang, d)
                } else {
                    hang
                };
                if below {
                    (Stance::OnGround, cfg.hang_time as int, 0)
                } else if jumps > 0 && inp.jump_pressed {
                    let imp: int = if tl && inp.right_held {
                        cfg.wall_impulse as int
                    } else if tr && inp.left_held {
                        -cfg.wall_impulse as int
                    } else {
                        0
                    };
                    (Stance::InAir(InAir::Jumping), h1, imp)
                } else {
                    (Stance::InAir(InAir::Falling), h1, 0)
                }
            }
        },
        Stance::Clinging(c) => match c {
            Clinging::PreCling => {
                let h1 = hang_ticked(hang, d);
                if tr && inp.right_held && h1 <= 0 {
                    (Stance::Clinging(Clinging::Right), cfg.hang_time as int, 0)
                } else if tl && inp.left_held && h1 <= 0 {
                    (Stance::Clinging(Clinging::Left), cfg.hang_time as int, 0)
                } else {
                    (Stance::InAir(InAir::Falling), h1, 0)
                }
            },
            Clinging::Right => {
                if inp.jump_pressed {
                    (Stance::InAir(InAir::Jumping), hang, -cfg.wall_impulse as int)
                } else if tr && inp.right_held {
                    (Stance::Clinging(Clinging::Right), hang, 0)
                } else {
                    (Stance::InAir(InAir::Falling), hang, 0)
                }
            },
            Clinging::Left => {
                if inp.jump_pressed {
                    (Stance::InAir(InAir::Jumping), hang, cfg.wall_impulse as int)
                } else if tl && inp.left_held {
                    (Stance::Clinging(Clinging::Left), hang, 0)
                } else {
                    (Stance::InAir(InAir::Falling), hang, 0)
                }
            },
        },
    }
}

/// The input-driven base horizontal speed, assigned every frame before any
/// transition impulse is added.
pub open spec fn base_speed_x(inp: Input, cfg: Config) -> int {
    if inp.right_held {
        cfg.run_speed as int
    } else if inp.left_held {
        -cfg.run_speed as int
    } else {
        0
    }
}

/// The stance-driven velocity rules of one frame, applied after the
/// transition: from the new stance, the horizontal speed (base plus
/// impulse), the vertical speed (after any overlap bounce) and the jump
/// counter, they yield the speeds and counter after this phase.
pub open spec fn stance_velocity(
    st: Stance, x: int, y: int, jumps: int, d: int, cfg: Config,
) -> (int, int, int) {
    match st {
        Stance::OnGround => (x, 0, cfg.max_jumps as int),
        Stance::InAir(InAir::Jumping) => {
            if jumps > 0 {
                (x, -cfg.jump_speed as int, jumps - 1)
            } else {
                (x, y, jumps)
            }
        },
        Stance::InAir(InAir::Falling) => (x, y + (cfg.gravity as int * d) / (UNIT as int), jumps),
        Stance::Clinging(_) => (0, 0, cfg.max_jumps as int),
    }
}

/// The final clamp on the vertical velocity, applied every frame.
pub open spec fn clamp_y(v: int, cfg: Config) -> int {
    if v < cfg.clamp_min {
        cfg.clamp_min as int
    } else if v > cfg.clamp_max {
        cfg.clamp_max as int
    } else {
        v
    }
}

impl Player {
    /// Machine-limit bounds on the counters and speeds, plus the jump
    /// counter's range.
    pub open spec fn wf(self, cfg: Config) -> bool {
        &&& 0 <= self.jumps_left <= cfg.max_jumps
        &&& -TIMER_LIMIT <= self.hang_before_cling <= TIMER_LIMIT
        &&& -2 * VEL_LIMIT <= self.speed.x <= 2 * VEL_LIMIT
        &&& -2 * VEL_LIMIT <= self.speed.y <= 2 * VEL_LIMIT
    }

    /// Creates the player: an 8 x 8 actor falling from its spawn point, with
    /// a full set of jump charges.
    pub fn init(world: &mut World, cfg: &Config) -> (p: Player)
        requires
            old(world).wf(),
            cfg.wf(),
        ensures
            final(world).wf(),
            p.collider.0 == old(world).actors@.len(),
            final(world).valid_actor(p.collider),
            final(world).actors@ == old(world).actors@.push(
                Body { x: 50_000i64, y: 104_000i64, w: 8_000i64, h: 8_000i64 }),
            final(world).solids@ == old(world).solids@,
            final(world).tiles@ == old(world).tiles@,
            final(world).tile_size == old(world).tile_size,
            final(world).grid_width == old(world).grid_width,
            p.stance == Stance::InAir(InAir::Falling),
            p.speed == (Vec2 { x: 0i64, y: 0i64 }),
            p.jumps_left == cfg.max_jumps,
            p.hang_before_cling == cfg.hang_time,
            p.atk_cool_dn == 0,
            p.wf(*cfg),
    {
        let collider = world.add_actor(50_000, 104_000, 8_000, 8_000);
        Player {
            collider,
            stance: Stance::InAir(InAir::Falling),
            speed: Vec2 { x: 0, y: 0 },
            jumps_left: cfg.max_jumps,
            hang_before_cling: cfg.hang_time,
            atk_cool_dn: 0,
        }
    }

    /// Computes the next stance from the current stance, the world's
    /// directional probes and the frame's input, mutating the hang timer and
    /// applying any wall push-off impulse to the horizontal speed as side
    /// effects of the transition itself. The stance field is left for the
    /// caller to assign.
    pub fn transition(
        world: &World, input: &Input, dt: i64, cfg: &Config, player: &mut Player,
    ) -> (next: Stance)
        requires
            world.wf(),
            cfg.wf(),
            world.valid_actor(old(player).collider),
            old(player).wf(*cfg),
            0 <= dt <= DT_CAP,
        ensures
            ({
                let a = old(player).collider.0 as int;
                let o = transition_result(old(player).stance, probe_below(*world, a),
                    probe_left(*world, a), probe_right(*world, a), *input,
                    old(player).jumps_left as int, old(player).hang_before_cling as int,
                    dt as int, *cfg);
                &&& next == o.0
                &&& final(player).hang_before_cling as int == o.1
                &&& final(player).speed.x as int == old(player).speed.x as int + o.2
            }),
            final(player).speed.y == old(player).speed.y,
            final(player).stance == old(player).stance,
            final(player).jumps_left == old(player).jumps_left,
            final(player).collider == old(player).collider,
            final(player).atk_cool_dn == old(player).atk_cool_dn,
            -TIMER_LIMIT <= final(player).hang_before_cling <= TIMER_LIMIT,
            -3 * VEL_LIMIT <= final(player).speed.x <= 3 * VEL_LIMIT,
    {
        let pos = world.actor_pos(player.collider);
        proof {
            assert(crate::world::body_wf(world.actors@[player.collider.0 as int]));
        }
        let below = world.collide_check(player.collider, pos.0, pos.1 + UNIT);
        let tr = world.collide_check(player.collider, pos.0 + UNIT, pos.1);
        let tl = world.collide_check(player.collider, pos.0 - UNIT, pos.1);
        match player.stance {
            Stance::OnGround => {
                if input.jump_pressed {
                    Stance::InAir(InAir::Jumping)
                } else if below {
                    Stance::OnGround
                } else {
                    Stance::InAir(InAir::Falling)
                }
            },
            Stance::InAir(_) => {
                let pressed = (tr && input.right_held) || (tl && input.left_held);
                if pressed && player.hang_before_cling <= 0 {
                    Stance::Clinging(Clinging::PreCling)
                } else {
                    if pressed {
                        player.hang_before_cling = hang_tick(player.hang_before_cling, dt);
                    }
                    if below {
                        player.hang_before_cling = cfg.hang_time;
                        Stance::OnGround
                    } else if player.jumps_left > 0 && input.jump_pressed {
                        if tl && input.right_held {
                            player.speed.x = player.speed.x + cfg.wall_impulse;
                        } else if tr && input.left_held {
                            player.speed.x = player.speed.x - cfg.wall_impulse;
                        }
                        Stance::InAir(InAir::Jumping)
                    } else {
                        Stance::InAir(InAir::Falling)
                    }
                }
            },
            Stance::Clinging(c) => match c {
                Clinging::PreCling => {
                    player.hang_before_cling = hang_tick(player.hang_before_cling, dt);
                    if tr && input.right_held && player.hang_before_cling <= 0 {
                        player.hang_before_cling = cfg.hang_time;
                        Stance::Clinging(Clinging::Right)
                    } else if tl && input.left_held && player.hang_before_cling <= 0 {
                        player.hang_before_cling = cfg.hang_time;
                        Stance::Clinging(Clinging::Left)
                    } else {
                        Stance::InAir(InAir::Falling)
                    }
                },
                Clinging::Right => {
                    if input.jump_pressed {
                        player.speed.x = player.speed.x - cfg.wall_impulse;
                        Stance::InAir(InAir::Jumping)
                    } else if tr && input.right_held {
                        Stance::Clinging(Clinging::Right)
                    } else {
                        Stance::InAir(InAir::Falling)
                    }
                },
                Clinging::Left => {
                    if input.jump_pressed {
                        player.speed.x = player.speed.x + cfg.wall_impulse;
                        Stance::InAir(InAir::Jumping)
                    } else if tl && input.left_held {
                        Stance::Clinging(Clinging::Left)
                    } else {
                        Stance::InAir(InAir::Falling)
                    }
                },
            },
        }
    }
}

/// One frame of the player: overlap bounce against the enemy, base
/// horizontal speed from input, stance transition, stance-driven velocity
/// rules, vertical clamp, then the horizontal and vertical sweeps.
pub fn update_player(
    world: &mut World, player: &mut Player, enemy: &Enemy, input: &Input, dt: i64, cfg: &Config,
)
    requires
        old(world).wf(),
        cfg.wf(),
        old(world).valid_actor(old(player).collider),
        old(world).valid_actor(enemy.collider),
        old(player).wf(*cfg),
        dt <= DT_CAP,
    ensures
        final(world).wf(),
        final(player).wf(*cfg),
        ({
            let a = old(player).collider.0 as int;
            let e = enemy.collider.0 as int;
            let d = dt_used(dt);
            let w0 = *old(world);
            let pb = w0.actors@[a];
            let eb = w0.actors@[e];
            let y0: int = if boxes_overlap(pb.x as int, pb.y as int, pb.w as int, pb.h as int,
                eb.x as int, eb.y as int, eb.w as int, eb.h as int) {
                -cfg.bounce_speed as int
            } else {
                old(player).speed.y as int
            };
            let o = transition_result(old(player).stance, probe_below(w0, a),
                probe_left(w0, a), probe_right(w0, a), *input,
                old(player).jumps_left as int, old(player).hang_before_cling as int, d, *cfg);
            let x1 = base_speed_x(*input, *cfg) + o.2;
            let sv = stance_velocity(o.0, x1, y0, old(player).jumps_left as int, d, *cfg);
            let y3 = clamp_y(sv.1, *cfg);
            &&& final(player).stance == o.0
            &&& final(player).hang_before_cling as int == o.1
            &&& final(player).speed.x as int == sv.0
            &&& final(player).speed.y as int == y3
            &&& final(player).jumps_left as int == sv.2
            &&& final(player).collider == old(player).collider
            &&& final(player).atk_cool_dn == old(player).atk_cool_dn
            &&& cfg.clamp_min <= final(player).speed.y <= cfg.clamp_max
            &&& w0.unchanged_except_actor(*final(world), a)
            &&& w0.h_sweep(pb.w as int, pb.h as int, pb.x as int, pb.y as int,
                crate::world::vel_to_delta(sv.0, d), final(world).actors@[a].x as int)
            &&& w0.v_sweep(pb.w as int, pb.h as int, final(world).actors@[a].x as int,
                pb.y as int, crate::world::vel_to_delta(y3, d),
                final(world).actors@[a].y as int)
        }),
{
    let d: i64 = if dt < 0 {
        0
    } else {
        dt
    };
    let ppos = world.actor_pos(player.collider);
    let psize = world.actor_size(player.collider);
    let epos = world.actor_pos(enemy.collider);
    let esize = world.actor_size(enemy.collider);
    proof {
        assert(crate::world::body_wf(world.actors@[player.collider.0 as int]));
        assert(crate::world::body_wf(world.actors@[enemy.collider.0 as int]));
    }
    let overlapping = ppos.0 < epos.0 + esize.0 && epos.0 < ppos.0 + psize.0
        && ppos.1 < epos.1 + esize.1 && epos.1 < ppos.1 + psize.1;
    if overlapping {
        player.speed.y = -cfg.bounce_speed;
    }
    player.speed.x = if input.right_held {
        cfg.run_speed
    } else if input.left_held {
        -cfg.run_speed
    } else {
        0
    };
    let next = Player::transition(world, input, d, cfg, player);
    player.stance = next;
    match next {
        Stance::OnGround => {
            player.jumps_left = cfg.max_jumps;
            player.speed.y = 0;
        },
        Stance::InAir(InAir::Jumping) => {
            if player.jumps_left > 0 {
                player.jumps_left = player.jumps_left - 1;
                player.speed.y = -cfg.jump_speed;
            }
        },
        Stance::InAir(InAir::Falling) => {
            proof {
                assert(0 <= cfg.gravity as int * d as int <= 1_000_000_000_000_000int)
                    by (nonlinear_arith)
                    requires
                        0 <= cfg.gravity <= 1_000_000_000i64,
                        0 <= d <= 1_000_000i64,
                ;
                vstd::arithmetic::div_mod::lemma_div_is_ordered(0,
                    cfg.gravity as int * d as int, UNIT as int);
                vstd::arithmetic::div_mod::lemma_div_is_ordered(
                    cfg.gravity as int * d as int, 1_000_000_000_000_000int, UNIT as int);
            }
            player.speed.y = player.speed.y + (cfg.gravity * d) / UNIT;
        },
        Stance::Clinging(_) => {
            player.jumps_left = cfg.max_jumps;
            player.speed.x = 0;
            player.speed.y = 0;
        },
    }
    let y2 = player.speed.y;
    player.speed.y = if y2 < cfg.clamp_min {
        cfg.clamp_min
    } else if y2 > cfg.clamp_max {
        cfg.clamp_max
    } else {
        y2
    };
    let dx = scaled_delta(player.speed.x, d);
    let dy = scaled_delta(player.speed.y, d);
    world.move_h(player.collider, dx);
    let ghost mid: World = *world;
    world.move_v(player.collider, dy);
    proof {
        let a = player.collider.0 as int;
        let pb = old(world).actors@[a];
        lemma_v_sweep_same_geometry(mid, *old(world), pb.w as int, pb.h as int,
            world.actors@[a].x as int, pb.y as int, dy as int, world.actors@[a].y as int);
    }
}

/// One tick of the hang timer on machine integers.
fn hang_tick(h: i64, d: i64) -> (r: i64)
    requires
        -TIMER_LIMIT <= h <= TIMER_LIMIT,
        0 <= d <= DT_CAP,
    ensures
        r as int == hang_ticked(h as int, d as int),
        -TIMER_LIMIT <= r <= TIMER_LIMIT,
{
    if h - d < -TIMER_LIMIT {
        -TIMER_LIMIT
    } else {
        h - d
    }
}

} // verus!
