use vstd::prelude::*;
use crate::config::{Config, BOUND_LIMIT, DT_CAP, MAX_FRAME_TRAVEL, POS_LIMIT, UNIT, VEL_LIMIT};
use crate::enemy::patrol_flip;
use crate::player::{clamp_y, stance_velocity, transition_result, Clinging, InAir, Input, Stance};
use crate::world::{abs_val, rides_on, sgn, step_pos, vel_to_delta, lemma_vel_to_delta_bound,
    World};

verus! {

/// Every stance value is exactly one of the three variants: the tagged union
/// cannot leave the player in an undefined or doubled state.
pub proof fn lemma_stance_exclusive(s: Stance)
    ensures
        s is OnGround || s is InAir || s is Clinging,
        !(s is OnGround && s is InAir),
        !(s is OnGround && s is Clinging),
        !(s is InAir && s is Clinging),
{
}

/// The transition function is total: whatever the stance, probes, input,
/// counters and elapsed time, it yields a defined stance.
pub proof fn lemma_transition_total(
    s: Stance, below: bool, tl: bool, tr: bool, inp: Input,
    jumps: int, hang: int, d: int, cfg: Config,
)
    ensures
        ({
            let o = transition_result(s, below, tl, tr, inp, jumps, hang, d, cfg);
            o.0 is OnGround || o.0 is InAir || o.0 is Clinging
        }),
{
}

/// The jump counter stays in [0, max_jumps]; it is reset to max_jumps
/// exactly by the ground and cling rules, decremented exactly when a jump
/// launches from the jumping stance with a charge remaining, and untouched
/// otherwise.
pub proof fn lemma_jump_counter(st: Stance, x: int, y: int, jumps: int, d: int, cfg: Config)
    requires
        0 <= jumps <= cfg.max_jumps,
    ensures
        ({
            let sv = stance_velocity(st, x, y, jumps, d, cfg);
            &&& 0 <= sv.2 <= cfg.max_jumps
            &&& (st is OnGround || st is Clinging) ==> sv.2 == cfg.max_jumps
            &&& (st == Stance::InAir(InAir::Jumping) && jumps > 0) ==> sv.2 == jumps - 1
            &&& (st == Stance::InAir(InAir::Jumping) && jumps == 0) ==> sv.2 == jumps
            &&& st == Stance::InAir(InAir::Falling) ==> sv.2 == jumps
        }),
{
}

/// The vertical-velocity clamp lands in [clamp_min, clamp_max] whatever the
/// incoming value; every frame of the player ends with this clamp.
pub proof fn lemma_clamp_in_range(v: int, cfg: Config)
    requires
        cfg.wf(),
    ensures
        cfg.clamp_min <= clamp_y(v, cfg) <= cfg.clamp_max,
{
}

/// Idempotence on the ground: while the player stands on ground and no jump
/// is pressed, the transition keeps the stance `OnGround`, leaves the hang
/// timer unchanged and applies no impulse, so repeating it with unchanged
/// input and geometry changes nothing.
pub proof fn lemma_on_ground_idempotent(
    below: bool, tl: bool, tr: bool, inp: Input, jumps: int, hang: int, d: int, cfg: Config,
)
    requires
        below,
        !inp.jump_pressed,
    ensures
        transition_result(Stance::OnGround, below, tl, tr, inp, jumps, hang, d, cfg)
            == (Stance::OnGround, hang, 0int),
{
}

/// Multiplication by a sign value, spelled out for the sweep arithmetic.
proof fn lemma_mul_sign(k: int, s: int)
    ensures
        s == 1 ==> k * s == k,
        s == -1 ==> k * s == -k,
        s == 0 ==> k * s == 0,
{
    assert(s == 1 ==> k * s == k) by (nonlinear_arith);
    assert(s == -1 ==> k * s == -k) by (nonlinear_arith);
    assert(s == 0 ==> k * s == 0) by (nonlinear_arith);
}

/// A patrol step keeps the position within one frame's travel of its bounds:
/// flipping at the bounds before sweeping by at most `MAX_FRAME_TRAVEL`
/// sub-units never escapes [left - MAX_FRAME_TRAVEL, right +
/// MAX_FRAME_TRAVEL]. Holds for any speed of magnitude above one unit per
/// second (a slower patrol never triggers the flip rule).
pub proof fn lemma_patrol_position_bounded(
    w: World, bw: int, bh: int, x0: int, y: int, v: int, d: int,
    left: int, right: int, x1: int,
)
    requires
        -BOUND_LIMIT <= left < right <= BOUND_LIMIT,
        (UNIT < v <= 2 * VEL_LIMIT) || (-2 * VEL_LIMIT <= v < -UNIT),
        0 <= d <= DT_CAP,
        left - MAX_FRAME_TRAVEL <= x0 <= right + MAX_FRAME_TRAVEL,
        w.h_sweep(bw, bh, x0, y, vel_to_delta(patrol_flip(x0, v, left, right), d), x1),
    ensures
        left - MAX_FRAME_TRAVEL <= x1 <= right + MAX_FRAME_TRAVEL,
{
    let vf = patrol_flip(x0, v, left, right);
    let delta = vel_to_delta(vf, d);
    lemma_vel_to_delta_bound(vf, d);
    let k = choose|k: int|
        w.h_sweep_stop(bw, bh, x0, y, delta, k) && x1 == step_pos(x0, delta, k);
    lemma_mul_sign(k, sgn(delta));
    assert(0 <= k <= abs_val(delta));
    if vf > 0 {
        assert(x0 <= x1 <= x0 + MAX_FRAME_TRAVEL);
        assert(vf == v || vf == -v);
        if vf == v && v > UNIT {
            assert(x0 < right);
        } else {
            assert(x0 <= left);
        }
    } else {
        assert(vf < 0);
        assert(x0 - MAX_FRAME_TRAVEL <= x1 <= x0);
        if vf == v && v < -UNIT {
            assert(x0 > left);
        } else {
            assert(x0 >= right);
        }
    }
}

/// The patrol speed flips exactly once per bound contact: at a right-bound
/// contact while moving right the speed is negated, and as long as the body
/// has not reached the left bound the following frames leave the flipped
/// speed alone, however long the body lingers past the right bound.
pub proof fn lemma_patrol_flip_once_right(x0: int, v: int, x1: int, left: int, right: int)
    requires
        left < right,
        v > UNIT,
        x0 >= right,
        x1 > left,
    ensures
        patrol_flip(x0, v, left, right) == -v,
        patrol_flip(x1, -v, left, right) == -v,
{
}

/// Symmetric flip-once law at the left bound.
pub proof fn lemma_patrol_flip_once_left(x0: int, v: int, x1: int, left: int, right: int)
    requires
        left < right,
        v < -UNIT,
        x0 <= left,
        x1 < right,
    ensures
        patrol_flip(x0, v, left, right) == -v,
        patrol_flip(x1, -v, left, right) == -v,
{
}

/// An actor resting on (or overlapping) a moving solid is carried by exactly
/// the solid's per-frame displacement, as long as neither is pushed against
/// the world's coordinate range.
pub proof fn lemma_rider_carried(w0: World, w1: World, s: int, dx: int, dy: int, i: int)
    requires
        0 <= s < w0.solids@.len(),
        0 <= i < w0.actors@.len(),
        w0.solid_moved(w1, s, dx, dy),
        rides_on(w0.actors@[i], w0.solids@[s]),
        -POS_LIMIT <= w0.actors@[i].x + (w1.solids@[s].x - w0.solids@[s].x) <= POS_LIMIT,
        -POS_LIMIT <= w0.actors@[i].y + (w1.solids@[s].y - w0.solids@[s].y) <= POS_LIMIT,
    ensures
        w1.actors@[i].x - w0.actors@[i].x == w1.solids@[s].x - w0.solids@[s].x,
        w1.actors@[i].y - w0.actors@[i].y == w1.solids@[s].y - w0.solids@[s].y,
{
    assert(w1.actors@[i].x as int == crate::world::clamp_coord_spec(
        w0.actors@[i].x + (w1.solids@[s].x - w0.solids@[s].x)));
}

/// The platform patrol keeps its solid within one frame's travel of its
/// bounds, and restores the frame invariant: a platform moving right has not
/// yet reached the right bound, one moving left has not yet reached the left
/// bound. Holds for any speed of magnitude above one unit per second.
pub proof fn lemma_platform_step_bounded(
    w0: World, w1: World, s: int, v: int, d: int, left: int, right: int, v1: int,
)
    requires
        -BOUND_LIMIT <= left < right <= BOUND_LIMIT,
        (UNIT < v <= 2 * VEL_LIMIT) || (-2 * VEL_LIMIT <= v < -UNIT),
        0 <= d <= DT_CAP,
        0 <= s < w0.solids@.len(),
        left - MAX_FRAME_TRAVEL <= w0.solids@[s].x <= right + MAX_FRAME_TRAVEL,
        v > UNIT ==> w0.solids@[s].x < right,
        v < -UNIT ==> w0.solids@[s].x > left,
        w0.solid_moved(w1, s, vel_to_delta(v, d), 0),
        v1 == patrol_flip(w1.solids@[s].x as int, v, left, right),
    ensures
        left - MAX_FRAME_TRAVEL <= w1.solids@[s].x <= right + MAX_FRAME_TRAVEL,
        v1 > UNIT ==> w1.solids@[s].x < right,
        v1 < -UNIT ==> w1.solids@[s].x > left,
        (UNIT < v1 <= 2 * VEL_LIMIT) || (-2 * VEL_LIMIT <= v1 < -UNIT),
{
    let x0 = w0.solids@[s].x as int;
    let delta = vel_to_delta(v, d);
    lemma_vel_to_delta_bound(v, d);
    assert(w1.solids@[s].x as int == crate::world::clamp_coord_spec(x0 + delta));
    if v > 0 {
        assert(delta >= 0) by {
            vstd::arithmetic::div_mod::lemma_div_is_ordered(0, v * d, UNIT as int);
            assert(0 <= v * d) by (nonlinear_arith)
                requires
                    0 <= v,
                    0 <= d,
            ;
        }
    } else {
        assert(delta <= 0) by {
            vstd::arithmetic::div_mod::lemma_div_is_ordered(0, (-v) * d, UNIT as int);
            assert(0 <= (-v) * d) by (nonlinear_arith)
                requires
                    0 <= -v,
                    0 <= d,
            ;
        }
    }
}

} // verus!

