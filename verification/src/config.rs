use vstd::prelude::*;

verus! {

/// Sub-units per world unit (pixel). Positions, sizes and speeds are integers
/// in thousandths of a world unit; speeds are sub-units per second and
/// elapsed times are integer milliseconds, so that `speed * dt / 1000` is a
/// displacement in sub-units.
pub const UNIT: i64 = 1000;

/// Largest elapsed-time value, in milliseconds, that an update accepts.
pub const DT_CAP: i64 = 1_000_000;

/// Coordinate range kept by the collision world: every body position stays
/// within [-POS_LIMIT, POS_LIMIT] on both axes.
pub const POS_LIMIT: i64 = 1_000_000_000_000_000;

/// Largest width or height of a body or tile, in sub-units.
pub const SIZE_LIMIT: i64 = 1_000_000_000;

/// Largest number of tiles in the static layer, and largest grid width.
pub const GRID_LIMIT: usize = 1_000_000;

/// Largest single requested move, in sub-units.
pub const MOVE_LIMIT: i64 = 10_000_000_000_000_000;

/// Largest configurable speed magnitude, in sub-units per second.
pub const VEL_LIMIT: i64 = 1_000_000_000;

/// Range kept by the hang timer, in milliseconds: the timer saturates at
/// -TIMER_LIMIT, since only its sign is ever read.
pub const TIMER_LIMIT: i64 = 1_000_000_000_000;

/// Largest magnitude of a patrol bound coordinate, in sub-units.
pub const BOUND_LIMIT: i64 = 100_000_000_000_000;

/// Largest displacement a body can be asked to travel in one frame:
/// 2 * VEL_LIMIT sub-units per second for DT_CAP milliseconds.
pub const MAX_FRAME_TRAVEL: i64 = 2_000_000_000_000;

/// The tunable parameters of the simulation. All speeds are in sub-units per
/// second, all coordinates in sub-units, all times in milliseconds.
pub struct Config {
    /// Number of jump charges restored on the ground or on a wall.
    pub max_jumps: i32,
    /// Downward acceleration while falling, in sub-units per second squared.
    pub gravity: i64,
    /// Upward launch speed of a jump (applied as a negative y velocity).
    pub jump_speed: i64,
    /// Horizontal speed while a direction is held.
    pub run_speed: i64,
    /// Lower clamp on the vertical velocity (most negative allowed).
    pub clamp_min: i64,
    /// Upper clamp on the vertical velocity (most positive allowed).
    pub clamp_max: i64,
    /// Horizontal push-off speed added when jumping away from a wall.
    pub wall_impulse: i64,
    /// Upward bounce speed forced when the player overlaps the enemy.
    pub bounce_speed: i64,
    /// Grace period before a sustained wall press becomes a cling.
    pub hang_time: i64,
    /// Left bound of the enemy patrol.
    pub enemy_left: i64,
    /// Right bound of the enemy patrol.
    pub enemy_right: i64,
    /// Initial horizontal speed of the enemy.
    pub enemy_speed: i64,
    /// Left bound of the platform patrol.
    pub platform_left: i64,
    /// Right bound of the platform patrol.
    pub platform_right: i64,
    /// Initial horizontal speed of the platform.
    pub platform_speed: i64,
}

impl Config {
    /// Machine-limit bounds that keep every per-frame computation inside i64.
    pub open spec fn wf(self) -> bool {
        &&& 0 <= self.max_jumps <= 100_000
        &&& 0 <= self.gravity <= VEL_LIMIT
        &&& 0 <= self.jump_speed <= VEL_LIMIT
        &&& 0 <= self.run_speed <= VEL_LIMIT
        &&& -VEL_LIMIT <= self.clamp_min <= self.clamp_max <= VEL_LIMIT
        &&& 0 <= self.wall_impulse <= VEL_LIMIT
        &&& 0 <= self.bounce_speed <= VEL_LIMIT
        &&& 0 <= self.hang_time <= VEL_LIMIT
        &&& -BOUND_LIMIT <= self.enemy_left < self.enemy_right <= BOUND_LIMIT
        &&& 0 <= self.enemy_speed <= VEL_LIMIT
        &&& -BOUND_LIMIT <= self.platform_left < self.platform_right <= BOUND_LIMIT
        &&& 0 <= self.platform_speed <= VEL_LIMIT
    }

    /// The standard tuning: two jumps, gravity 500 units/s^2, jump launch
    /// -120 units/s, run speed 100 units/s, vertical clamp [-500, 200],
    /// wall push-off 100 units/s, no hang grace period, enemy patrol over
    /// [80, 104] at 30 units/s, platform patrol over [150, 220] at 50 units/s.
    pub fn standard() -> (c: Config)
        ensures
            c == (Config {
                max_jumps: 2,
                gravity: 500_000,
                jump_speed: 120_000,
                run_speed: 100_000,
                clamp_min: -500_000i64,
                clamp_max: 200_000,
                wall_impulse: 100_000,
                bounce_speed: 120_000,
                hang_time: 0,
                enemy_left: 80_000,
                enemy_right: 104_000,
                enemy_speed: 30_000,
                platform_left: 150_000,
                platform_right: 220_000,
                platform_speed: 50_000,
            }),
            c.wf(),
    {
        Config {
            max_jumps: 2,
            gravity: 500_000,
            jump_speed: 120_000,
            run_speed: 100_000,
            clamp_min: -500_000,
            clamp_max: 200_000,
            wall_impulse: 100_000,
            bounce_speed: 120_000,
            hang_time: 0,
            enemy_left: 80_000,
            enemy_right: 104_000,
            enemy_speed: 30_000,
            platform_left: 150_000,
            platform_right: 220_000,
            platform_speed: 50_000,
        }
    }
}

/// Elapsed time as the update functions use it: negative values are clamped
/// to zero, as malformed input.
pub open spec fn dt_used(dt: i64) -> int {
    if dt < 0 {
        0
    } else {
        dt as int
    }
}

} // verus!
