use vstd::prelude::*;
use crate::config::{DT_CAP, GRID_LIMIT, MAX_FRAME_TRAVEL, MOVE_LIMIT, POS_LIMIT, SIZE_LIMIT,
    UNIT, VEL_LIMIT};

verus! {

/// A 2D vector in sub-units (positions) or sub-units per second (speeds),
/// y pointing down.
#[derive(Clone, Copy, Debug, PartialEq, Eq, Structural)]
pub struct Vec2 {
    pub x: i64,
    pub y: i64,
}

/// An axis-aligned box body: top-left corner and extent, all in sub-units,
/// in a y-down coordinate space.
#[derive(Clone, Copy, Debug)]
pub struct Body {
    pub x: i64,
    pub y: i64,
    pub w: i64,
    pub h: i64,
}

/// Handle of a registered actor body: blocked by solids and tiles, pushes
/// nothing. Assigned once at registration and never reassigned.
#[derive(Clone, Copy, Debug, PartialEq, Eq, Structural)]
pub struct Actor(pub usize);

/// Handle of a registered solid body: blocks actors and, when moved, carries
/// the actors resting on or overlapping it.
#[derive(Clone, Copy, Debug, PartialEq, Eq, Structural)]
pub struct Solid(pub usize);

/// The collision world: one static tile layer plus the registered bodies.
/// All queries and moves operate in the same coordinate space (sub-units,
/// y-down); widths and heights are fixed at registration.
pub struct World {
    /// Row-major grid of tile occupancy; a `true` cell is solid geometry.
    pub tiles: Vec<bool>,
    /// Side length of a square tile, in sub-units.
    pub tile_size: i64,
    /// Number of tiles per row of the grid.
    pub grid_width: usize,
    /// Registered actor bodies, indexed by `Actor` handles.
    pub actors: Vec<Body>,
    /// Registered solid bodies, indexed by `Solid` handles.
    pub solids: Vec<Body>,
}

pub open spec fn body_wf(b: Body) -> bool {
    &&& -POS_LIMIT <= b.x <= POS_LIMIT
    &&& -POS_LIMIT <= b.y <= POS_LIMIT
    &&& 1 <= b.w <= SIZE_LIMIT
    &&& 1 <= b.h <= SIZE_LIMIT
}

/// Two boxes overlap when their intersection has positive area; boxes that
/// merely share an edge do not overlap.
pub open spec fn boxes_overlap(
    ax: int, ay: int, aw: int, ah: int,
    bx: int, by: int, bw: int, bh: int,
) -> bool {
    ax < bx + bw && bx < ax + aw && ay < by + bh && by < ay + ah
}

/// Whether tile `k` of the grid is solid and its square overlaps the given box.
pub open spec fn tile_hit(
    tiles: Seq<bool>, ts: int, gw: int, k: int,
    bx: int, by: int, bw: int, bh: int,
) -> bool {
    tiles[k] && boxes_overlap(bx, by, bw, bh, (k % gw) * ts, (k / gw) * ts, ts, ts)
}

/// Whether the given box overlaps solid geometry: a solid tile or a solid body.
pub open spec fn geometry_hits(
    tiles: Seq<bool>, ts: int, gw: int, solids: Seq<Body>,
    bx: int, by: int, bw: int, bh: int,
) -> bool {
    ||| exists|k: int| 0 <= k < tiles.len() && tile_hit(tiles, ts, gw, k, bx, by, bw, bh)
    ||| exists|j: int|
        0 <= j < solids.len()
            && boxes_overlap(bx, by, bw, bh, solids[j].x as int, solids[j].y as int,
                solids[j].w as int, solids[j].h as int)
}

pub open spec fn sgn(d: int) -> int {
    if d > 0 {
        1
    } else if d < 0 {
        -1
    } else {
        0
    }
}

pub open spec fn abs_val(d: int) -> int {
    if d >= 0 {
        d
    } else {
        -d
    }
}

/// The position reached after `j` unit steps of a sweep requested with
/// displacement `delta`, starting from `c0` on the swept axis.
pub open spec fn step_pos(c0: int, delta: int, j: int) -> int {
    c0 + j * sgn(delta)
}

/// Coordinates are kept inside the world's range by saturation.
pub open spec fn clamp_coord_spec(v: int) -> int {
    if v < -POS_LIMIT {
        -POS_LIMIT as int
    } else if v > POS_LIMIT {
        POS_LIMIT as int
    } else {
        v
    }
}

/// An actor rides a solid when its box overlaps the solid or rests exactly
/// on the solid's top edge with horizontal overlap.
pub open spec fn rides_on(b: Body, s: Body) -> bool {
    ||| boxes_overlap(b.x as int, b.y as int, b.w as int, b.h as int,
            s.x as int, s.y as int, s.w as int, s.h as int)
    ||| (b.y + b.h == s.y && b.x < s.x + s.w && s.x < b.x + b.w)
}

impl World {
    /// Whether a box of size `bw` x `bh` placed at `(bx, by)` overlaps solid
    /// geometry of this world (tiles or solid bodies; never actors).
    pub open spec fn blocked(self, bx: int, by: int, bw: int, bh: int) -> bool {
        geometry_hits(self.tiles@, self.tile_size as int, self.grid_width as int,
            self.solids@, bx, by, bw, bh)
    }

    /// A box position a sweep may step into: inside the coordinate range and
    /// not overlapping solid geometry.
    pub open spec fn free_at(self, bx: int, by: int, bw: int, bh: int) -> bool {
        &&& -POS_LIMIT <= bx <= POS_LIMIT
        &&& -POS_LIMIT <= by <= POS_LIMIT
        &&& !self.blocked(bx, by, bw, bh)
    }

    pub open spec fn wf(self) -> bool {
        &&& 1 <= self.tile_size <= SIZE_LIMIT
        &&& 1 <= self.grid_width <= GRID_LIMIT
        &&& self.tiles@.len() <= GRID_LIMIT as int
        &&& forall|i: int| 0 <= i < self.actors@.len() ==> body_wf(#[trigger] self.actors@[i])
        &&& forall|i: int| 0 <= i < self.solids@.len() ==> body_wf(#[trigger] self.solids@[i])
    }

    pub open spec fn valid_actor(self, a: Actor) -> bool {
        a.0 < self.actors@.len()
    }

    pub open spec fn valid_solid(self, s: Solid) -> bool {
        s.0 < self.solids@.len()
    }

    /// The parts of the world a horizontal or vertical actor sweep leaves
    /// untouched: everything except the swept actor's position.
    pub open spec fn unchanged_except_actor(self, post: World, a: int) -> bool {
        &&& post.tiles@ == self.tiles@
        &&& post.tile_size == self.tile_size
        &&& post.grid_width == self.grid_width
        &&& post.solids@ == self.solids@
        &&& post.actors@.len() == self.actors@.len()
        &&& forall|i: int|
            0 <= i < self.actors@.len() && i != a ==> #[trigger] post.actors@[i]
                == self.actors@[i]
        &&& post.actors@[a].w == self.actors@[a].w
        &&& post.actors@[a].h == self.actors@[a].h
    }

    /// An empty world: no tiles, no bodies.
    pub fn new() -> (w: World)
        ensures
            w.wf(),
            w.tiles@.len() == 0,
            w.actors@.len() == 0,
            w.solids@.len() == 0,
    {
        World {
            tiles: Vec::new(),
            tile_size: UNIT,
            grid_width: 1,
            actors: Vec::new(),
            solids: Vec::new(),
        }
    }

    /// Installs the static tile layer: a row-major grid of square tiles of
    /// side `tile_size`, `grid_width` tiles per row; a `true` cell is solid.
    pub fn add_static_tiled_layer(&mut self, tiles: Vec<bool>, tile_size: i64, grid_width: usize)
        requires
            old(self).wf(),
            1 <= tile_size <= SIZE_LIMIT,
            1 <= grid_width <= GRID_LIMIT,
            tiles@.len() <= GRID_LIMIT as int,
        ensures
            final(self).wf(),
            final(self).tiles@ == tiles@,
            final(self).tile_size == tile_size,
            final(self).grid_width == grid_width,
            final(self).actors@ == old(self).actors@,
            final(self).solids@ == old(self).solids@,
    {
        self.tiles = tiles;
        self.tile_size = tile_size;
        self.grid_width = grid_width;
    }

    /// Registers a non-pushing body and returns its handle.
    pub fn add_actor(&mut self, x: i64, y: i64, w: i64, h: i64) -> (a: Actor)
        requires
            old(self).wf(),
            -POS_LIMIT <= x <= POS_LIMIT,
            -POS_LIMIT <= y <= POS_LIMIT,
            1 <= w <= SIZE_LIMIT,
            1 <= h <= SIZE_LIMIT,
        ensures
            final(self).wf(),
            a.0 == old(self).actors@.len(),
            final(self).actors@ == old(self).actors@.push(Body { x, y, w, h }),
            final(self).solids@ == old(self).solids@,
            final(self).tiles@ == old(self).tiles@,
            final(self).tile_size == old(self).tile_size,
            final(self).grid_width == old(self).grid_width,
    {
        let a = Actor(self.actors.len());
        self.actors.push(Body { x, y, w, h });
        a
    }

    /// Registers a pushing body and returns its handle.
    pub fn add_solid(&mut self, x: i64, y: i64, w: i64, h: i64) -> (s: Solid)
        requires
            old(self).wf(),
            -POS_LIMIT <= x <= POS_LIMIT,
            -POS_LIMIT <= y <= POS_LIMIT,
            1 <= w <= SIZE_LIMIT,
            1 <= h <= SIZE_LIMIT,
        ensures
            final(self).wf(),
            s.0 == old(self).solids@.len(),
            final(self).solids@ == old(self).solids@.push(Body { x, y, w, h }),
            final(self).actors@ == old(self).actors@,
            final(self).tiles@ == old(self).tiles@,
            final(self).tile_size == old(self).tile_size,
            final(self).grid_width == old(self).grid_width,
    {
        let s = Solid(self.solids.len());
        self.solids.push(Body { x, y, w, h });
        s
    }

    /// Current top-left coordinate of an actor body.
    pub fn actor_pos(&self, a: Actor) -> (p: (i64, i64))
        requires
            self.valid_actor(a),
        ensures
            p.0 == self.actors@[a.0 as int].x,
            p.1 == self.actors@[a.0 as int].y,
    {
        let b = self.actors[a.0];
        (b.x, b.y)
    }

    /// Registered size of an actor body.
    pub fn actor_size(&self, a: Actor) -> (s: (i64, i64))
        requires
            self.valid_actor(a),
        ensures
            s.0 == self.actors@[a.0 as int].w,
            s.1 == self.actors@[a.0 as int].h,
    {
        let b = self.actors[a.0];
        (b.w, b.h)
    }

    /// Current top-left coordinate of a solid body.
    pub fn solid_pos(&self, s: Solid) -> (p: (i64, i64))
        requires
            self.valid_solid(s),
        ensures
            p.0 == self.solids@[s.0 as int].x,
            p.1 == self.solids@[s.0 as int].y,
    {
        let b = self.solids[s.0];
        (b.x, b.y)
    }

    /// One-step-ahead probe: whether the actor's box, placed at `(x, y)`,
    /// would overlap solid geometry. No move is performed.
    pub fn collide_check(&self, a: Actor, x: i64, y: i64) -> (r: bool)
        requires
            self.wf(),
            self.valid_actor(a),
            -POS_LIMIT - MOVE_LIMIT <= x <= POS_LIMIT + MOVE_LIMIT,
            -POS_LIMIT - MOVE_LIMIT <= y <= POS_LIMIT + MOVE_LIMIT,
        ensures
            r == self.blocked(x as int, y as int, self.actors@[a.0 as int].w as int,
                self.actors@[a.0 as int].h as int),
    {
        let b = self.actors[a.0];
        self.probe_box(x, y, b.w, b.h)
    }

    /// Whether a box overlaps solid geometry, by scanning the tile grid and
    /// the solid bodies.
    fn probe_box(&self, bx: i64, by: i64, bw: i64, bh: i64) -> (r: bool)
        requires
            self.wf(),
            -POS_LIMIT - MOVE_LIMIT <= bx <= POS_LIMIT + MOVE_LIMIT,
            -POS_LIMIT - MOVE_LIMIT <= by <= POS_LIMIT + MOVE_LIMIT,
            1 <= bw <= SIZE_LIMIT,
            1 <= bh <= SIZE_LIMIT,
        ensures
            r == self.blocked(bx as int, by as int, bw as int, bh as int),
    {
        let ts = self.tile_size;
        let gw = self.grid_width;
        let n_tiles = self.tiles.len();
        let mut k: usize = 0;
        while k < n_tiles
            invariant
                self.wf(),
                ts == self.tile_size,
                gw == self.grid_width,
                n_tiles == self.tiles@.len(),
                -POS_LIMIT - MOVE_LIMIT <= bx <= POS_LIMIT + MOVE_LIMIT,
                -POS_LIMIT - MOVE_LIMIT <= by <= POS_LIMIT + MOVE_LIMIT,
                1 <= bw <= SIZE_LIMIT,
                1 <= bh <= SIZE_LIMIT,
                0 <= k <= n_tiles,
                forall|kk: int|
                    0 <= kk < k ==> !tile_hit(self.tiles@, ts as int, gw as int, kk,
                        bx as int, by as int, bw as int, bh as int),
            decreases n_tiles - k,
        {
            if self.tiles[k] {
                let col: usize = k % gw;
                let row: usize = k / gw;
                proof {
                    assert(col < gw) by (nonlinear_arith)
                        requires
                            col == k as int % gw as int,
                            gw >= 1,
                    ;
                    assert(row <= k) by (nonlinear_arith)
                        requires
                            row == k as int / gw as int,
                            gw >= 1,
                            k >= 0,
                    ;
                    assert((col as int) * (ts as int) <= 1_000_000i64 * 1_000_000_000i64)
                        by (nonlinear_arith)
                        requires
                            0 <= col <= 1_000_000,
                            1 <= ts <= 1_000_000_000,
                    ;
                    assert(0 <= (col as int) * (ts as int)) by (nonlinear_arith)
                        requires
                            0 <= col,
                            1 <= ts,
                    ;
                    assert((row as int) * (ts as int) <= 1_000_000i64 * 1_000_000_000i64)
                        by (nonlinear_arith)
                        requires
                            0 <= row <= 1_000_000,
                            1 <= ts <= 1_000_000_000,
                    ;
                    assert(0 <= (row as int) * (ts as int)) by (nonlinear_arith)
                        requires
                            0 <= row,
                            1 <= ts,
                    ;
                }
                let tx: i64 = (col as i64) * ts;
                let ty: i64 = (row as i64) * ts;
                if bx < tx + ts && tx < bx + bw && by < ty + ts && ty < by + bh {
                    proof {
                        assert(tile_hit(self.tiles@, ts as int, gw as int, k as int,
                            bx as int, by as int, bw as int, bh as int));
                    }
                    return true;
                }
            }
            k = k + 1;
        }
        let n_solids = self.solids.len();
        let mut j: usize = 0;
        while j < n_solids
            invariant
                self.wf(),
                n_solids == self.solids@.len(),
                -POS_LIMIT - MOVE_LIMIT <= bx <= POS_LIMIT + MOVE_LIMIT,
                -POS_LIMIT - MOVE_LIMIT <= by <= POS_LIMIT + MOVE_LIMIT,
                1 <= bw <= SIZE_LIMIT,
                1 <= bh <= SIZE_LIMIT,
                0 <= j <= n_solids,
                forall|jj: int|
                    0 <= jj < j ==> !boxes_overlap(bx as int, by as int, bw as int, bh as int,
                        #[trigger] self.solids@[jj].x as int, self.solids@[jj].y as int,
                        self.solids@[jj].w as int, self.solids@[jj].h as int),
            decreases n_solids - j,
        {
            let s = self.solids[j];
            if bx < s.x + s.w && s.x < bx + bw && by < s.y + s.h && s.y < by + bh {
                return true;
            }
            j = j + 1;
        }
        false
    }

    /// A finished horizontal sweep: `k` unit steps were taken, every position
    /// stepped into was free, and the sweep stopped early only because the
    /// next position was not free.
    pub open spec fn h_sweep_stop(
        self, bw: int, bh: int, x0: int, y: int, delta: int, k: int,
    ) -> bool {
        &&& 0 <= k <= abs_val(delta)
        &&& forall|j: int|
            1 <= j <= k ==> self.free_at(#[trigger] step_pos(x0, delta, j), y, bw, bh)
        &&& (k < abs_val(delta) ==> !self.free_at(step_pos(x0, delta, k + 1), y, bw, bh))
    }

    /// The result of a horizontal sweep from `x0` by `delta`: `x1` is reached
    /// through some number of free unit steps, and any unconsumed distance
    /// was dropped because the next step was not free.
    pub open spec fn h_sweep(self, bw: int, bh: int, x0: int, y: int, delta: int, x1: int) -> bool {
        exists|k: int| self.h_sweep_stop(bw, bh, x0, y, delta, k) && x1 == step_pos(x0, delta, k)
    }

    /// A finished vertical sweep, symmetric to `h_sweep_stop`.
    pub open spec fn v_sweep_stop(
        self, bw: int, bh: int, x: int, y0: int, delta: int, k: int,
    ) -> bool {
        &&& 0 <= k <= abs_val(delta)
        &&& forall|j: int|
            1 <= j <= k ==> self.free_at(x, #[trigger] step_pos(y0, delta, j), bw, bh)
        &&& (k < abs_val(delta) ==> !self.free_at(x, step_pos(y0, delta, k + 1), bw, bh))
    }

    /// The result of a vertical sweep, symmetric to `h_sweep`.
    pub open spec fn v_sweep(self, bw: int, bh: int, x: int, y0: int, delta: int, y1: int) -> bool {
        exists|k: int| self.v_sweep_stop(bw, bh, x, y0, delta, k) && y1 == step_pos(y0, delta, k)
    }

    /// Sweeps the actor horizontally by `delta` sub-units, one sub-unit at a
    /// time, stopping at the first obstacle (or at the world's coordinate
    /// range); any unconsumed distance is silently dropped.
    pub fn move_h(&mut self, a: Actor, delta: i64)
        requires
            old(self).wf(),
            old(self).valid_actor(a),
            -MOVE_LIMIT <= delta <= MOVE_LIMIT,
        ensures
            final(self).wf(),
            old(self).unchanged_except_actor(*final(self), a.0 as int),
            final(self).actors@[a.0 as int].y == old(self).actors@[a.0 as int].y,
            old(self).h_sweep(
                old(self).actors@[a.0 as int].w as int,
                old(self).actors@[a.0 as int].h as int,
                old(self).actors@[a.0 as int].x as int,
                old(self).actors@[a.0 as int].y as int,
                delta as int,
                final(self).actors@[a.0 as int].x as int,
            ),
    {
        let b: Body = self.actors[a.0];
        let sg: i64 = if delta >= 0 { 1 } else { -1 };
        let steps: i64 = if delta >= 0 { delta } else { -delta };
        let mut moved: i64 = 0;
        let mut cur: i64 = b.x;
        let mut stopped: bool = false;
        proof {
            assert(cur as int == step_pos(b.x as int, delta as int, 0));
        }
        while moved < steps && !stopped
            invariant
                self == old(self),
                self.wf(),
                a.0 < self.actors@.len(),
                b == self.actors@[a.0 as int],
                steps == abs_val(delta as int),
                delta != 0 ==> sg as int == sgn(delta as int),
                0 <= moved <= steps,
                cur as int == step_pos(b.x as int, delta as int, moved as int),
                -POS_LIMIT - MOVE_LIMIT <= cur <= POS_LIMIT + MOVE_LIMIT,
                forall|j: int|
                    1 <= j <= moved ==> self.free_at(
                        #[trigger] step_pos(b.x as int, delta as int, j),
                        b.y as int, b.w as int, b.h as int),
                stopped ==> !self.free_at(step_pos(b.x as int, delta as int, moved + 1),
                    b.y as int, b.w as int, b.h as int),
            decreases steps - moved, if stopped { 0int } else { 1int },
        {
            let next: i64 = cur + sg;
            proof {
                let sgi: int = sgn(delta as int);
                assert((moved as int + 1) * sgi == moved as int * sgi + sgi)
                    by (nonlinear_arith);
                assert(next as int == step_pos(b.x as int, delta as int, moved + 1));
            }
            if next < -POS_LIMIT || next > POS_LIMIT {
                stopped = true;
            } else if self.probe_box(next, b.y, b.w, b.h) {
                stopped = true;
            } else {
                cur = next;
                moved = moved + 1;
            }
        }
        proof {
            assert(self.h_sweep_stop(b.w as int, b.h as int, b.x as int, b.y as int,
                delta as int, moved as int));
        }
        let mut nb: Body = b;
        nb.x = cur;
        self.actors.set(a.0, nb);
        proof {
            assert(old(self).h_sweep(b.w as int, b.h as int, b.x as int, b.y as int,
                delta as int, cur as int));
        }
    }

    /// Sweeps the actor vertically by `delta` sub-units, symmetric to `move_h`.
    pub fn move_v(&mut self, a: Actor, delta: i64)
        requires
            old(self).wf(),
            old(self).valid_actor(a),
            -MOVE_LIMIT <= delta <= MOVE_LIMIT,
        ensures
            final(self).wf(),
            old(self).unchanged_except_actor(*final(self), a.0 as int),
            final(self).actors@[a.0 as int].x == old(self).actors@[a.0 as int].x,
            old(self).v_sweep(
                old(self).actors@[a.0 as int].w as int,
                old(self).actors@[a.0 as int].h as int,
                old(self).actors@[a.0 as int].x as int,
                old(self).actors@[a.0 as int].y as int,
                delta as int,
                final(self).actors@[a.0 as int].y as int,
            ),
    {
        let b: Body = self.actors[a.0];
        let sg: i64 = if delta >= 0 { 1 } else { -1 };
        let steps: i64 = if delta >= 0 { delta } else { -delta };
        let mut moved: i64 = 0;
        let mut cur: i64 = b.y;
        let mut stopped: bool = false;
        proof {
            assert(cur as int == step_pos(b.y as int, delta as int, 0));
        }
        while moved < steps && !stopped
            invariant
                self == old(self),
                self.wf(),
                a.0 < self.actors@.len(),
                b == self.actors@[a.0 as int],
                steps == abs_val(delta as int),
                delta != 0 ==> sg as int == sgn(delta as int),
                0 <= moved <= steps,
                cur as int == step_pos(b.y as int, delta as int, moved as int),
                -POS_LIMIT - MOVE_LIMIT <= cur <= POS_LIMIT + MOVE_LIMIT,
                forall|j: int|
                    1 <= j <= moved ==> self.free_at(b.x as int,
                        #[trigger] step_pos(b.y as int, delta as int, j),
                        b.w as int, b.h as int),
                stopped ==> !self.free_at(b.x as int,
                    step_pos(b.y as int, delta as int, moved + 1), b.w as int, b.h as int),
            decreases steps - moved, if stopped { 0int } else { 1int },
        {
            let next: i64 = cur + sg;
            proof {
                let sgi: int = sgn(delta as int);
                assert((moved as int + 1) * sgi == moved as int * sgi + sgi)
                    by (nonlinear_arith);
                assert(next as int == step_pos(b.y as int, delta as int, moved + 1));
            }
            if next < -POS_LIMIT || next > POS_LIMIT {
                stopped = true;
            } else if self.probe_box(b.x, next, b.w, b.h) {
                stopped = true;
            } else {
                cur = next;
                moved = moved + 1;
            }
        }
        proof {
            assert(self.v_sweep_stop(b.w as int, b.h as int, b.x as int, b.y as int,
                delta as int, moved as int));
        }
        let mut nb: Body = b;
        nb.y = cur;
        self.actors.set(a.0, nb);
        proof {
            assert(old(self).v_sweep(b.w as int, b.h as int, b.x as int, b.y as int,
                delta as int, cur as int));
        }
    }

    /// What `solid_move` does: the solid is displaced by the requested delta,
    /// saturated at the coordinate range, and every actor that was resting on
    /// or overlapping it is displaced by the same actual delta.
    pub open spec fn solid_moved(self, post: World, s: int, dx: int, dy: int) -> bool {
        let s0 = self.solids@[s];
        let nx = clamp_coord_spec(s0.x + dx);
        let ny = clamp_coord_spec(s0.y + dy);
        let adx = nx - s0.x;
        let ady = ny - s0.y;
        &&& post.tiles@ == self.tiles@
        &&& post.tile_size == self.tile_size
        &&& post.grid_width == self.grid_width
        &&& post.solids@.len() == self.solids@.len()
        &&& post.solids@[s].x as int == nx
        &&& post.solids@[s].y as int == ny
        &&& post.solids@[s].w == s0.w
        &&& post.solids@[s].h == s0.h
        &&& forall|j: int|
            0 <= j < self.solids@.len() && j != s ==> #[trigger] post.solids@[j]
                == self.solids@[j]
        &&& post.actors@.len() == self.actors@.len()
        &&& forall|i: int|
            0 <= i < self.actors@.len() ==> {
                let a0 = self.actors@[i];
                let a1 = #[trigger] post.actors@[i];
                if rides_on(a0, s0) {
                    a1.x as int == clamp_coord_spec(a0.x + adx)
                        && a1.y as int == clamp_coord_spec(a0.y + ady)
                        && a1.w == a0.w && a1.h == a0.h
                } else {
                    a1 == a0
                }
            }
    }

    /// Moves a solid body by `(dx, dy)` and carries every actor resting on or
    /// overlapping it by the same delta. The solid moves unconditionally; it
    /// is not blocked by tiles or other bodies.
    pub fn solid_move(&mut self, s: Solid, dx: i64, dy: i64)
        requires
            old(self).wf(),
            old(self).valid_solid(s),
            -MOVE_LIMIT <= dx <= MOVE_LIMIT,
            -MOVE_LIMIT <= dy <= MOVE_LIMIT,
        ensures
            final(self).wf(),
            old(self).solid_moved(*final(self), s.0 as int, dx as int, dy as int),
    {
        let s0: Body = self.solids[s.0];
        let nx: i64 = clamp_coord(s0.x + dx);
        let ny: i64 = clamp_coord(s0.y + dy);
        let adx: i64 = nx - s0.x;
        let ady: i64 = ny - s0.y;
        let mut ns: Body = s0;
        ns.x = nx;
        ns.y = ny;
        self.solids.set(s.0, ns);
        let n: usize = self.actors.len();
        let mut i: usize = 0;
        while i < n
            invariant
                n == self.actors@.len(),
                n == old(self).actors@.len(),
                0 <= i <= n,
                s.0 < old(self).solids@.len(),
                old(self).wf(),
                s0 == old(self).solids@[s.0 as int],
                nx as int == clamp_coord_spec(s0.x + dx),
                ny as int == clamp_coord_spec(s0.y + dy),
                adx == nx - s0.x,
                ady == ny - s0.y,
                -2 * MOVE_LIMIT <= adx <= 2 * MOVE_LIMIT,
                -2 * MOVE_LIMIT <= ady <= 2 * MOVE_LIMIT,
                self.tiles@ == old(self).tiles@,
                self.tile_size == old(self).tile_size,
                self.grid_width == old(self).grid_width,
                self.solids@ == old(self).solids@.update(s.0 as int, ns),
                ns.x == nx && ns.y == ny && ns.w == s0.w && ns.h == s0.h,
                forall|j: int|
                    i <= j < n ==> #[trigger] self.actors@[j] == old(self).actors@[j],
                forall|j: int|
                    0 <= j < i ==> {
                        let a0 = old(self).actors@[j];
                        let a1 = #[trigger] self.actors@[j];
                        if rides_on(a0, s0) {
                            a1.x as int == clamp_coord_spec(a0.x + adx)
                                && a1.y as int == clamp_coord_spec(a0.y + ady)
                                && a1.w == a0.w && a1.h == a0.h
                        } else {
                            a1 == a0
                        }
                    },
                forall|j: int| 0 <= j < n ==> body_wf(#[trigger] self.actors@[j]),
            decreases n - i,
        {
            let a0: Body = self.actors[i];
            let riding: bool = {
                let over = a0.x < s0.x + s0.w && s0.x < a0.x + a0.w && a0.y < s0.y + s0.h
                    && s0.y < a0.y + a0.h;
                let resting = a0.y + a0.h == s0.y && a0.x < s0.x + s0.w && s0.x < a0.x + a0.w;
                over || resting
            };
            if riding {
                let mut na: Body = a0;
                na.x = clamp_coord(a0.x + adx);
                na.y = clamp_coord(a0.y + ady);
                self.actors.set(i, na);
            }
            i = i + 1;
        }
    }
}

/// The displacement, in sub-units, of a body moving at `v` sub-units per
/// second for `d` milliseconds: `v * d / 1000`, truncated toward zero.
pub open spec fn vel_to_delta(v: int, d: int) -> int {
    if v >= 0 {
        (v * d) / (UNIT as int)
    } else {
        -(((-v) * d) / (UNIT as int))
    }
}

/// Computes `vel_to_delta` on machine integers.
pub fn scaled_delta(v: i64, d: i64) -> (r: i64)
    requires
        -2 * VEL_LIMIT <= v <= 2 * VEL_LIMIT,
        0 <= d <= DT_CAP,
    ensures
        r as int == vel_to_delta(v as int, d as int),
        -MAX_FRAME_TRAVEL <= r <= MAX_FRAME_TRAVEL,
{
    if v >= 0 {
        proof {
            assert(0 <= v as int * d as int <= 2_000_000_000_000_000int) by (nonlinear_arith)
                requires
                    0 <= v <= 2_000_000_000i64,
                    0 <= d <= 1_000_000i64,
            ;
        }
        let p: i64 = v * d;
        proof {
            vstd::arithmetic::div_mod::lemma_div_is_ordered(0, p as int, UNIT as int);
            vstd::arithmetic::div_mod::lemma_div_is_ordered(p as int,
                2_000_000_000_000_000int, UNIT as int);
        }
        p / UNIT
    } else {
        proof {
            assert(0 <= (-v) as int * d as int <= 2_000_000_000_000_000int) by (nonlinear_arith)
                requires
                    0 < (-v) as int <= 2_000_000_000i64,
                    0 <= d <= 1_000_000i64,
            ;
        }
        let p: i64 = (-v) * d;
        proof {
            vstd::arithmetic::div_mod::lemma_div_is_ordered(0, p as int, UNIT as int);
            vstd::arithmetic::div_mod::lemma_div_is_ordered(p as int,
                2_000_000_000_000_000int, UNIT as int);
        }
        -(p / UNIT)
    }
}

/// The bound `scaled_delta` proves, available on the specification side:
/// a speed within twice the speed limit, applied for at most `DT_CAP`
/// milliseconds, travels at most `MAX_FRAME_TRAVEL` sub-units.
pub proof fn lemma_vel_to_delta_bound(v: int, d: int)
    requires
        -2 * VEL_LIMIT <= v <= 2 * VEL_LIMIT,
        0 <= d <= DT_CAP,
    ensures
        -MAX_FRAME_TRAVEL <= vel_to_delta(v, d) <= MAX_FRAME_TRAVEL,
{
    if v >= 0 {
        assert(0 <= v * d <= 2_000_000_000_000_000int) by (nonlinear_arith)
            requires
                0 <= v <= 2_000_000_000int,
                0 <= d <= 1_000_000int,
        ;
        vstd::arithmetic::div_mod::lemma_div_is_ordered(0, v * d, UNIT as int);
        vstd::arithmetic::div_mod::lemma_div_is_ordered(v * d, 2_000_000_000_000_000int,
            UNIT as int);
    } else {
        assert(0 <= (-v) * d <= 2_000_000_000_000_000int) by (nonlinear_arith)
            requires
                0 < -v <= 2_000_000_000int,
                0 <= d <= 1_000_000int,
        ;
        vstd::arithmetic::div_mod::lemma_div_is_ordered(0, (-v) * d, UNIT as int);
        vstd::arithmetic::div_mod::lemma_div_is_ordered((-v) * d, 2_000_000_000_000_000int,
            UNIT as int);
    }
}

/// A sweep depends only on the world's geometry (tiles and solids), never on
/// its actors: the same vertical sweep holds in any world with equal geometry.
pub proof fn lemma_v_sweep_same_geometry(
    w1: World, w2: World, bw: int, bh: int, x: int, y0: int, delta: int, y1: int,
)
    requires
        w1.tiles@ == w2.tiles@,
        w1.tile_size == w2.tile_size,
        w1.grid_width == w2.grid_width,
        w1.solids@ == w2.solids@,
        w1.v_sweep(bw, bh, x, y0, delta, y1),
    ensures
        w2.v_sweep(bw, bh, x, y0, delta, y1),
{
    let k = choose|k: int|
        w1.v_sweep_stop(bw, bh, x, y0, delta, k) && y1 == step_pos(y0, delta, k);
    assert forall|j: int| 1 <= j <= k implies w2.free_at(x,
        #[trigger] step_pos(y0, delta, j), bw, bh) by {
        assert(w1.free_at(x, step_pos(y0, delta, j), bw, bh));
    };
    if k < abs_val(delta) {
        assert(!w1.free_at(x, step_pos(y0, delta, k + 1), bw, bh));
    }
    assert(w2.v_sweep_stop(bw, bh, x, y0, delta, k));
}

/// Saturates a coordinate into the world's range.
fn clamp_coord(v: i64) -> (r: i64)
    ensures
        r as int == clamp_coord_spec(v as int),
{
    if v < -POS_LIMIT {
        -POS_LIMIT
    } else if v > POS_LIMIT {
        POS_LIMIT
    } else {
        v
    }
}

} // verus!
