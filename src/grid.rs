use vstd::prelude::*;

verus! {

/// Edge length of one grid cell, in pixels.
pub const TILE_PX: i64 = 16;

/// World units per pixel: world positions are hundredths of a pixel.
pub const SUBPIXELS: i64 = 100;

/// Edge length of one grid cell, in world units.
pub const TILE_UNITS: i64 = 1600;

/// `a / d` rounded to the nearest integer, halves rounded away from zero.
pub open spec fn round_div(a: int, d: int) -> int
    recommends
        d > 0,
{
    if a >= 0 {
        (a + d / 2) / d
    } else {
        -((-a + d / 2) / d)
    }
}

/// The `i32` nearest to `v` (a float-to-int cast saturates the same way).
pub open spec fn saturate_i32(v: int) -> i32 {
    if v > i32::MAX {
        i32::MAX
    } else if v < i32::MIN {
        i32::MIN
    } else {
        v as i32
    }
}

proof fn lemma_div_split(n: int, d: int, h: int)
    requires
        n >= 0,
        d > 0,
        0 <= h <= d,
    ensures
        (n + h) / d == n / d + (if n % d + h >= d { 1int } else { 0int }),
{
    let q = n / d;
    let r = n % d;
    vstd::arithmetic::div_mod::lemma_fundamental_div_mod(n, d);
    if r + h >= d {
        vstd::arithmetic::div_mod::lemma_div_multiples_vanish_fancy(q + 1, r + h - d, d);
        assert(d * (q + 1) + (r + h - d) == n + h) by (nonlinear_arith)
            requires
                n == d * q + r,
        ;
    } else {
        vstd::arithmetic::div_mod::lemma_div_multiples_vanish_fancy(q, r + h, d);
    }
}

/// Integer division of `a` by `d`, rounded to nearest with halves away from zero.
pub fn div_round(a: i64, d: i64) -> (r: i64)
    requires
        d > 1,
    ensures
        r == round_div(a as int, d as int),
{
    let h: i64 = d / 2;
    if a >= 0 {
        let q: i64 = a / d;
        let m: i64 = a % d;
        proof {
            lemma_div_split(a as int, d as int, h as int);
            vstd::arithmetic::div_mod::lemma_div_is_ordered_by_denominator(a as int, 2, d as int);
        }
        if m >= d - h {
            q + 1
        } else {
            q
        }
    } else {
        // -a == n + 1, and n fits in an i64
        let n: i64 = -(a + 1);
        let q: i64 = n / d;
        let m: i64 = n % d;
        proof {
            lemma_div_split(n as int, d as int, (h + 1) as int);
            vstd::arithmetic::div_mod::lemma_div_is_ordered_by_denominator(n as int, 2, d as int);
        }
        if m >= d - h - 1 {
            -(q + 1)
        } else {
            -q
        }
    }
}

/// An integer cell address of the tile map.
#[derive(Clone, Copy, Debug, PartialEq, Eq, Hash, Default, Structural)]
pub struct GridPos {
    pub x: i32,
    pub y: i32,
}

/// A continuous position, in hundredths of a pixel.
#[derive(Clone, Copy, Debug, PartialEq, Eq, Hash, Default, Structural)]
pub struct WorldPos {
    pub x: i64,
    pub y: i64,
}

/// The world coordinate of the cell at grid coordinate `g`.
pub open spec fn world_of(g: int) -> int {
    g * TILE_UNITS
}

/// The grid coordinate of world coordinate `w`: nearest cell, halves away from zero.
pub open spec fn grid_of(w: int) -> i32 {
    saturate_i32(round_div(w, TILE_UNITS as int))
}

pub open spec fn world_of_grid(g: GridPos) -> WorldPos {
    WorldPos { x: world_of(g.x as int) as i64, y: world_of(g.y as int) as i64 }
}

pub open spec fn grid_of_world(p: WorldPos) -> GridPos {
    GridPos { x: grid_of(p.x as int), y: grid_of(p.y as int) }
}

pub open spec fn snap_of(p: WorldPos) -> WorldPos {
    world_of_grid(grid_of_world(p))
}

fn to_grid_axis(w: i64) -> (r: i32)
    ensures
        r == grid_of(w as int),
{
    let q: i64 = div_round(w, TILE_UNITS);
    if q > i32::MAX as i64 {
        i32::MAX
    } else if q < i32::MIN as i64 {
        i32::MIN
    } else {
        q as i32
    }
}

impl GridPos {
    pub fn new(x: i32, y: i32) -> (r: GridPos)
        ensures
            r.x == x,
            r.y == y,
    {
        GridPos { x, y }
    }

    /// The world position of this cell's anchor: each axis times the tile size, exactly.
    pub fn as_world(&self) -> (r: WorldPos)
        ensures
            r == world_of_grid(*self),
            r.x == self.x * TILE_UNITS,
            r.y == self.y * TILE_UNITS,
    {
        WorldPos { x: self.x as i64 * TILE_UNITS, y: self.y as i64 * TILE_UNITS }
    }
}

impl WorldPos {
    pub fn new(x: i64, y: i64) -> (r: WorldPos)
        ensures
            r.x == x,
            r.y == y,
    {
        WorldPos { x, y }
    }

    /// The cell that holds this position: each axis divided by the tile size and
    /// rounded to nearest, halves away from zero, saturated to `i32`.
    pub fn as_grid(&self) -> (r: GridPos)
        ensures
            r == grid_of_world(*self),
    {
        GridPos { x: to_grid_axis(self.x), y: to_grid_axis(self.y) }
    }

    /// The anchor of the cell that holds this position.
    pub fn grid_snap(&self) -> (r: Self)
        ensures
            r == snap_of(*self),
    {
        self.as_grid().as_world()
    }
}

proof fn lemma_round_axis(g: i32)
    ensures
        grid_of(world_of(g as int)) == g,
{
    let w = world_of(g as int);
    if g >= 0 {
        vstd::arithmetic::div_mod::lemma_div_multiples_vanish_fancy(g as int, 800, 1600);
        assert(round_div(w, 1600) == g);
    } else {
        vstd::arithmetic::div_mod::lemma_div_multiples_vanish_fancy(-g, 800, 1600);
        assert(round_div(w, 1600) == g);
    }
}

/// Converting a cell to the world and back gives the same cell.
pub proof fn lemma_grid_round_trip(g: GridPos)
    ensures
        grid_of_world(world_of_grid(g)) == g,
{
    lemma_round_axis(g.x);
    lemma_round_axis(g.y);
}

/// Snapping an already snapped position changes nothing.
pub proof fn lemma_snap_idempotent(p: WorldPos)
    ensures
        snap_of(snap_of(p)) == snap_of(p),
{
    lemma_grid_round_trip(grid_of_world(p));
}

} // verus!
