use vstd::prelude::*;
use crate::grid::GridPos;
use std::collections::HashSet;

verus! {

broadcast use vstd::std_specs::hash::group_hash_axioms;

/// The hash key of a cell: the two coordinates' 32-bit patterns side by side.
pub open spec fn cell_key(g: GridPos) -> u64 {
    let ux: int = if g.x >= 0 { g.x as int } else { g.x + 0x1_0000_0000 };
    let uy: int = if g.y >= 0 { g.y as int } else { g.y + 0x1_0000_0000 };
    (ux * 0x1_0000_0000 + uy) as u64
}

proof fn lemma_cell_key_injective(a: GridPos, b: GridPos)
    ensures
        cell_key(a) == cell_key(b) <==> a == b,
{
}

fn key_of(g: GridPos) -> (r: u64)
    ensures
        r == cell_key(g),
{
    let ux: u64 = if g.x >= 0 { g.x as u64 } else { (g.x as i64 + 0x1_0000_0000) as u64 };
    let uy: u64 = if g.y >= 0 { g.y as u64 } else { (g.y as i64 + 0x1_0000_0000) as u64 };
    ux * 0x1_0000_0000 + uy
}

/// A sparse set of occupied cells.
pub struct TileMap {
    cells: HashSet<u64>,
}

impl View for TileMap {
    type V = Set<GridPos>;

    closed spec fn view(&self) -> Set<GridPos> {
        Set::new(|g: GridPos| self.cells@.contains(cell_key(g)))
    }
}

impl TileMap {
    /// An empty map.
    pub fn new() -> (r: TileMap)
        ensures
            r@ == Set::<GridPos>::empty(),
    {
        let r = TileMap { cells: HashSet::new() };
        assert(r@ =~= Set::<GridPos>::empty());
        r
    }

    /// Whether the cell `g` holds a tile.
    pub fn contains(&self, g: GridPos) -> (r: bool)
        ensures
            r == self@.contains(g),
    {
        let k = key_of(g);
        self.cells.contains(&k)
    }

    /// Adds the cell `g`; no change when it is already there.
    pub fn insert(&mut self, g: GridPos)
        ensures
            final(self)@ == old(self)@.insert(g),
    {
        let k = key_of(g);
        self.cells.insert(k);
        proof {
            assert forall|h: GridPos| #[trigger] final(self)@.contains(h) == old(self)@.insert(g).contains(h) by {
                lemma_cell_key_injective(g, h);
            }
        }
        assert(final(self)@ =~= old(self)@.insert(g));
    }

    /// Removes the cell `g`; no change when it is absent.
    pub fn remove(&mut self, g: GridPos)
        ensures
            final(self)@ == old(self)@.remove(g),
    {
        let k = key_of(g);
        self.cells.remove(&k);
        proof {
            assert forall|h: GridPos| #[trigger] final(self)@.contains(h) == old(self)@.remove(g).contains(h) by {
                lemma_cell_key_injective(g, h);
            }
        }
        assert(final(self)@ =~= old(self)@.remove(g));
    }
}

/// Which sprite a tile shows: the surface row or the filled block beneath.
#[derive(Clone, Copy, Debug, PartialEq, Eq, Structural)]
pub enum TileDirection {
    CENTER,
    TOP,
}

impl TileDirection {
    /// The tile's index in the sprite atlas.
    pub fn atlas_index(&self) -> (r: usize)
        ensures
            r == (match *self {
                TileDirection::CENTER => 9usize,
                TileDirection::TOP => 1usize,
            }),
    {
        match self {
            TileDirection::CENTER => 9,
            TileDirection::TOP => 1,
        }
    }
}

/// One tile of the map, with the sprite it shows.
#[derive(Clone, Copy, Debug, PartialEq, Eq, Structural)]
pub struct Tile {
    pub pos: GridPos,
    pub direction: TileDirection,
}

/// Grid row of the surface that the starting world lays down.
pub const SURFACE_Y: i32 = 0;

/// The starting world: a surface row at `SURFACE_Y` for `-half_width <= x <= half_width`,
/// and beneath it a filled block `depth` rows deep.
pub open spec fn in_seed_region(g: GridPos, half_width: int, depth: int) -> bool {
    -half_width <= g.x <= half_width && SURFACE_Y - depth <= g.y <= SURFACE_Y
}

pub open spec fn seed_region(half_width: int, depth: int) -> Set<GridPos> {
    Set::new(|g: GridPos| in_seed_region(g, half_width, depth))
}

/// The surface row shows the top sprite; the block beneath shows the center one.
pub open spec fn seed_direction(g: GridPos) -> TileDirection {
    if g.y == SURFACE_Y {
        TileDirection::TOP
    } else {
        TileDirection::CENTER
    }
}

pub open spec fn lists(r: Seq<Tile>, g: GridPos) -> bool {
    exists|i: int| 0 <= i < r.len() && (#[trigger] r[i]).pos == g
}

/// Lays down the starting world into `map` and returns its tiles, each with its sprite.
pub fn spawn_tiles(map: &mut TileMap, half_width: i32, depth: i32) -> (r: Vec<Tile>)
    requires
        0 <= half_width < i32::MAX,
        0 <= depth < i32::MAX,
    ensures
        final(map)@ == old(map)@.union(seed_region(half_width as int, depth as int)),
        forall|i: int|
            0 <= i < r.len() ==> in_seed_region(#[trigger] r@[i].pos, half_width as int, depth as int)
                && r@[i].direction == seed_direction(r@[i].pos),
        forall|g: GridPos| in_seed_region(g, half_width as int, depth as int) ==> lists(r@, g),
{
    let ghost hw = half_width as int;
    let ghost dp = depth as int;
    let ghost start = map@;
    let mut r: Vec<Tile> = Vec::new();
    let mut y: i32 = SURFACE_Y;
    while y >= SURFACE_Y - depth
        invariant
            0 <= hw < i32::MAX,
            0 <= dp < i32::MAX,
            hw == half_width,
            dp == depth,
            SURFACE_Y - dp - 1 <= y <= SURFACE_Y,
            map@ == start.union(Set::new(|g: GridPos| in_seed_region(g, hw, dp) && g.y > y)),
            forall|i: int|
                0 <= i < r.len() ==> in_seed_region(#[trigger] r@[i].pos, hw, dp)
                    && r@[i].direction == seed_direction(r@[i].pos),
            forall|g: GridPos| in_seed_region(g, hw, dp) && g.y > y ==> lists(r@, g),
        decreases y - (SURFACE_Y - dp) + 1,
    {
        let direction = if y == SURFACE_Y {
            TileDirection::TOP
        } else {
            TileDirection::CENTER
        };
        let mut x: i32 = -half_width;
        while x <= half_width
            invariant
                0 <= hw < i32::MAX,
                0 <= dp < i32::MAX,
                hw == half_width,
                dp == depth,
                SURFACE_Y - dp <= y <= SURFACE_Y,
                -hw <= x <= hw + 1,
                direction == seed_direction(GridPos { x: 0, y }),
                map@ == start.union(
                    Set::new(
                        |g: GridPos| in_seed_region(g, hw, dp) && (g.y > y || (g.y == y && g.x < x)),
                    ),
                ),
                forall|i: int|
                    0 <= i < r.len() ==> in_seed_region(#[trigger] r@[i].pos, hw, dp)
                        && r@[i].direction == seed_direction(r@[i].pos),
                forall|g: GridPos|
                    in_seed_region(g, hw, dp) && (g.y > y || (g.y == y && g.x < x)) ==> lists(r@, g),
            decreases hw + 1 - x,
        {
            let pos = GridPos { x, y };
            let ghost before = r@;
            map.insert(pos);
            r.push(Tile { pos, direction });
            proof {
                assert(r@[before.len() as int] == Tile { pos, direction });
                assert forall|g: GridPos|
                    in_seed_region(g, hw, dp) && (g.y > y || (g.y == y && g.x < x + 1)) implies lists(r@, g) by {
                    if g == pos {
                        assert(r@[before.len() as int].pos == g);
                    } else {
                        let i = choose|i: int| 0 <= i < before.len() && (#[trigger] before[i]).pos == g;
                        assert(r@[i] == before[i]);
                    }
                }
            }
            assert(map@ =~= start.union(
                Set::new(
                    |g: GridPos| in_seed_region(g, hw, dp) && (g.y > y || (g.y == y && g.x < x + 1)),
                ),
            ));
            x = x + 1;
        }
        assert(map@ =~= start.union(Set::new(|g: GridPos| in_seed_region(g, hw, dp) && g.y > y - 1)));
        y = y - 1;
    }
    assert(map@ =~= start.union(seed_region(hw, dp)));
    r
}

/// Inserting makes a cell present, removing makes it absent, and doing either
/// a second time leaves the map as the first time left it.
pub proof fn lemma_edit_laws(m: Set<GridPos>, g: GridPos)
    ensures
        m.insert(g).contains(g),
        !m.remove(g).contains(g),
        m.insert(g).insert(g) == m.insert(g),
        m.remove(g).remove(g) == m.remove(g),
{
    assert(m.insert(g).insert(g) =~= m.insert(g));
    assert(m.remove(g).remove(g) =~= m.remove(g));
}

} // verus!
