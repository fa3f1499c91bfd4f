//! The fixed 32 x 32 tile grid and the placement rule: a build lands on an
//! empty in-bounds tile at least one of whose four axis-aligned neighbors,
//! scanned north, south, west, east, is the core or a connector.

use vstd::prelude::*;
use crate::geom::Vec2;

verus! {

/// Tiles per grid side.
pub const GRID_SIDE: u32 = 32;

/// The single core tile's coordinate, fixed at creation.
pub const CORE_X: u32 = 16;
pub const CORE_Y: u32 = 16;

/// Edge length of a tile, in milliunits.
pub const TILE_MILLI: i64 = 24_000;

/// World coordinate of the grid's lower-left corner, in milliunits.
pub const MAP_OFFSET_MILLI: i64 = -396_000;

/// What occupies a tile.
#[derive(Clone, Copy, PartialEq, Eq, Structural, Debug)]
pub enum TileKind {
    Empty,
    Core,
    Connector,
    Cannon,
}

/// The four neighbor directions, in the order the placement scan tries them.
#[derive(Clone, Copy, PartialEq, Eq, Structural, Debug)]
pub enum Dir {
    North,
    South,
    West,
    East,
}

/// Non-owning back-reference from a cannon tile to its turret-head record:
/// an index into the cannon arena, dereferenced defensively and never trusted
/// to be live.
#[derive(Clone, Copy, PartialEq, Eq, Structural, Debug)]
pub struct CannonBase(pub usize);

/// Flat index of a tile coordinate.
pub open spec fn tile_index(x: int, y: int) -> int {
    y * (GRID_SIDE as int) + x
}

/// The occupancy grid, with one back-reference slot per tile.
pub struct TileGrid {
    pub tiles: Vec<TileKind>,
    pub heads: Vec<Option<CannonBase>>,
}

pub open spec fn kind_at(g: TileGrid, x: int, y: int) -> TileKind {
    g.tiles@[tile_index(x, y)]
}

impl TileGrid {
    /// The grid always spans 32 x 32 tiles and holds the core exactly once,
    /// at its fixed coordinate.
    pub open spec fn wf(self) -> bool {
        &&& self.tiles@.len() == (GRID_SIDE * GRID_SIDE) as int
        &&& self.heads@.len() == (GRID_SIDE * GRID_SIDE) as int
        &&& kind_at(self, CORE_X as int, CORE_Y as int) == TileKind::Core
        &&& forall|i: int|
            0 <= i < self.tiles@.len() && i != tile_index(CORE_X as int, CORE_Y as int)
                ==> self.tiles@[i] != TileKind::Core
    }

    /// Builds the starting grid: everything empty but the core tile.
    pub fn new() -> (g: TileGrid)
        ensures
            g.wf(),
            forall|x: int, y: int|
                0 <= x < GRID_SIDE && 0 <= y < GRID_SIDE && !(x == CORE_X && y == CORE_Y)
                    ==> kind_at(g, x, y) == TileKind::Empty,
            forall|i: int| 0 <= i < g.heads@.len() ==> g.heads@[i] is None,
    {
        let total: usize = (GRID_SIDE * GRID_SIDE) as usize;
        let mut tiles: Vec<TileKind> = Vec::new();
        let mut heads: Vec<Option<CannonBase>> = Vec::new();
        let mut i: usize = 0;
        while i < total
            invariant
                i <= total,
                total == (GRID_SIDE * GRID_SIDE) as int,
                tiles@.len() == i,
                heads@.len() == i,
                forall|k: int| 0 <= k < i ==> tiles@[k] == TileKind::Empty,
                forall|k: int| 0 <= k < i ==> heads@[k] is None,
            decreases total - i,
        {
            tiles.push(TileKind::Empty);
            heads.push(None);
            i = i + 1;
        }
        let core_idx: usize = (CORE_Y * GRID_SIDE + CORE_X) as usize;
        tiles.set(core_idx, TileKind::Core);
        TileGrid { tiles, heads }
    }

    /// Reads a tile's occupant.
    pub fn at(&self, x: u32, y: u32) -> (k: TileKind)
        requires
            self.wf(),
            x < GRID_SIDE,
            y < GRID_SIDE,
        ensures
            k == kind_at(*self, x as int, y as int),
    {
        let idx: usize = (y * GRID_SIDE + x) as usize;
        self.tiles[idx]
    }

    /// Reads a tile's turret-head back-reference.
    pub fn head_at(&self, x: u32, y: u32) -> (h: Option<CannonBase>)
        requires
            self.wf(),
            x < GRID_SIDE,
            y < GRID_SIDE,
        ensures
            h == self.heads@[tile_index(x as int, y as int)],
    {
        let idx: usize = (y * GRID_SIDE + x) as usize;
        self.heads[idx]
    }

    /// Occupies a tile with a non-core kind, optionally linking a turret head.
    pub fn set_tile(&mut self, x: u32, y: u32, kind: TileKind, head: Option<CannonBase>)
        requires
            old(self).wf(),
            x < GRID_SIDE,
            y < GRID_SIDE,
            kind != TileKind::Core,
            !(x == CORE_X && y == CORE_Y),
        ensures
            final(self).wf(),
            final(self).tiles@ == old(self).tiles@.update(tile_index(x as int, y as int), kind),
            final(self).heads@ == old(self).heads@.update(tile_index(x as int, y as int), head),
    {
        let idx: usize = (y * GRID_SIDE + x) as usize;
        self.tiles.set(idx, kind);
        self.heads.set(idx, head);
    }
}

/// The tile column or row a world coordinate falls into. A coordinate left of
/// or below the grid saturates to zero, the way a pointer projection cast to
/// an unsigned coordinate lands on the first column; coordinates past the far
/// edge yield a coordinate at or beyond `GRID_SIDE`, which the placement
/// check rejects.
pub open spec fn tile_coord_spec(w: int) -> int {
    if w < MAP_OFFSET_MILLI {
        0
    } else {
        (w - MAP_OFFSET_MILLI) / (TILE_MILLI as int)
    }
}

/// Converts one world coordinate to its tile coordinate.
pub fn tile_coord(w: i64) -> (t: u64)
    requires
        -2_000_000_000 <= w <= 2_000_000_000,
    ensures
        t == tile_coord_spec(w as int),
{
    if w < MAP_OFFSET_MILLI {
        0
    } else {
        (w - MAP_OFFSET_MILLI) as u64 / (TILE_MILLI as u64)
    }
}

/// The world position of a tile's center.
pub open spec fn tile_center(x: int, y: int) -> Vec2 {
    Vec2 {
        x: (MAP_OFFSET_MILLI + x * TILE_MILLI + TILE_MILLI / 2) as i64,
        y: (MAP_OFFSET_MILLI + y * TILE_MILLI + TILE_MILLI / 2) as i64,
    }
}

/// Computes the world position of a tile's center.
pub fn tile_center_exec(x: u32, y: u32) -> (c: Vec2)
    requires
        x < GRID_SIDE,
        y < GRID_SIDE,
    ensures
        c == tile_center(x as int, y as int),
        crate::geom::vec_bounded(c, 400_000),
{
    Vec2 {
        x: MAP_OFFSET_MILLI + (x as i64) * TILE_MILLI + TILE_MILLI / 2,
        y: MAP_OFFSET_MILLI + (y as i64) * TILE_MILLI + TILE_MILLI / 2,
    }
}

/// The tile coordinate one step in a direction; may leave the grid.
pub open spec fn neighbor_coord(x: int, y: int, d: Dir) -> (int, int) {
    match d {
        Dir::North => (x, y + 1),
        Dir::South => (x, y - 1),
        Dir::West => (x - 1, y),
        Dir::East => (x + 1, y),
    }
}

/// Whether the neighbor in direction `d` lets a build land on `(x, y)`: it is
/// on the grid and holds the core or a connector.
pub open spec fn supports(g: TileGrid, x: int, y: int, d: Dir) -> bool {
    let n = neighbor_coord(x, y, d);
    &&& 0 <= n.0 < GRID_SIDE
    &&& 0 <= n.1 < GRID_SIDE
    &&& (kind_at(g, n.0, n.1) == TileKind::Core || kind_at(g, n.0, n.1) == TileKind::Connector)
}

/// The first supporting neighbor direction in scan order, if any.
pub open spec fn supporting_dir(g: TileGrid, x: int, y: int) -> Option<Dir> {
    if supports(g, x, y, Dir::North) {
        Some(Dir::North)
    } else if supports(g, x, y, Dir::South) {
        Some(Dir::South)
    } else if supports(g, x, y, Dir::West) {
        Some(Dir::West)
    } else if supports(g, x, y, Dir::East) {
        Some(Dir::East)
    } else {
        None
    }
}

/// A validated placement: the target tile and the neighbor direction that
/// validated it.
#[derive(Clone, Copy, PartialEq, Eq, Structural, Debug)]
pub struct PlacementSpot {
    pub tile_x: u32,
    pub tile_y: u32,
    pub dir: Dir,
}

/// Where a build pointed at `p` would land: `None` when the hovered tile is
/// off the grid, occupied, or has no core or connector among its four
/// neighbors; otherwise the tile and the first supporting direction.
pub open spec fn placement_spot(g: TileGrid, p: Vec2) -> Option<PlacementSpot> {
    let tx = tile_coord_spec(p.x as int);
    let ty = tile_coord_spec(p.y as int);
    if !(tx < GRID_SIDE && ty < GRID_SIDE) {
        None
    } else if kind_at(g, tx, ty) != TileKind::Empty {
        None
    } else {
        match supporting_dir(g, tx, ty) {
            Some(d) => Some(PlacementSpot { tile_x: tx as u32, tile_y: ty as u32, dir: d }),
            None => None,
        }
    }
}

/// Checks whether one neighbor supports a build.
fn supports_exec(g: &TileGrid, x: u32, y: u32, d: Dir) -> (r: bool)
    requires
        g.wf(),
        x < GRID_SIDE,
        y < GRID_SIDE,
    ensures
        r == supports(*g, x as int, y as int, d),
{
    let (nx_ok, nx, ny): (bool, u32, u32) = match d {
        Dir::North => (y + 1 < GRID_SIDE, x, y + 1),
        Dir::South => (y >= 1, x, if y >= 1 { y - 1 } else { 0 }),
        Dir::West => (x >= 1, if x >= 1 { x - 1 } else { 0 }, y),
        Dir::East => (x + 1 < GRID_SIDE, x + 1, y),
    };
    if !nx_ok {
        return false;
    }
    let k = g.at(nx, ny);
    k == TileKind::Core || k == TileKind::Connector
}

/// Evaluates the placement rule at the pointed-at position.
pub fn evaluate_spot(g: &TileGrid, p: Vec2) -> (r: Option<PlacementSpot>)
    requires
        g.wf(),
        crate::geom::vec_bounded(p, crate::geom::WORLD_LIMIT as int),
    ensures
        r == placement_spot(*g, p),
{
    let tx64 = tile_coord(p.x);
    let ty64 = tile_coord(p.y);
    if !(tx64 < GRID_SIDE as u64 && ty64 < GRID_SIDE as u64) {
        return None;
    }
    let tx = tx64 as u32;
    let ty = ty64 as u32;
    if g.at(tx, ty) != TileKind::Empty {
        return None;
    }
    if supports_exec(g, tx, ty, Dir::North) {
        Some(PlacementSpot { tile_x: tx, tile_y: ty, dir: Dir::North })
    } else if supports_exec(g, tx, ty, Dir::South) {
        Some(PlacementSpot { tile_x: tx, tile_y: ty, dir: Dir::South })
    } else if supports_exec(g, tx, ty, Dir::West) {
        Some(PlacementSpot { tile_x: tx, tile_y: ty, dir: Dir::West })
    } else if supports_exec(g, tx, ty, Dir::East) {
        Some(PlacementSpot { tile_x: tx, tile_y: ty, dir: Dir::East })
    } else {
        None
    }
}

/// The sprite-orientation flags (flip x, flip y, transpose) a cannon base
/// takes from the neighbor direction that validated its placement.
pub fn flip_flags(d: Dir) -> (f: (bool, bool, bool))
    ensures
        d == Dir::North ==> f == (false, false, true),
        d == Dir::South ==> f == (false, true, true),
        d == Dir::West ==> f == (false, false, false),
        d == Dir::East ==> f == (true, false, false),
{
    match d {
        Dir::North => (false, false, true),
        Dir::South => (false, true, true),
        Dir::West => (false, false, false),
        Dir::East => (true, false, false),
    }
}

} // verus!
