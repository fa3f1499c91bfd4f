//! The records the entity store owns: cannons, monsters, bullets and the at
//! most one pending placement ghost, with their well-formedness conditions.

use vstd::prelude::*;
use crate::components::{Health, Item, Money, Species, cooldown_interval_spec};
use crate::geom::{Vec2, WORLD_LIMIT, vec_bounded};
use crate::grid::{Dir, GRID_SIDE, tile_center};

verus! {

/// Monsters keep within their spawn radius, so their coordinates stay under
/// this bound.
pub const MONSTER_LIMIT: i64 = 240_000;

/// Cannons stand on tile centers, all of which lie under this bound.
pub const CANNON_LIMIT: i64 = 400_000;

/// Largest magnitude of a bullet velocity component: the largest bullet speed.
pub const BULLET_VEL_LIMIT: i64 = 29_000;

/// A turret. It stands on its owning tile, turns toward its current target
/// and fires a bullet whenever its cooldown runs out while a target exists.
#[derive(Clone, Copy, PartialEq, Eq, Structural, Debug)]
pub struct Cannon {
    pub species: Species,
    /// Milliseconds until the cannon may fire again.
    pub cooldown_ms: i64,
    /// World position: the center of the owning tile.
    pub pos: Vec2,
    /// Facing, as the offset toward the last target; purely visual.
    pub aim: Vec2,
    /// The owning tile's coordinate.
    pub tile_x: u32,
    pub tile_y: u32,
    /// Which neighbor direction validated the placement; fixes the base
    /// sprite's orientation.
    pub dir: Dir,
}

pub open spec fn cannon_wf(c: Cannon) -> bool {
    &&& 0 <= c.cooldown_ms <= cooldown_interval_spec(c.species)
    &&& c.tile_x < GRID_SIDE
    &&& c.tile_y < GRID_SIDE
    &&& c.pos == tile_center(c.tile_x as int, c.tile_y as int)
    &&& vec_bounded(c.pos, CANNON_LIMIT as int)
}

/// A monster, marching straight toward the origin.
#[derive(Clone, Copy, PartialEq, Eq, Structural, Debug)]
pub struct Monster {
    pub species: Species,
    pub pos: Vec2,
    pub health: Health,
}

pub open spec fn monster_wf(m: Monster) -> bool {
    &&& vec_bounded(m.pos, MONSTER_LIMIT as int)
    &&& m.health.0 >= 1
}

/// A bullet in flight. It advances by its stored velocity once per tick;
/// the displacement is deliberately not scaled by elapsed time.
#[derive(Clone, Copy, PartialEq, Eq, Structural, Debug)]
pub struct Bullet {
    pub species: Species,
    pub pos: Vec2,
    pub velocity: Vec2,
}

pub open spec fn bullet_wf(b: Bullet) -> bool {
    &&& vec_bounded(b.pos, WORLD_LIMIT as int)
    &&& vec_bounded(b.velocity, BULLET_VEL_LIMIT as int)
}

/// The transient preview of a not-yet-committed placement. At most one exists
/// at a time; a buy request creates it, a commit or a cancel destroys it.
#[derive(Clone, Copy, PartialEq, Eq, Structural, Debug)]
pub struct ItemPlacementGhost {
    pub item: Item,
    pub cost: Money,
    /// Displayed position: the hovered tile's center while placeable, the raw
    /// pointer otherwise.
    pub pos: Vec2,
    /// Whether the hovered tile accepts the item this instant.
    pub valid: bool,
}

pub open spec fn ghost_record_wf(g: ItemPlacementGhost) -> bool {
    vec_bounded(g.pos, WORLD_LIMIT as int)
}

} // verus!
