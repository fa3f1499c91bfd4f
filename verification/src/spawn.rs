//! The wave director: a single timer that, on expiry, resets itself to a
//! random five-to-fifteen-second interval and spawns one monster of a random
//! species on the spawn circle, one health point tankier than the last.

use vstd::prelude::*;
use crate::components::{Health, Species, DEFAULT_HEALTH};
use crate::entities::{Monster, monster_wf};
use crate::geom::{Vec2, isqrt, lemma_le_sqrt, norm_sq, vec_bounded};
use crate::rng::rand_below;

verus! {

/// Radius of the circle monsters spawn on, in milliunits.
pub const SPAWN_RADIUS: i64 = 240_000;

/// The spawn radius squared.
pub const SPAWN_RADIUS_SQ: i64 = 57_600_000_000;

/// Shortest wait between two spawns, in milliseconds.
pub const SPAWN_COOLDOWN_BASE: i64 = 5_000;

/// The wait before the first spawn of a session, in milliseconds.
pub const SPAWN_COOLDOWN_START: i64 = 10_000;

/// The spawn timer and the running count of monsters spawned.
#[derive(Clone, Copy, PartialEq, Eq, Structural, Debug)]
pub struct SpawnDirector {
    /// Milliseconds until the next spawn.
    pub cooldown_ms: i64,
    /// How many monsters this session has spawned.
    pub spawned: i64,
}

pub open spec fn spawner_wf(d: SpawnDirector) -> bool {
    &&& 0 < d.cooldown_ms <= 15_000
    &&& d.spawned >= 0
}

/// Health of the n-th monster spawned (0-indexed): the default plus n,
/// saturating at the health counter's capacity.
pub open spec fn spawn_health(spawned: int) -> int {
    if DEFAULT_HEALTH + spawned > i32::MAX {
        i32::MAX as int
    } else {
        DEFAULT_HEALTH + spawned
    }
}

/// Draws a random point of the spawn circle: its distance from the origin
/// rounds to the spawn radius exactly.
fn spawn_position() -> (p: Vec2)
    ensures
        vec_bounded(p, SPAWN_RADIUS as int),
        SPAWN_RADIUS_SQ - 480_001 < norm_sq(p) <= SPAWN_RADIUS_SQ,
{
    let xr = rand_below(480_001);
    let x: i64 = xr as i64 - SPAWN_RADIUS;
    proof {
        assert(0 <= x * x <= 57_600_000_000) by (nonlinear_arith)
            requires
                -240_000 <= x <= 240_000,
        ;
    }
    let m2: i64 = SPAWN_RADIUS_SQ - x * x;
    let yv = isqrt(m2 as u64);
    proof {
        assert(m2 < (240_000int + 1) * (240_000int + 1)) by (nonlinear_arith)
            requires
                m2 <= 57_600_000_000,
        ;
        lemma_le_sqrt(yv as int, m2 as int, 240_000int);
    }
    let sgn = rand_below(2);
    let y: i64 = if sgn == 0 {
        yv as i64
    } else {
        -(yv as i64)
    };
    proof {
        assert(y * y == yv * yv) by (nonlinear_arith)
            requires
                y == yv || y == -(yv as int),
        ;
        // isqrt leaves at most a sliver: m2 < (yv + 1)^2, so yv^2 > m2 - 2*yv - 1
        assert(m2 < yv * yv + 2 * yv + 1) by (nonlinear_arith)
            requires
                m2 < (yv + 1) * (yv + 1),
        ;
    }
    Vec2 { x, y }
}

/// Spawns the `spawned`-th monster (0-indexed): a uniformly random species,
/// a random point of the spawn circle, and escalating health.
pub fn spawn_monster(spawned: i64) -> (m: Monster)
    requires
        spawned >= 0,
    ensures
        monster_wf(m),
        m.health.0 == spawn_health(spawned as int),
        vec_bounded(m.pos, SPAWN_RADIUS as int),
        SPAWN_RADIUS_SQ - 480_001 < norm_sq(m.pos) <= SPAWN_RADIUS_SQ,
{
    let k = rand_below(3);
    let species = if k == 0 {
        Species::Red
    } else if k == 1 {
        Species::Green
    } else {
        Species::Blue
    };
    let pos = spawn_position();
    let health: i32 = if spawned >= (i32::MAX - DEFAULT_HEALTH) as i64 {
        i32::MAX
    } else {
        DEFAULT_HEALTH + spawned as i32
    };
    Monster { species, pos, health: Health(health) }
}

} // verus!
