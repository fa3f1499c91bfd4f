//! Targeting and combat: each cannon tracks the nearest monster of its own
//! species and fires when its cooldown runs out; each bullet advances by its
//! stored velocity and strikes the first close-enough monster of its species,
//! which dies and pays a reward exactly when its health runs out.

use vstd::prelude::*;
use crate::components::{
    Health, Species, KILL_REWARD, bullet_speed_of, bullet_speed_spec, cooldown_interval_of,
    cooldown_interval_spec, damage_spec,
};
use crate::entities::{Bullet, Cannon, Monster, bullet_wf, cannon_wf, monster_wf};
use crate::geom::{Vec2, WORLD_LIMIT, aim_velocity, aimed_velocity, dist_sq, dist_sq_exec,
    norm_sq, stepped_toward_origin, vec_bounded};
use crate::wallet::{Wallet, earned};

verus! {

/// A bullet strikes a monster strictly within this squared distance.
pub const HIT_RADIUS_SQ: i64 = 900_000_000;

/// A monster at or within this squared distance of the origin has reached the
/// core.
pub const LOSE_RADIUS_SQ: i64 = 576_000_000;

// ---------------------------------------------------------------------------
// Targeting

/// Monster `i` is the one a cannon of species `s` standing at `cpos` aims at:
/// of matching species, no matching monster is strictly nearer, and every
/// earlier matching monster is strictly farther (ties go to the first).
pub open spec fn is_target(monsters: Seq<Monster>, s: Species, cpos: Vec2, i: int) -> bool {
    &&& 0 <= i < monsters.len()
    &&& monsters[i].species == s
    &&& forall|k: int|
        0 <= k < monsters.len() && (#[trigger] monsters[k]).species == s
            ==> dist_sq(cpos, monsters[i].pos) <= dist_sq(cpos, monsters[k].pos)
    &&& forall|k: int|
        0 <= k < i && (#[trigger] monsters[k]).species == s
            ==> dist_sq(cpos, monsters[k].pos) > dist_sq(cpos, monsters[i].pos)
}

pub open spec fn has_target(monsters: Seq<Monster>, s: Species, cpos: Vec2) -> bool {
    exists|i: int| #[trigger] is_target(monsters, s, cpos, i)
}

/// The unique index satisfying `is_target`.
pub open spec fn target_index(monsters: Seq<Monster>, s: Species, cpos: Vec2) -> int {
    choose|i: int| #[trigger] is_target(monsters, s, cpos, i)
}

pub proof fn lemma_target_unique(monsters: Seq<Monster>, s: Species, cpos: Vec2, i: int, j: int)
    requires
        is_target(monsters, s, cpos, i),
        is_target(monsters, s, cpos, j),
    ensures
        i == j,
{
    if i < j {
        assert(dist_sq(cpos, monsters[i].pos) > dist_sq(cpos, monsters[j].pos));
        assert(dist_sq(cpos, monsters[i].pos) <= dist_sq(cpos, monsters[j].pos));
    }
    if j < i {
        assert(dist_sq(cpos, monsters[j].pos) > dist_sq(cpos, monsters[i].pos));
        assert(dist_sq(cpos, monsters[j].pos) <= dist_sq(cpos, monsters[i].pos));
    }
}

/// Finds the index of the nearest matching-species monster, the first such on
/// a tie, observing all monsters as they stand.
pub fn find_target(monsters: &Vec<Monster>, s: Species, cpos: Vec2) -> (r: Option<usize>)
    requires
        forall|k: int| 0 <= k < monsters@.len() ==> monster_wf(#[trigger] monsters@[k]),
        vec_bounded(cpos, 400_000),
    ensures
        r matches Some(b) ==> is_target(monsters@, s, cpos, b as int),
        r is None ==> !has_target(monsters@, s, cpos),
        (r is Some) == has_target(monsters@, s, cpos),
{
    let m = monsters.len();
    let mut best: Option<usize> = None;
    let mut best_d2: i64 = 0;
    let mut j: usize = 0;
    while j < m
        invariant
            j <= m,
            m == monsters@.len(),
            forall|k: int| 0 <= k < monsters@.len() ==> monster_wf(#[trigger] monsters@[k]),
            vec_bounded(cpos, 400_000),
            best is None ==> forall|k: int|
                0 <= k < j ==> (#[trigger] monsters@[k]).species != s,
            best matches Some(b) ==> {
                &&& b < j
                &&& monsters@[b as int].species == s
                &&& best_d2 == dist_sq(cpos, monsters@[b as int].pos)
                &&& forall|k: int|
                    0 <= k < j && (#[trigger] monsters@[k]).species == s
                        ==> dist_sq(cpos, monsters@[b as int].pos) <= dist_sq(cpos, monsters@[k].pos)
                &&& forall|k: int|
                    0 <= k < b && (#[trigger] monsters@[k]).species == s
                        ==> dist_sq(cpos, monsters@[k].pos) > dist_sq(cpos, monsters@[b as int].pos)
            },
        decreases m - j,
    {
        if monsters[j].species == s {
            let d2 = dist_sq_exec(cpos, monsters[j].pos);
            match best {
                None => {
                    best = Some(j);
                    best_d2 = d2;
                },
                Some(_) => {
                    if d2 < best_d2 {
                        best = Some(j);
                        best_d2 = d2;
                    }
                },
            }
        }
        j = j + 1;
    }
    proof {
        if best is Some {
            let b = best->Some_0 as int;
            assert(is_target(monsters@, s, cpos, b));
        } else {
            if has_target(monsters@, s, cpos) {
                let i = choose|i: int| #[trigger] is_target(monsters@, s, cpos, i);
                assert(monsters@[i].species == s);
            }
        }
    }
    best
}

// ---------------------------------------------------------------------------
// Cannon step

/// A cannon's cooldown after one tick spent with a target present: it runs
/// down by the elapsed time and resets to the species' interval on firing.
pub open spec fn cooldown_after(cd: int, dt: int, s: Species) -> int {
    if cd - dt <= 0 {
        cooldown_interval_spec(s)
    } else {
        cd - dt
    }
}

/// The cannon after one tick: with a target present it turns toward the
/// target and its cooldown advances exactly once; with none it idles
/// unchanged.
pub open spec fn cannon_after(c: Cannon, monsters: Seq<Monster>, dt: int) -> Cannon {
    if has_target(monsters, c.species, c.pos) {
        let t = monsters[target_index(monsters, c.species, c.pos)];
        Cannon {
            cooldown_ms: cooldown_after(c.cooldown_ms as int, dt, c.species) as i64,
            aim: Vec2 { x: (t.pos.x - c.pos.x) as i64, y: (t.pos.y - c.pos.y) as i64 },
            ..c
        }
    } else {
        c
    }
}

/// The bullet a cannon fires this tick, if its cooldown ran out while a
/// target was present: it starts at the cannon, aimed at the target, at the
/// species' bullet speed.
pub open spec fn fired_bullet(c: Cannon, monsters: Seq<Monster>, dt: int) -> Option<Bullet> {
    if has_target(monsters, c.species, c.pos) && c.cooldown_ms - dt <= 0 {
        let t = monsters[target_index(monsters, c.species, c.pos)];
        Some(
            Bullet {
                species: c.species,
                pos: c.pos,
                velocity: aimed_velocity(c.pos, t.pos, bullet_speed_spec(c.species)),
            },
        )
    } else {
        None
    }
}

pub open spec fn opt_bullet_seq(o: Option<Bullet>) -> Seq<Bullet> {
    match o {
        Some(b) => seq![b],
        None => Seq::empty(),
    }
}

/// The bullets the first `n` cannons fire this tick, in cannon order.
pub open spec fn fired_bullets_upto(
    cannons: Seq<Cannon>,
    monsters: Seq<Monster>,
    dt: int,
    n: int,
) -> Seq<Bullet>
    decreases n,
{
    if n <= 0 {
        Seq::empty()
    } else {
        fired_bullets_upto(cannons, monsters, dt, n - 1)
            + opt_bullet_seq(fired_bullet(cannons[n - 1], monsters, dt))
    }
}

/// The bullets all cannons fire this tick, in cannon order.
pub open spec fn fired_bullets(cannons: Seq<Cannon>, monsters: Seq<Monster>, dt: int) -> Seq<
    Bullet,
> {
    fired_bullets_upto(cannons, monsters, dt, cannons.len() as int)
}

/// Advances one cannon by one tick against the monsters as they stood at the
/// start of the combat pass, returning the cannon's new state and the bullet
/// it fired, if any.
pub fn cannon_step(c: Cannon, monsters: &Vec<Monster>, dt: u32) -> (r: (Cannon, Option<Bullet>))
    requires
        cannon_wf(c),
        forall|k: int| 0 <= k < monsters@.len() ==> monster_wf(#[trigger] monsters@[k]),
    ensures
        r.0 == cannon_after(c, monsters@, dt as int),
        r.1 == fired_bullet(c, monsters@, dt as int),
        cannon_wf(r.0),
        r.1 matches Some(b) ==> bullet_wf(b),
{
    let target = find_target(monsters, c.species, c.pos);
    match target {
        None => (c, None),
        Some(j) => {
            proof {
                let ti = target_index(monsters@, c.species, c.pos);
                assert(is_target(monsters@, c.species, c.pos, ti));
                lemma_target_unique(monsters@, c.species, c.pos, j as int, ti);
            }
            let tp = monsters[j].pos;
            let aim = Vec2 { x: tp.x - c.pos.x, y: tp.y - c.pos.y };
            let cd1 = c.cooldown_ms - dt as i64;
            if cd1 <= 0 {
                let vel = aim_velocity(c.pos, tp, bullet_speed_of(c.species));
                let nc = Cannon {
                    cooldown_ms: cooldown_interval_of(c.species),
                    aim,
                    ..c
                };
                (nc, Some(Bullet { species: c.species, pos: c.pos, velocity: vel }))
            } else {
                (Cannon { cooldown_ms: cd1, aim, ..c }, None)
            }
        },
    }
}

// ---------------------------------------------------------------------------
// Bullet flight and collision

/// A bullet one tick later: displaced by its stored velocity.
pub open spec fn advanced_bullet(b: Bullet) -> Bullet {
    Bullet {
        pos: Vec2 {
            x: (b.pos.x + b.velocity.x) as i64,
            y: (b.pos.y + b.velocity.y) as i64,
        },
        ..b
    }
}

/// Whether a bullet strikes this monster: same species, strictly within the
/// hit radius.
pub open spec fn hits_monster(b: Bullet, m: Monster) -> bool {
    m.species == b.species && dist_sq(b.pos, m.pos) < HIT_RADIUS_SQ
}

/// Monster `j` is the first one the bullet strikes.
pub open spec fn bullet_hits(monsters: Seq<Monster>, b: Bullet, j: int) -> bool {
    &&& 0 <= j < monsters.len()
    &&& hits_monster(b, monsters[j])
    &&& forall|k: int| 0 <= k < j ==> !hits_monster(b, #[trigger] monsters[k])
}

pub open spec fn bullet_hits_any(monsters: Seq<Monster>, b: Bullet) -> bool {
    exists|j: int| #[trigger] bullet_hits(monsters, b, j)
}

/// The unique index satisfying `bullet_hits`.
pub open spec fn hit_index(monsters: Seq<Monster>, b: Bullet) -> int {
    choose|j: int| #[trigger] bullet_hits(monsters, b, j)
}

pub proof fn lemma_hit_unique(monsters: Seq<Monster>, b: Bullet, i: int, j: int)
    requires
        bullet_hits(monsters, b, i),
        bullet_hits(monsters, b, j),
    ensures
        i == j,
{
    if i < j {
        assert(!hits_monster(b, monsters[i]));
    }
    if j < i {
        assert(!hits_monster(b, monsters[j]));
    }
}

/// Finds the first monster an (already advanced, in-world) bullet strikes.
pub fn find_hit(monsters: &Vec<Monster>, b: Bullet) -> (r: Option<usize>)
    requires
        forall|k: int| 0 <= k < monsters@.len() ==> monster_wf(#[trigger] monsters@[k]),
        vec_bounded(b.pos, WORLD_LIMIT as int),
    ensures
        r matches Some(j) ==> bullet_hits(monsters@, b, j as int),
        r is None ==> !bullet_hits_any(monsters@, b),
{
    let m = monsters.len();
    let mut j: usize = 0;
    while j < m
        invariant
            j <= m,
            m == monsters@.len(),
            forall|k: int| 0 <= k < monsters@.len() ==> monster_wf(#[trigger] monsters@[k]),
            vec_bounded(b.pos, WORLD_LIMIT as int),
            forall|k: int| 0 <= k < j ==> !hits_monster(b, #[trigger] monsters@[k]),
        decreases m - j,
    {
        if monsters[j].species == b.species {
            let d2 = dist_sq_exec(b.pos, monsters[j].pos);
            if d2 < HIT_RADIUS_SQ {
                return Some(j);
            }
        }
        j = j + 1;
    }
    proof {
        if bullet_hits_any(monsters@, b) {
            let i = choose|i: int| #[trigger] bullet_hits(monsters@, b, i);
            assert(hits_monster(b, monsters@[i]));
        }
    }
    None
}

/// The outcome of one advanced bullet against the field: a bullet out of the
/// world vanishes; one that strikes is consumed, the struck monster loses the
/// species' damage and, exactly when its health thereby runs out, is removed
/// and pays one reward; a bullet that strikes nothing survives.
pub open spec fn after_bullet(monsters: Seq<Monster>, w: Wallet, b: Bullet) -> (
    Seq<Monster>,
    Wallet,
    Seq<Bullet>,
) {
    if !vec_bounded(b.pos, WORLD_LIMIT as int) {
        (monsters, w, Seq::empty())
    } else if bullet_hits_any(monsters, b) {
        let j = hit_index(monsters, b);
        let h = monsters[j].health.0 - damage_spec(b.species);
        if h <= 0 {
            (monsters.remove(j), earned(w, b.species, KILL_REWARD), Seq::empty())
        } else {
            (
                monsters.update(j, Monster { health: Health(h as i32), ..monsters[j] }),
                w,
                Seq::empty(),
            )
        }
    } else {
        (monsters, w, seq![b])
    }
}

/// The state after the first `n` bullets of the pass have flown, in order:
/// the monsters, the wallet, and the surviving bullets.
pub open spec fn bullets_pass_upto(
    monsters: Seq<Monster>,
    w: Wallet,
    bullets: Seq<Bullet>,
    n: int,
) -> (Seq<Monster>, Wallet, Seq<Bullet>)
    decreases n,
{
    if n <= 0 {
        (monsters, w, Seq::empty())
    } else {
        let prev = bullets_pass_upto(monsters, w, bullets, n - 1);
        let step = after_bullet(prev.0, prev.1, advanced_bullet(bullets[n - 1]));
        (step.0, step.1, prev.2 + step.2)
    }
}

/// The state after the whole bullet pass.
pub open spec fn bullets_pass(monsters: Seq<Monster>, w: Wallet, bullets: Seq<Bullet>) -> (
    Seq<Monster>,
    Wallet,
    Seq<Bullet>,
) {
    bullets_pass_upto(monsters, w, bullets, bullets.len() as int)
}

/// A bullet pass never adds monsters: it can only wound or remove them.
pub proof fn lemma_pass_monster_count(
    monsters: Seq<Monster>,
    w: Wallet,
    bullets: Seq<Bullet>,
    n: int,
)
    ensures
        bullets_pass_upto(monsters, w, bullets, n).0.len() <= monsters.len(),
    decreases n,
{
    if n > 0 {
        lemma_pass_monster_count(monsters, w, bullets, n - 1);
        let prev = bullets_pass_upto(monsters, w, bullets, n - 1);
        let b = advanced_bullet(bullets[n - 1]);
        if vec_bounded(b.pos, WORLD_LIMIT as int) && bullet_hits_any(prev.0, b) {
            let j = hit_index(prev.0, b);
            assert(bullet_hits(prev.0, b, j)) by {
                let i = choose|i: int| #[trigger] bullet_hits(prev.0, b, i);
                lemma_hit_unique(prev.0, b, i, j);
            }
        }
    }
}

/// A bullet pass never drains the wallet: bullets only ever pay rewards in.
pub proof fn lemma_pass_wallet_monotone(
    monsters: Seq<Monster>,
    w: Wallet,
    bullets: Seq<Bullet>,
    n: int,
    s: Species,
)
    ensures
        crate::wallet::balance_spec(bullets_pass_upto(monsters, w, bullets, n).1, s)
            >= crate::wallet::balance_spec(w, s),
    decreases n,
{
    if n > 0 {
        lemma_pass_wallet_monotone(monsters, w, bullets, n - 1, s);
    }
}

// ---------------------------------------------------------------------------
// Monster movement

/// A monster one tick later: moved straight toward the origin by its species'
/// speed times the elapsed time, never past the origin.
pub open spec fn moved_monster(m: Monster, dt: int) -> Monster {
    Monster { pos: stepped_toward_origin(m.pos, crate::components::monster_speed_spec(m.species) * dt), ..m }
}

/// Whether a monster position has reached the core.
pub open spec fn reached_core(p: Vec2) -> bool {
    norm_sq(p) <= LOSE_RADIUS_SQ
}

} // verus!
