//! Session-wide laws that relate several operations, stated and proved over
//! the same specification functions the operations' contracts use.

use vstd::prelude::*;
use crate::combat::{
    advanced_bullet, after_bullet, bullet_hits, bullet_hits_any, bullets_pass_upto, cooldown_after,
    hit_index, lemma_hit_unique,
};
use crate::components::{damage_spec, cooldown_interval_spec, Health, Species, KILL_REWARD};
use crate::entities::{Bullet, Monster};
use crate::geom::{vec_bounded, WORLD_LIMIT};
use crate::wallet::{balance_spec, earned, Wallet};

verus! {

// ---------------------------------------------------------------------------
// Fire rate

/// Total elapsed time over the first `n` ticks.
pub open spec fn sum_dts(dts: Seq<int>, n: int) -> int
    decreases n,
{
    if n <= 0 {
        0
    } else {
        sum_dts(dts, n - 1) + dts[n - 1]
    }
}

/// The cooldown of a cannon of species `s` at the start of tick `i`, where
/// the cannon fired just before tick 0 and a target is present on every tick,
/// so the cooldown advances by `cooldown_after` once per tick.
pub open spec fn cooldown_trace(s: Species, dts: Seq<int>, i: int) -> int
    decreases i,
{
    if i <= 0 {
        cooldown_interval_spec(s)
    } else {
        cooldown_after(cooldown_trace(s, dts, i - 1), dts[i - 1], s)
    }
}

/// Whether the cannon fires on tick `i` of the trace.
pub open spec fn trace_fires_at(s: Species, dts: Seq<int>, i: int) -> bool {
    cooldown_trace(s, dts, i) - dts[i] <= 0
}

/// While the cannon holds fire, its cooldown is at least the interval minus
/// the time elapsed so far.
proof fn lemma_trace_lower(s: Species, dts: Seq<int>, i: int)
    requires
        0 <= i <= dts.len(),
        forall|k: int| 0 <= k < dts.len() ==> #[trigger] dts[k] >= 0,
        forall|k: int| 0 <= k < i ==> !trace_fires_at(s, dts, k),
    ensures
        cooldown_trace(s, dts, i) >= cooldown_interval_spec(s) - sum_dts(dts, i),
    decreases i,
{
    if i > 0 {
        lemma_trace_lower(s, dts, i - 1);
        assert(!trace_fires_at(s, dts, i - 1));
    }
}

/// A cannon fires no more than once per its species' cooldown interval under
/// continuous targeting: starting right after a shot, if the next shot falls
/// on tick `j`, then at least the species' interval of time has elapsed over
/// the ticks up to and including `j`.
pub proof fn lemma_fire_spacing(s: Species, dts: Seq<int>, j: int)
    requires
        0 <= j < dts.len(),
        forall|k: int| 0 <= k < dts.len() ==> #[trigger] dts[k] >= 0,
        forall|k: int| 0 <= k < j ==> !trace_fires_at(s, dts, k),
        trace_fires_at(s, dts, j),
    ensures
        sum_dts(dts, j + 1) >= cooldown_interval_spec(s),
{
    lemma_trace_lower(s, dts, j);
}

// ---------------------------------------------------------------------------
// Hits, removals and rewards

/// How many monsters of a species stand in the field.
pub open spec fn species_count(monsters: Seq<Monster>, sp: Species) -> int
    decreases monsters.len(),
{
    if monsters.len() == 0 {
        0
    } else {
        species_count(monsters.drop_last(), sp) + if monsters.last().species == sp {
            1int
        } else {
            0int
        }
    }
}

proof fn lemma_count_nonneg(monsters: Seq<Monster>, sp: Species)
    ensures
        0 <= species_count(monsters, sp) <= monsters.len(),
    decreases monsters.len(),
{
    if monsters.len() > 0 {
        lemma_count_nonneg(monsters.drop_last(), sp);
    }
}

proof fn lemma_count_update_same(monsters: Seq<Monster>, j: int, nm: Monster, sp: Species)
    requires
        0 <= j < monsters.len(),
        nm.species == monsters[j].species,
    ensures
        species_count(monsters.update(j, nm), sp) == species_count(monsters, sp),
    decreases monsters.len(),
{
    let u = monsters.update(j, nm);
    if j == monsters.len() - 1 {
        assert(u.drop_last() =~= monsters.drop_last());
    } else {
        assert(u.drop_last() =~= monsters.drop_last().update(j, nm));
        lemma_count_update_same(monsters.drop_last(), j, nm, sp);
    }
}

proof fn lemma_count_remove(monsters: Seq<Monster>, j: int, sp: Species)
    requires
        0 <= j < monsters.len(),
    ensures
        species_count(monsters.remove(j), sp) == species_count(monsters, sp) - if monsters[j].species
            == sp {
            1int
        } else {
            0int
        },
    decreases monsters.len(),
{
    let r = monsters.remove(j);
    if j == monsters.len() - 1 {
        assert(r =~= monsters.drop_last());
    } else {
        assert(r.drop_last() =~= monsters.drop_last().remove(j));
        assert(r.last() == monsters.last());
        lemma_count_remove(monsters.drop_last(), j, sp);
    }
}

/// What one resolved hit does: the struck monster — the first of the bullet's
/// species strictly within the hit radius — loses exactly the species' damage
/// of health, which is at least one point, so health strictly decreases; it
/// is removed precisely when its health thereby drops to zero or below, and
/// exactly then one kill reward of its species is paid; the bullet is
/// consumed either way.
pub proof fn lemma_hit_outcome(monsters: Seq<Monster>, w: Wallet, b: Bullet)
    requires
        vec_bounded(b.pos, WORLD_LIMIT as int),
        bullet_hits_any(monsters, b),
    ensures
        ({
            let j = hit_index(monsters, b);
            let out = after_bullet(monsters, w, b);
            let h = monsters[j].health.0 - damage_spec(b.species);
            &&& bullet_hits(monsters, b, j)
            &&& damage_spec(b.species) >= 1
            &&& h < monsters[j].health.0
            &&& out.2 == Seq::<Bullet>::empty()
            &&& (h > 0 ==> out.0 == monsters.update(
                j,
                Monster { health: Health(h as i32), ..monsters[j] },
            ) && out.1 == w)
            &&& (h <= 0 ==> out.0 == monsters.remove(j) && out.1 == earned(
                w,
                b.species,
                KILL_REWARD,
            ))
        }),
{
    let j = hit_index(monsters, b);
    assert(bullet_hits(monsters, b, j)) by {
        let i = choose|i: int| #[trigger] bullet_hits(monsters, b, i);
        lemma_hit_unique(monsters, b, i, j);
    }
}

/// One step of the reward accounting: a single bullet removes at most one
/// monster of any species, and pays the wallet exactly one kill reward per
/// removal, into exactly the removed monster's currency.
proof fn lemma_after_bullet_accounting(monsters: Seq<Monster>, w: Wallet, b: Bullet, sp: Species)
    requires
        balance_spec(w, sp) + KILL_REWARD * species_count(monsters, sp) <= u32::MAX,
    ensures
        ({
            let out = after_bullet(monsters, w, b);
            &&& 0 <= species_count(monsters, sp) - species_count(out.0, sp) <= 1
            &&& balance_spec(out.1, sp) == balance_spec(w, sp) + KILL_REWARD * (species_count(
                monsters,
                sp,
            ) - species_count(out.0, sp))
        }),
{
    lemma_count_nonneg(monsters, sp);
    let out = after_bullet(monsters, w, b);
    let c0 = species_count(monsters, sp);
    if vec_bounded(b.pos, WORLD_LIMIT as int) && bullet_hits_any(monsters, b) {
        let j = hit_index(monsters, b);
        assert(bullet_hits(monsters, b, j)) by {
            let i = choose|i: int| #[trigger] bullet_hits(monsters, b, i);
            lemma_hit_unique(monsters, b, i, j);
        }
        let h = monsters[j].health.0 - damage_spec(b.species);
        if h <= 0 {
            lemma_count_remove(monsters, j, sp);
            lemma_count_nonneg(monsters.remove(j), sp);
            let cn = species_count(out.0, sp);
            if monsters[j].species == sp {
                assert(c0 >= 1 && cn == c0 - 1);
                assert(KILL_REWARD * c0 >= KILL_REWARD * 1 && KILL_REWARD * 1 == KILL_REWARD)
                    by (nonlinear_arith)
                    requires
                        c0 >= 1,
                ;
                assert(balance_spec(out.1, sp) == balance_spec(w, sp) + KILL_REWARD);
                assert(KILL_REWARD * (c0 - cn) == KILL_REWARD) by (nonlinear_arith)
                    requires
                        c0 - cn == 1,
                ;
            } else {
                assert(balance_spec(out.1, sp) == balance_spec(w, sp));
                assert(KILL_REWARD * (c0 - cn) == 0) by (nonlinear_arith)
                    requires
                        c0 - cn == 0,
                ;
            }
        } else {
            lemma_count_update_same(
                monsters,
                j,
                Monster { health: Health(h as i32), ..monsters[j] },
                sp,
            );
            assert(KILL_REWARD * (c0 - species_count(out.0, sp)) == 0) by (nonlinear_arith)
                requires
                    c0 - species_count(out.0, sp) == 0,
            ;
        }
    } else {
        assert(KILL_REWARD * (c0 - c0) == 0) by (nonlinear_arith);
    }
}

/// Exactly one reward per removal, over a whole bullet pass: as long as the
/// counter cannot saturate, each currency grows by exactly one kill reward
/// for every monster of that species the pass removed, and monsters are never
/// added by combat.
pub proof fn lemma_rewards_match_kills(
    monsters: Seq<Monster>,
    w: Wallet,
    bullets: Seq<Bullet>,
    n: int,
    sp: Species,
)
    requires
        balance_spec(w, sp) + KILL_REWARD * species_count(monsters, sp) <= u32::MAX,
    ensures
        ({
            let out = bullets_pass_upto(monsters, w, bullets, n);
            &&& 0 <= species_count(out.0, sp) <= species_count(monsters, sp)
            &&& balance_spec(out.1, sp) == balance_spec(w, sp) + KILL_REWARD * (species_count(
                monsters,
                sp,
            ) - species_count(out.0, sp))
        }),
    decreases n,
{
    lemma_count_nonneg(monsters, sp);
    if n > 0 {
        lemma_rewards_match_kills(monsters, w, bullets, n - 1, sp);
        let prev = bullets_pass_upto(monsters, w, bullets, n - 1);
        let c0 = species_count(monsters, sp);
        let cp = species_count(prev.0, sp);
        assert(balance_spec(prev.1, sp) + KILL_REWARD * cp <= u32::MAX) by (nonlinear_arith)
            requires
                balance_spec(prev.1, sp) == balance_spec(w, sp) + KILL_REWARD * (c0 - cp),
                balance_spec(w, sp) + KILL_REWARD * c0 <= u32::MAX,
        ;
        lemma_after_bullet_accounting(prev.0, prev.1, advanced_bullet(bullets[n - 1]), sp);
        let out = bullets_pass_upto(monsters, w, bullets, n);
        let cn = species_count(out.0, sp);
        lemma_count_nonneg(out.0, sp);
        assert(balance_spec(out.1, sp) == balance_spec(w, sp) + KILL_REWARD * (c0 - cn))
            by (nonlinear_arith)
            requires
                balance_spec(out.1, sp) == balance_spec(prev.1, sp) + KILL_REWARD * (cp - cn),
                balance_spec(prev.1, sp) == balance_spec(w, sp) + KILL_REWARD * (c0 - cp),
        ;
    }
}

} // verus!
