//! The session: one value holding the whole simulation state, advanced by
//! `tick` in a fixed subsystem order — spawning, cannon fire control, bullet
//! flight, monster movement and the terminal check, then placement tracking —
//! and fed discrete input events for the build flow.

use vstd::prelude::*;
use crate::combat::{
    advanced_bullet, bullets_pass, bullets_pass_upto, bullet_hits_any, cannon_after, cannon_step,
    find_hit, fired_bullets, fired_bullets_upto, hit_index, lemma_hit_unique,
    lemma_pass_monster_count, lemma_pass_wallet_monotone, moved_monster, reached_core,
    LOSE_RADIUS_SQ,
};
use crate::components::{
    cannon_species, cannon_species_of, damage_of, monster_speed_of, monster_speed_spec, GameState,
    Health, Item, Money, Species, KILL_REWARD,
};
use crate::entities::{
    bullet_wf, cannon_wf, ghost_record_wf, monster_wf, Bullet, Cannon, ItemPlacementGhost, Monster,
};
use crate::geom::{
    dist_sq, dist_sq_exec, norm_sq, step_toward_origin, vec_bounded, Vec2, WORLD_LIMIT,
};
use crate::grid::{
    evaluate_spot, kind_at, placement_spot, tile_center, tile_center_exec, tile_index, CannonBase,
    TileGrid, TileKind, CORE_X, CORE_Y, GRID_SIDE,
};
use crate::rng::rand_below;
use crate::spawn::{
    spawn_health, spawn_monster, spawner_wf, SpawnDirector, SPAWN_COOLDOWN_BASE,
    SPAWN_COOLDOWN_START, SPAWN_RADIUS, SPAWN_RADIUS_SQ,
};
use crate::wallet::{balance_spec, spent, Wallet};

verus! {

/// A whole tower-defense session.
pub struct Session {
    /// The phase; `Lose` is terminal and freezes the simulation.
    pub state: GameState,
    pub wallet: Wallet,
    pub grid: TileGrid,
    pub cannons: Vec<Cannon>,
    pub monsters: Vec<Monster>,
    pub bullets: Vec<Bullet>,
    /// The at most one pending placement.
    pub pending: Option<ItemPlacementGhost>,
    pub spawner: SpawnDirector,
    /// The last pointer position, projected to world space and clamped.
    pub pointer: Vec2,
}

/// A world coordinate clamped into the world limits.
pub open spec fn clamped(v: int) -> int {
    if v < -WORLD_LIMIT {
        -(WORLD_LIMIT as int)
    } else if v > WORLD_LIMIT {
        WORLD_LIMIT as int
    } else {
        v
    }
}

/// The ghost after one tracking step: snapped to the hovered tile's center
/// and valid where a build could land, following the raw pointer and invalid
/// everywhere else.
pub open spec fn tracked_ghost(g: ItemPlacementGhost, grid: TileGrid, pointer: Vec2)
    -> ItemPlacementGhost {
    match placement_spot(grid, pointer) {
        Some(spot) => ItemPlacementGhost {
            pos: tile_center(spot.tile_x as int, spot.tile_y as int),
            valid: true,
            ..g
        },
        None => ItemPlacementGhost { pos: pointer, valid: false, ..g },
    }
}

/// Whether a confirm event commits right now: a placement is pending, the
/// pointed-at tile accepts a build, and the wallet covers the cost.
pub open spec fn commit_applies(s: Session) -> bool {
    &&& s.pending is Some
    &&& placement_spot(s.grid, s.pointer) is Some
    &&& balance_spec(s.wallet, s.pending->Some_0.cost.species) >= s.pending->Some_0.cost.amount
}

/// What the spawn step of one tick may leave behind: either the timer only
/// ran down, or one monster joined with the pinned health and spawn-circle
/// position and the timer was re-armed to a five-to-fifteen-second wait.
pub open spec fn spawn_outcome(s0: Session, nm: Seq<Monster>, d1: SpawnDirector, dt: int) -> bool {
    if s0.spawner.cooldown_ms - dt > 0 {
        &&& nm == s0.monsters@
        &&& d1 == (SpawnDirector {
            cooldown_ms: (s0.spawner.cooldown_ms - dt) as i64,
            ..s0.spawner
        })
    } else {
        &&& nm.len() == s0.monsters@.len() + 1
        &&& nm == s0.monsters@.push(nm.last())
        &&& nm.last().health.0 == spawn_health(s0.spawner.spawned as int)
        &&& SPAWN_RADIUS_SQ - 480_001 < norm_sq(nm.last().pos) <= SPAWN_RADIUS_SQ
        &&& vec_bounded(nm.last().pos, SPAWN_RADIUS as int)
        &&& SPAWN_COOLDOWN_BASE <= d1.cooldown_ms < 15_000
        &&& d1.spawned == if s0.spawner.spawned < i64::MAX {
            s0.spawner.spawned + 1
        } else {
            s0.spawner.spawned as int
        }
    }
}

/// Everything the rest of one tick does, given the monsters `nm` as they
/// stand after the spawn step: the cannons advance against `nm`, the stored
/// bullets fly against `nm` and the wallet collects the rewards, the fired
/// bullets join the survivors, the remaining monsters march toward the
/// origin, the session falls to `Lose` exactly when one of them thereby
/// stands at the core, and the pending placement is re-tracked.
pub open spec fn ticked(s0: Session, s1: Session, nm: Seq<Monster>, dt: int) -> bool {
    let pass = bullets_pass(nm, s0.wallet, s0.bullets@);
    let fired = fired_bullets(s0.cannons@, nm, dt);
    &&& s1.cannons@ == s0.cannons@.map(|i: int, c: Cannon| cannon_after(c, nm, dt))
    &&& s1.wallet == pass.1
    &&& s1.bullets@ == pass.2 + fired
    &&& s1.monsters@ == pass.0.map(|i: int, m: Monster| moved_monster(m, dt))
    &&& s1.state == (if exists|i: int|
        0 <= i < s1.monsters@.len() && reached_core((#[trigger] s1.monsters@[i]).pos) {
        GameState::Lose
    } else {
        GameState::Gameplay
    })
    &&& s1.pending == (match s0.pending {
        None => None::<ItemPlacementGhost>,
        Some(g) => Some(tracked_ghost(g, s0.grid, s0.pointer)),
    })
    &&& s1.grid == s0.grid
    &&& s1.pointer == s0.pointer
}

impl Session {
    /// Every session value the library hands out satisfies this and every
    /// method keeps it.
    pub open spec fn wf(self) -> bool {
        &&& self.grid.wf()
        &&& forall|i: int| 0 <= i < self.cannons@.len() ==> cannon_wf(#[trigger] self.cannons@[i])
        &&& forall|i: int|
            0 <= i < self.monsters@.len() ==> monster_wf(#[trigger] self.monsters@[i])
        &&& forall|i: int| 0 <= i < self.bullets@.len() ==> bullet_wf(#[trigger] self.bullets@[i])
        &&& (self.pending matches Some(g) ==> ghost_record_wf(g))
        &&& spawner_wf(self.spawner)
        &&& vec_bounded(self.pointer, WORLD_LIMIT as int)
    }

    /// Opens a session: the starting wallet, the empty grid around the core,
    /// no entities, the first spawn ten seconds out.
    pub fn new() -> (s: Session)
        ensures
            s.wf(),
            s.state == GameState::Gameplay,
            s.wallet == (Wallet { red_squares: 20u32, green_triangles: 20u32, blue_circles: 20u32 }),
            s.cannons@.len() == 0,
            s.monsters@.len() == 0,
            s.bullets@.len() == 0,
            s.pending is None,
            s.spawner == (SpawnDirector { cooldown_ms: SPAWN_COOLDOWN_START as i64, spawned: 0i64 }),
            s.pointer == (Vec2 { x: 0i64, y: 0i64 }),
            kind_at(s.grid, CORE_X as int, CORE_Y as int) == TileKind::Core,
            forall|x: int, y: int|
                0 <= x < GRID_SIDE && 0 <= y < GRID_SIDE && !(x == CORE_X && y == CORE_Y)
                    ==> kind_at(s.grid, x, y) == TileKind::Empty,
    {
        Session {
            state: GameState::Gameplay,
            wallet: Wallet { red_squares: 20, green_triangles: 20, blue_circles: 20 },
            grid: TileGrid::new(),
            cannons: Vec::new(),
            monsters: Vec::new(),
            bullets: Vec::new(),
            pending: None,
            spawner: SpawnDirector { cooldown_ms: SPAWN_COOLDOWN_START, spawned: 0 },
            pointer: Vec2 { x: 0, y: 0 },
        }
    }

    /// Notes where the pointer moved, clamped into the world limits.
    pub fn pointer_moved(&mut self, x: i64, y: i64)
        requires
            old(self).wf(),
        ensures
            final(self).wf(),
            final(self).pointer.x == clamped(x as int),
            final(self).pointer.y == clamped(y as int),
            *final(self) == (Session { pointer: final(self).pointer, ..*old(self) }),
    {
        let cx: i64 = if x < -WORLD_LIMIT {
            -WORLD_LIMIT
        } else if x > WORLD_LIMIT {
            WORLD_LIMIT
        } else {
            x
        };
        let cy: i64 = if y < -WORLD_LIMIT {
            -WORLD_LIMIT
        } else if y > WORLD_LIMIT {
            WORLD_LIMIT
        } else {
            y
        };
        self.pointer = Vec2 { x: cx, y: cy };
    }

    /// Handles a buy request: creates the pending placement, invisible and
    /// invalid until tracked, unless one already exists.
    pub fn buy_item(&mut self, item: Item, cost: Money)
        requires
            old(self).wf(),
        ensures
            final(self).wf(),
            old(self).pending is Some ==> *final(self) == *old(self),
            old(self).pending is None ==> *final(self) == (Session {
                pending: Some(
                    ItemPlacementGhost {
                        item,
                        cost,
                        pos: Vec2 { x: 0i64, y: 0i64 },
                        valid: false,
                    },
                ),
                ..*old(self)
            }),
    {
        if self.pending.is_none() {
            self.pending = Some(
                ItemPlacementGhost { item, cost, pos: Vec2 { x: 0, y: 0 }, valid: false },
            );
        }
    }

    /// Handles a cancel event: destroys the pending placement, no other
    /// effect.
    pub fn place_cancel(&mut self)
        requires
            old(self).wf(),
        ensures
            final(self).wf(),
            *final(self) == (Session { pending: None, ..*old(self) }),
    {
        self.pending = None;
    }

    /// The tracking step of the build flow: re-evaluates the placement rule
    /// at the current pointer and updates the ghost's shown position and
    /// validity.
    pub fn drag_ghost(&mut self)
        requires
            old(self).wf(),
        ensures
            final(self).wf(),
            old(self).pending is None ==> *final(self) == *old(self),
            old(self).pending matches Some(g) ==> *final(self) == (Session {
                pending: Some(tracked_ghost(g, old(self).grid, old(self).pointer)),
                ..*old(self)
            }),
    {
        match self.pending {
            None => {},
            Some(g) => {
                match evaluate_spot(&self.grid, self.pointer) {
                    Some(spot) => {
                        let center = tile_center_exec(spot.tile_x, spot.tile_y);
                        self.pending = Some(
                            ItemPlacementGhost { pos: center, valid: true, ..g },
                        );
                    },
                    None => {
                        self.pending = Some(
                            ItemPlacementGhost { pos: self.pointer, valid: false, ..g },
                        );
                    },
                }
            },
        }
    }

    /// Handles a confirm event. A build commits exactly when a placement is
    /// pending, the pointed-at tile is on the grid, empty and has a core or
    /// connector neighbor, and the wallet covers the cost; it then debits the
    /// wallet, occupies the tile per the item — a connector tile, or a cannon
    /// tile with a fresh zero-cooldown cannon linked by a back-reference —
    /// and consumes the pending placement. In every other case nothing at all
    /// changes.
    pub fn place_confirm(&mut self) -> (committed: bool)
        requires
            old(self).wf(),
        ensures
            final(self).wf(),
            committed == commit_applies(*old(self)),
            !committed ==> *final(self) == *old(self),
            committed ==> ({
                let g = old(self).pending->Some_0;
                let spot = placement_spot(old(self).grid, old(self).pointer)->Some_0;
                let ti = tile_index(spot.tile_x as int, spot.tile_y as int);
                &&& final(self).wallet == spent(old(self).wallet, g.cost)
                &&& final(self).pending is None
                &&& final(self).monsters == old(self).monsters
                &&& final(self).bullets == old(self).bullets
                &&& final(self).spawner == old(self).spawner
                &&& final(self).state == old(self).state
                &&& final(self).pointer == old(self).pointer
                &&& (g.item == Item::Connector ==> {
                    &&& final(self).grid.tiles@ == old(self).grid.tiles@.update(
                        ti,
                        TileKind::Connector,
                    )
                    &&& final(self).grid.heads@ == old(self).grid.heads@.update(
                        ti,
                        None::<CannonBase>,
                    )
                    &&& final(self).cannons == old(self).cannons
                })
                &&& (cannon_species(g.item) matches Some(sp) ==> {
                    &&& final(self).grid.tiles@ == old(self).grid.tiles@.update(
                        ti,
                        TileKind::Cannon,
                    )
                    &&& final(self).grid.heads@ == old(self).grid.heads@.update(
                        ti,
                        Some(CannonBase(old(self).cannons@.len() as usize)),
                    )
                    &&& final(self).cannons@ == old(self).cannons@.push(
                        Cannon {
                            species: sp,
                            cooldown_ms: 0i64,
                            pos: tile_center(spot.tile_x as int, spot.tile_y as int),
                            aim: Vec2 { x: 1000i64, y: 0i64 },
                            tile_x: spot.tile_x,
                            tile_y: spot.tile_y,
                            dir: spot.dir,
                        },
                    )
                })
                &&& (g.item != Item::Connector && cannon_species(g.item) is None ==> {
                    &&& final(self).grid == old(self).grid
                    &&& final(self).cannons == old(self).cannons
                })
            }),
    {
        let g = match self.pending {
            Some(g) => g,
            None => {
                return false;
            },
        };
        let spot = match evaluate_spot(&self.grid, self.pointer) {
            Some(spot) => spot,
            None => {
                return false;
            },
        };
        if !self.wallet.try_spend(g.cost) {
            return false;
        }
        proof {
            // the target tile is empty, so it cannot be the core tile
            assert(kind_at(old(self).grid, spot.tile_x as int, spot.tile_y as int)
                == TileKind::Empty);
        }
        match cannon_species_of(g.item) {
            Some(sp) => {
                let pos = tile_center_exec(spot.tile_x, spot.tile_y);
                let head = CannonBase(self.cannons.len());
                self.grid.set_tile(spot.tile_x, spot.tile_y, TileKind::Cannon, Some(head));
                self.cannons.push(
                    Cannon {
                        species: sp,
                        cooldown_ms: 0,
                        pos,
                        aim: Vec2 { x: 1000, y: 0 },
                        tile_x: spot.tile_x,
                        tile_y: spot.tile_y,
                        dir: spot.dir,
                    },
                );
            },
            None => {
                if matches!(g.item, Item::Connector) {
                    self.grid.set_tile(spot.tile_x, spot.tile_y, TileKind::Connector, None);
                }
            },
        }
        self.pending = None;
        true
    }

    /// The spawn step of a tick: the timer runs down by the elapsed time and,
    /// on expiry, resets to a random five-to-fifteen-second wait and spawns
    /// one monster on the spawn circle whose health is the default plus the
    /// count of monsters spawned before it.
    pub fn spawn_monsters(&mut self, dt_ms: u32)
        requires
            old(self).wf(),
        ensures
            final(self).wf(),
            *final(self) == (Session {
                spawner: final(self).spawner,
                monsters: final(self).monsters,
                ..*old(self)
            }),
            old(self).spawner.cooldown_ms - dt_ms > 0 ==> {
                &&& final(self).spawner == (SpawnDirector {
                    cooldown_ms: (old(self).spawner.cooldown_ms - dt_ms) as i64,
                    ..old(self).spawner
                })
                &&& final(self).monsters == old(self).monsters
            },
            old(self).spawner.cooldown_ms - dt_ms <= 0 ==> {
                &&& final(self).monsters@.len() == old(self).monsters@.len() + 1
                &&& final(self).monsters@ == old(self).monsters@.push(
                    final(self).monsters@.last(),
                )
                &&& ({
                    let m = final(self).monsters@.last();
                    &&& m.health.0 == spawn_health(old(self).spawner.spawned as int)
                    &&& SPAWN_RADIUS_SQ - 480_001 < norm_sq(m.pos) <= SPAWN_RADIUS_SQ
                    &&& vec_bounded(m.pos, SPAWN_RADIUS as int)
                })
                &&& SPAWN_COOLDOWN_BASE <= final(self).spawner.cooldown_ms < 15_000
                &&& final(self).spawner.spawned == if old(self).spawner.spawned < i64::MAX {
                    old(self).spawner.spawned + 1
                } else {
                    old(self).spawner.spawned as int
                }
            },
    {
        let cd1: i64 = self.spawner.cooldown_ms - dt_ms as i64;
        if cd1 > 0 {
            self.spawner.cooldown_ms = cd1;
        } else {
            let r = rand_below(10_000);
            self.spawner.cooldown_ms = SPAWN_COOLDOWN_BASE + r as i64;
            let m = spawn_monster(self.spawner.spawned);
            self.monsters.push(m);
            self.spawner.spawned = if self.spawner.spawned < i64::MAX {
                self.spawner.spawned + 1
            } else {
                self.spawner.spawned
            };
        }
    }

    /// The fire-control step of a tick: each cannon, in order, observes the
    /// monsters as they stood at the start of the pass, turns toward the
    /// nearest monster of its species, runs its cooldown down exactly once,
    /// and fires on expiry. The fired bullets are handed back in cannon
    /// order; they join the store only after the bullet pass, so a bullet
    /// first advances the tick after it was fired.
    pub fn update_cannons(&mut self, dt_ms: u32) -> (fired: Vec<Bullet>)
        requires
            old(self).wf(),
        ensures
            final(self).wf(),
            *final(self) == (Session { cannons: final(self).cannons, ..*old(self) }),
            final(self).cannons@.len() == old(self).cannons@.len(),
            forall|i: int|
                0 <= i < old(self).cannons@.len() ==> final(self).cannons@[i] == cannon_after(
                    #[trigger] old(self).cannons@[i],
                    old(self).monsters@,
                    dt_ms as int,
                ),
            fired@ == fired_bullets(old(self).cannons@, old(self).monsters@, dt_ms as int),
            forall|k: int| 0 <= k < fired@.len() ==> bullet_wf(#[trigger] fired@[k]),
    {
        let n: usize = self.cannons.len();
        let mut fired: Vec<Bullet> = Vec::new();
        let mut i: usize = 0;
        while i < n
            invariant
                i <= n,
                old(self).wf(),
                n == old(self).cannons@.len(),
                self.cannons@.len() == n,
                self.monsters == old(self).monsters,
                self.bullets == old(self).bullets,
                self.wallet == old(self).wallet,
                self.grid == old(self).grid,
                self.pending == old(self).pending,
                self.spawner == old(self).spawner,
                self.state == old(self).state,
                self.pointer == old(self).pointer,
                forall|k: int|
                    0 <= k < i ==> self.cannons@[k] == cannon_after(
                        #[trigger] old(self).cannons@[k],
                        old(self).monsters@,
                        dt_ms as int,
                    ),
                forall|k: int| 0 <= k < i ==> cannon_wf(#[trigger] self.cannons@[k]),
                forall|k: int| i <= k < n ==> self.cannons@[k] == old(self).cannons@[k],
                fired@ == fired_bullets_upto(
                    old(self).cannons@,
                    old(self).monsters@,
                    dt_ms as int,
                    i as int,
                ),
                forall|k: int| 0 <= k < fired@.len() ==> bullet_wf(#[trigger] fired@[k]),
            decreases n - i,
        {
            let c = self.cannons[i];
            let step = cannon_step(c, &self.monsters, dt_ms);
            self.cannons.set(i, step.0);
            match step.1 {
                Some(b) => {
                    fired.push(b);
                },
                None => {},
            }
            proof {
                assert(fired@ =~= fired_bullets_upto(
                    old(self).cannons@,
                    old(self).monsters@,
                    dt_ms as int,
                    i as int + 1,
                ));
            }
            i = i + 1;
        }
        fired
    }

    /// The bullet step of a tick: each bullet, in order, advances by its
    /// stored velocity, vanishes if that carries it out of the world, and
    /// otherwise strikes the first monster of its species strictly within the
    /// hit radius. A struck monster loses the species' damage; exactly when
    /// its health thereby runs out it is removed, once, and one kill reward
    /// of its species is paid, once. Bullets that strike nothing survive.
    pub fn move_bullets(&mut self)
        requires
            old(self).wf(),
        ensures
            final(self).wf(),
            *final(self) == (Session {
                monsters: final(self).monsters,
                wallet: final(self).wallet,
                bullets: final(self).bullets,
                ..*old(self)
            }),
            ({
                let out = bullets_pass(old(self).monsters@, old(self).wallet, old(self).bullets@);
                &&& final(self).monsters@ == out.0
                &&& final(self).wallet == out.1
                &&& final(self).bullets@ == out.2
            }),
    {
        let n: usize = self.bullets.len();
        let mut kept: Vec<Bullet> = Vec::new();
        let mut i: usize = 0;
        while i < n
            invariant
                i <= n,
                old(self).wf(),
                n == old(self).bullets@.len(),
                self.bullets == old(self).bullets,
                self.cannons == old(self).cannons,
                self.grid == old(self).grid,
                self.pending == old(self).pending,
                self.spawner == old(self).spawner,
                self.state == old(self).state,
                self.pointer == old(self).pointer,
                ({
                    let out = bullets_pass_upto(
                        old(self).monsters@,
                        old(self).wallet,
                        old(self).bullets@,
                        i as int,
                    );
                    &&& self.monsters@ == out.0
                    &&& self.wallet == out.1
                    &&& kept@ == out.2
                }),
                forall|k: int|
                    0 <= k < self.monsters@.len() ==> monster_wf(#[trigger] self.monsters@[k]),
                forall|k: int| 0 <= k < kept@.len() ==> bullet_wf(#[trigger] kept@[k]),
            decreases n - i,
        {
            let ghost prev = bullets_pass_upto(
                old(self).monsters@,
                old(self).wallet,
                old(self).bullets@,
                i as int,
            );
            let b = self.bullets[i];
            let nb = Bullet {
                species: b.species,
                pos: Vec2 { x: b.pos.x + b.velocity.x, y: b.pos.y + b.velocity.y },
                velocity: b.velocity,
            };
            proof {
                assert(bullet_wf(old(self).bullets@[i as int]));
                assert(nb == advanced_bullet(old(self).bullets@[i as int]));
            }
            if nb.pos.x < -WORLD_LIMIT || nb.pos.x > WORLD_LIMIT || nb.pos.y < -WORLD_LIMIT
                || nb.pos.y > WORLD_LIMIT {
                // flown out of the world: the bullet vanishes
                proof {
                    assert(kept@ =~= prev.2 + Seq::<Bullet>::empty());
                }
            } else {
                match find_hit(&self.monsters, nb) {
                    Some(j) => {
                        proof {
                            assert(bullet_hits_any(self.monsters@, nb));
                            lemma_hit_unique(
                                self.monsters@,
                                nb,
                                j as int,
                                hit_index(self.monsters@, nb),
                            );
                        }
                        let mj = self.monsters[j];
                        let dmg = damage_of(nb.species);
                        let h: i32 = mj.health.0 - dmg;
                        if h <= 0 {
                            let ghost before = self.monsters@;
                            self.monsters.remove(j);
                            self.wallet.earn(nb.species, KILL_REWARD);
                            proof {
                                before.remove_ensures(j as int);
                                assert forall|k: int| 0 <= k < self.monsters@.len() implies
                                    monster_wf(#[trigger] self.monsters@[k]) by {
                                    if k < j {
                                        assert(self.monsters@[k] == before[k]);
                                    } else {
                                        assert(self.monsters@[k] == before[k + 1]);
                                    }
                                }
                                assert(kept@ =~= prev.2 + Seq::<Bullet>::empty());
                            }
                        } else {
                            self.monsters.set(j, Monster { health: Health(h), ..mj });
                            proof {
                                assert(kept@ =~= prev.2 + Seq::<Bullet>::empty());
                            }
                        }
                    },
                    None => {
                        kept.push(nb);
                        proof {
                            assert(kept@ =~= prev.2 + seq![nb]);
                        }
                    },
                }
            }
            i = i + 1;
        }
        self.bullets = kept;
    }

    /// The movement and terminal step of a tick: every monster marches its
    /// species' speed times the elapsed time straight toward the origin, and
    /// the session falls to `Lose` exactly when some monster thereby stands
    /// at the core.
    pub fn move_monsters(&mut self, dt_ms: u32)
        requires
            old(self).wf(),
        ensures
            final(self).wf(),
            *final(self) == (Session {
                monsters: final(self).monsters,
                state: final(self).state,
                ..*old(self)
            }),
            final(self).monsters@ == old(self).monsters@.map(
                |i: int, m: Monster| moved_monster(m, dt_ms as int),
            ),
            final(self).state == if exists|i: int|
                0 <= i < old(self).monsters@.len() && reached_core(
                    moved_monster(#[trigger] old(self).monsters@[i], dt_ms as int).pos,
                ) {
                GameState::Lose
            } else {
                old(self).state
            },
    {
        let n: usize = self.monsters.len();
        let mut i: usize = 0;
        while i < n
            invariant
                i <= n,
                old(self).wf(),
                n == old(self).monsters@.len(),
                self.monsters@.len() == n,
                self.cannons == old(self).cannons,
                self.bullets == old(self).bullets,
                self.wallet == old(self).wallet,
                self.grid == old(self).grid,
                self.pending == old(self).pending,
                self.spawner == old(self).spawner,
                self.pointer == old(self).pointer,
                forall|k: int|
                    0 <= k < i ==> self.monsters@[k] == moved_monster(
                        #[trigger] old(self).monsters@[k],
                        dt_ms as int,
                    ),
                forall|k: int| 0 <= k < i ==> monster_wf(#[trigger] self.monsters@[k]),
                forall|k: int| i <= k < n ==> self.monsters@[k] == old(self).monsters@[k],
                self.state == if exists|k: int|
                    0 <= k < i && reached_core(
                        moved_monster(#[trigger] old(self).monsters@[k], dt_ms as int).pos,
                    ) {
                    GameState::Lose
                } else {
                    old(self).state
                },
            decreases n - i,
        {
            let m = self.monsters[i];
            proof {
                assert(monster_speed_spec(m.species) * dt_ms <= 27 * 4_294_967_295int)
                    by (nonlinear_arith)
                    requires
                        0 <= monster_speed_spec(m.species) <= 27,
                        0 <= dt_ms <= 4_294_967_295int,
                ;
            }
            let step: u64 = monster_speed_of(m.species) as u64 * dt_ms as u64;
            let np = step_toward_origin(m.pos, step);
            self.monsters.set(i, Monster { pos: np, ..m });
            let d2: i64 = dist_sq_exec(np, Vec2 { x: 0, y: 0 });
            proof {
                assert(dist_sq(np, Vec2 { x: 0i64, y: 0i64 }) == norm_sq(np));
            }
            if d2 <= LOSE_RADIUS_SQ {
                self.state = GameState::Lose;
                proof {
                    assert(exists|k: int|
                        0 <= k < i + 1 && reached_core(
                            moved_monster(#[trigger] old(self).monsters@[k], dt_ms as int).pos,
                        ));
                }
            } else {
                proof {
                    if exists|k: int|
                        0 <= k < i + 1 && reached_core(
                            moved_monster(#[trigger] old(self).monsters@[k], dt_ms as int).pos,
                        ) {
                        let k = choose|k: int|
                            0 <= k < i + 1 && reached_core(
                                moved_monster(
                                    #[trigger] old(self).monsters@[k],
                                    dt_ms as int,
                                ).pos,
                            );
                        assert(0 <= k < i);
                    }
                }
            }
            i = i + 1;
        }
        proof {
            assert(self.monsters@ =~= old(self).monsters@.map(
                |k: int, m: Monster| moved_monster(m, dt_ms as int),
            ));
        }
    }

    /// Advances the whole simulation by one frame's elapsed time, in the
    /// fixed order: spawning, cannon fire control, bullet flight and
    /// collision, monster movement with the terminal check, then placement
    /// tracking. Outside the `Gameplay` phase a tick changes nothing at all,
    /// so the `Lose` transition fires at most once per session.
    pub fn tick(&mut self, dt_ms: u32)
        requires
            old(self).wf(),
        ensures
            final(self).wf(),
            old(self).state != GameState::Gameplay ==> *final(self) == *old(self),
            final(self).state == old(self).state || final(self).state == GameState::Lose,
            final(self).grid == old(self).grid,
            final(self).pointer == old(self).pointer,
            forall|s: Species|
                #[trigger] balance_spec(final(self).wallet, s) >= balance_spec(old(self).wallet, s),
            final(self).cannons@.len() == old(self).cannons@.len(),
            forall|i: int|
                0 <= i < old(self).cannons@.len() ==> ({
                    let c0 = #[trigger] old(self).cannons@[i];
                    let c1 = final(self).cannons@[i];
                    &&& c1.species == c0.species
                    &&& c1.pos == c0.pos
                    &&& c1.tile_x == c0.tile_x
                    &&& c1.tile_y == c0.tile_y
                    &&& c1.dir == c0.dir
                }),
            old(self).state == GameState::Gameplay ==> ({
                &&& final(self).monsters@.len() <= old(self).monsters@.len() + 1
                &&& (old(self).spawner.cooldown_ms - dt_ms > 0 ==> final(self).spawner == (
                    SpawnDirector {
                        cooldown_ms: (old(self).spawner.cooldown_ms - dt_ms) as i64,
                        ..old(self).spawner
                    }
                ))
                &&& (old(self).spawner.cooldown_ms - dt_ms <= 0 ==> {
                    &&& SPAWN_COOLDOWN_BASE <= final(self).spawner.cooldown_ms < 15_000
                    &&& final(self).spawner.spawned == if old(self).spawner.spawned < i64::MAX {
                        old(self).spawner.spawned + 1
                    } else {
                        old(self).spawner.spawned as int
                    }
                })
                &&& final(self).pending == (match old(self).pending {
                    None => None::<ItemPlacementGhost>,
                    Some(g) => Some(tracked_ghost(g, old(self).grid, old(self).pointer)),
                })
                &&& (final(self).state == GameState::Lose <==> exists|i: int|
                    0 <= i < final(self).monsters@.len() && reached_core(
                        (#[trigger] final(self).monsters@[i]).pos,
                    ))
            }),
            old(self).state == GameState::Gameplay ==> exists|nm: Seq<Monster>|
                #[trigger] spawn_outcome(*old(self), nm, final(self).spawner, dt_ms as int)
                    && ticked(*old(self), *final(self), nm, dt_ms as int),
    {
        match self.state {
            GameState::Gameplay => {},
            _ => {
                return;
            },
        }
        let ghost w0 = self.wallet;
        self.spawn_monsters(dt_ms);
        let mut fired = self.update_cannons(dt_ms);
        let ghost m1 = self.monsters@;
        let ghost b1 = self.bullets@;
        self.move_bullets();
        proof {
            assert forall|s: Species|
                #[trigger] balance_spec(self.wallet, s) >= balance_spec(w0, s) by {
                lemma_pass_wallet_monotone(m1, w0, b1, b1.len() as int, s);
            }
        }
        proof {
            lemma_pass_monster_count(m1, w0, b1, b1.len() as int);
        }
        let ghost survivors = self.bullets@;
        let ghost fired_seq = fired@;
        self.bullets.append(&mut fired);
        proof {
            assert forall|k: int| 0 <= k < self.bullets@.len() implies bullet_wf(
                #[trigger] self.bullets@[k],
            ) by {
                if k < survivors.len() {
                    assert(self.bullets@[k] == survivors[k]);
                } else {
                    assert(self.bullets@[k] == fired_seq[k - survivors.len()]);
                }
            }
        }
        let ghost pre_move = self.monsters@;
        self.move_monsters(dt_ms);
        self.drag_ghost();
        proof {
            // the moved monsters are exactly the final ones, so the terminal
            // condition reads off the final positions
            assert forall|i: int| 0 <= i < self.monsters@.len() implies
                (#[trigger] self.monsters@[i]).pos == moved_monster(pre_move[i], dt_ms as int).pos
            by {
                assert(self.monsters@[i] == pre_move.map(
                    |k: int, m: Monster| moved_monster(m, dt_ms as int),
                )[i]);
            }
            if self.state == GameState::Lose {
                let i = choose|i: int|
                    0 <= i < pre_move.len() && reached_core(
                        moved_monster(#[trigger] pre_move[i], dt_ms as int).pos,
                    );
                assert(reached_core(self.monsters@[i].pos));
            }
            if exists|i: int|
                0 <= i < self.monsters@.len() && reached_core(
                    (#[trigger] self.monsters@[i]).pos,
                ) {
                let i = choose|i: int|
                    0 <= i < self.monsters@.len() && reached_core(
                        (#[trigger] self.monsters@[i]).pos,
                    );
                assert(reached_core(moved_monster(pre_move[i], dt_ms as int).pos));
                assert(self.state == GameState::Lose);
            }
            // the whole tick is the spawn outcome composed with the
            // deterministic remainder
            assert(self.cannons@ =~= old(self).cannons@.map(
                |i: int, c: Cannon| cannon_after(c, m1, dt_ms as int),
            ));
            assert(spawn_outcome(*old(self), m1, self.spawner, dt_ms as int));
            assert(ticked(*old(self), *self, m1, dt_ms as int));
        }
    }

    /// Looks a tile's turret head up through the non-owning back-reference,
    /// treating a dangling index as absent rather than following it.
    pub fn cannon_at_tile(&self, x: u32, y: u32) -> (r: Option<Cannon>)
        requires
            self.wf(),
            x < GRID_SIDE,
            y < GRID_SIDE,
        ensures
            ({
                let h = self.grid.heads@[tile_index(x as int, y as int)];
                match r {
                    Some(c) => h matches Some(cb) && cb.0 < self.cannons@.len()
                        && c == self.cannons@[cb.0 as int],
                    None => h is None || h->Some_0.0 >= self.cannons@.len(),
                }
            }),
    {
        match self.grid.head_at(x, y) {
            Some(cb) => {
                if cb.0 < self.cannons.len() {
                    Some(self.cannons[cb.0])
                } else {
                    None
                }
            },
            None => None,
        }
    }
}

} // verus!
