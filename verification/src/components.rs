//! The shared data vocabulary of the simulation: species, money, shop items,
//! health, and the per-species combat parameters.

use vstd::prelude::*;

verus! {

/// One of the three colors. A species is at once a currency kind, a monster
/// kind and a cannon/weapon kind: one value drives all three systems.
#[derive(Clone, Copy, PartialEq, Eq, Structural, Debug)]
pub enum Species {
    Red,
    Green,
    Blue,
}

/// An amount of a single currency, used as a cost and as a reward.
#[derive(Clone, Copy, PartialEq, Eq, Structural, Debug)]
pub struct Money {
    pub species: Species,
    pub amount: u32,
}

impl Money {
    pub fn new(species: Species, amount: u32) -> (m: Money)
        ensures
            m.species == species,
            m.amount == amount,
    {
        Money { species, amount }
    }
}

/// Remaining hit points of a monster.
#[derive(Clone, Copy, PartialEq, Eq, Structural, Debug)]
pub struct Health(pub i32);

/// Everything the shop can offer. Only the connector and the three cannons
/// are purchasable; the converters are not sold and commit no tile.
#[derive(Clone, Copy, PartialEq, Eq, Structural, Debug)]
pub enum Item {
    Connector,
    RedCannon,
    GreenCannon,
    BlueCannon,
    ConverterRedGreen,
    ConverterRedBlue,
    ConverterGreenRed,
    ConverterGreenBlue,
    ConverterBlueRed,
    ConverterBlueGreen,
}

/// The phases of a session. A session simulates only while in `Gameplay`;
/// `Lose` is terminal.
#[derive(Clone, Copy, PartialEq, Eq, Structural, Debug)]
pub enum GameState {
    LoadingAssets,
    Gameplay,
    Lose,
}

/// Health every monster of the first wave starts with; each later monster
/// gets one more point.
pub const DEFAULT_HEALTH: i32 = 22;

/// Damage a bullet of the given species deals on a hit.
pub open spec fn damage_spec(s: Species) -> int {
    match s {
        Species::Red => 3,
        Species::Green => 2,
        Species::Blue => 1,
    }
}

/// Damage a bullet of the given species deals on a hit.
pub fn damage_of(s: Species) -> (d: i32)
    ensures
        d == damage_spec(s),
{
    match s {
        Species::Red => 3,
        Species::Green => 2,
        Species::Blue => 1,
    }
}

/// Milliseconds a cannon of the given species must wait between two shots.
pub open spec fn cooldown_interval_spec(s: Species) -> int {
    match s {
        Species::Red => 700,
        Species::Green => 500,
        Species::Blue => 250,
    }
}

/// Milliseconds a cannon of the given species must wait between two shots.
pub fn cooldown_interval_of(s: Species) -> (c: i64)
    ensures
        c == cooldown_interval_spec(s),
{
    match s {
        Species::Red => 700,
        Species::Green => 500,
        Species::Blue => 250,
    }
}

/// Bullet displacement per tick, in milliunits; bullets are not time-scaled.
pub open spec fn bullet_speed_spec(s: Species) -> int {
    match s {
        Species::Red => 12000,
        Species::Green => 18000,
        Species::Blue => 29000,
    }
}

/// Bullet displacement per tick, in milliunits; bullets are not time-scaled.
pub fn bullet_speed_of(s: Species) -> (v: i64)
    ensures
        v == bullet_speed_spec(s),
{
    match s {
        Species::Red => 12000,
        Species::Green => 18000,
        Species::Blue => 29000,
    }
}

/// Monster speed toward the origin, in milliunits per millisecond.
pub open spec fn monster_speed_spec(s: Species) -> int {
    match s {
        Species::Red => 27,
        Species::Green => 14,
        Species::Blue => 9,
    }
}

/// Monster speed toward the origin, in milliunits per millisecond.
pub fn monster_speed_of(s: Species) -> (v: i64)
    ensures
        v == monster_speed_spec(s),
{
    match s {
        Species::Red => 27,
        Species::Green => 14,
        Species::Blue => 9,
    }
}

/// Currency units paid into the wallet when a monster of the species dies.
pub const KILL_REWARD: u32 = 5;

/// The species of a cannon item, or `None` for anything that is no cannon.
pub open spec fn cannon_species(item: Item) -> Option<Species> {
    match item {
        Item::RedCannon => Some(Species::Red),
        Item::GreenCannon => Some(Species::Green),
        Item::BlueCannon => Some(Species::Blue),
        _ => None,
    }
}

/// The species of a cannon item, or `None` for anything that is no cannon.
pub fn cannon_species_of(item: Item) -> (r: Option<Species>)
    ensures
        r == cannon_species(item),
{
    match item {
        Item::RedCannon => Some(Species::Red),
        Item::GreenCannon => Some(Species::Green),
        Item::BlueCannon => Some(Species::Blue),
        _ => None,
    }
}

/// What the shop charges for an item, or `None` where the item is not sold.
pub fn standard_cost(item: Item) -> (c: Option<Money>)
    ensures
        item == Item::Connector ==> c == Some(Money { species: Species::Red, amount: 5u32 }),
        item == Item::RedCannon ==> c == Some(Money { species: Species::Red, amount: 10u32 }),
        item == Item::GreenCannon ==> c == Some(Money { species: Species::Green, amount: 10u32 }),
        item == Item::BlueCannon ==> c == Some(Money { species: Species::Blue, amount: 10u32 }),
        !(item == Item::Connector || item == Item::RedCannon || item == Item::GreenCannon
            || item == Item::BlueCannon) ==> c is None,
{
    match item {
        Item::Connector => Some(Money { species: Species::Red, amount: 5 }),
        Item::RedCannon => Some(Money { species: Species::Red, amount: 10 }),
        Item::GreenCannon => Some(Money { species: Species::Green, amount: 10 }),
        Item::BlueCannon => Some(Money { species: Species::Blue, amount: 10 }),
        _ => None,
    }
}

} // verus!
