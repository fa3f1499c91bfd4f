use abomination_core::components::{GameState, Health, Item, Money, Species};
use abomination_core::entities::{Bullet, Monster};
use abomination_core::geom::Vec2;
use abomination_core::session::Session;

fn session_with_red_cannon() -> Session {
    let mut s = Session::new();
    s.pointer_moved(0, 24_000);
    s.buy_item(Item::RedCannon, Money::new(Species::Red, 10));
    assert!(s.place_confirm());
    s
}

fn monster(species: Species, x: i64, y: i64, health: i32) -> Monster {
    Monster { species, pos: Vec2 { x, y }, health: Health(health) }
}

#[test]
fn ready_cannon_fires_at_a_target() {
    let mut s = session_with_red_cannon();
    s.monsters.push(monster(Species::Red, 50_000, 24_000, 22));
    let fired = s.update_cannons(100);
    assert_eq!(fired.len(), 1);
    assert_eq!(fired[0].species, Species::Red);
    // the bullet starts at the cannon, aimed due east at the red bullet speed
    assert_eq!(fired[0].pos, Vec2 { x: 0, y: 24_000 });
    assert_eq!(fired[0].velocity, Vec2 { x: 12_000, y: 0 });
    assert_eq!(s.cannons[0].cooldown_ms, 700);
}

#[test]
fn cannon_holds_fire_through_its_cooldown() {
    let mut s = session_with_red_cannon();
    s.monsters.push(monster(Species::Red, 50_000, 24_000, 22));
    assert_eq!(s.update_cannons(100).len(), 1);
    // 300 + 300 ms elapse: still inside the 700 ms interval
    assert_eq!(s.update_cannons(300).len(), 0);
    assert_eq!(s.cannons[0].cooldown_ms, 400);
    assert_eq!(s.update_cannons(300).len(), 0);
    assert_eq!(s.cannons[0].cooldown_ms, 100);
    // 900 ms have now elapsed since the shot: the next 300 ms tick fires
    assert_eq!(s.update_cannons(300).len(), 1);
    assert_eq!(s.cannons[0].cooldown_ms, 700);
}

#[test]
fn cannon_idles_without_matching_species() {
    let mut s = session_with_red_cannon();
    s.monsters.push(monster(Species::Green, 30_000, 24_000, 22));
    let before = s.cannons[0];
    let fired = s.update_cannons(100);
    assert_eq!(fired.len(), 0);
    assert_eq!(s.cannons[0], before);
}

#[test]
fn cannon_aims_at_the_nearest_match() {
    let mut s = session_with_red_cannon();
    s.monsters.push(monster(Species::Red, 200_000, 24_000, 22));
    s.monsters.push(monster(Species::Red, 40_000, 24_000, 22));
    s.update_cannons(1);
    // facing the nearer monster: offset (40_000, 0)
    assert_eq!(s.cannons[0].aim, Vec2 { x: 40_000, y: 0 });
}

#[test]
fn bullet_kill_removes_once_and_rewards_once() {
    let mut s = Session::new();
    s.monsters.push(monster(Species::Red, 10_000, 0, 3));
    s.bullets.push(Bullet {
        species: Species::Red,
        pos: Vec2 { x: 9_000, y: 0 },
        velocity: Vec2 { x: 0, y: 0 },
    });
    s.move_bullets();
    assert_eq!(s.monsters.len(), 0);
    assert_eq!(s.bullets.len(), 0);
    assert_eq!(s.wallet.red_squares, 25);
}

#[test]
fn bullet_damage_without_kill() {
    let mut s = Session::new();
    s.monsters.push(monster(Species::Green, 10_000, 0, 22));
    s.bullets.push(Bullet {
        species: Species::Green,
        pos: Vec2 { x: 0, y: 0 },
        velocity: Vec2 { x: 1_000, y: 0 },
    });
    s.move_bullets();
    assert_eq!(s.monsters.len(), 1);
    assert_eq!(s.monsters[0].health, Health(20));
    assert_eq!(s.bullets.len(), 0);
    assert_eq!(s.wallet.green_triangles, 20);
}

#[test]
fn damage_is_fixed_per_species() {
    for (species, health_left) in [
        (Species::Red, 19),
        (Species::Green, 20),
        (Species::Blue, 21),
    ] {
        let mut s = Session::new();
        s.monsters.push(monster(species, 10_000, 0, 22));
        s.bullets.push(Bullet {
            species,
            pos: Vec2 { x: 10_000, y: 0 },
            velocity: Vec2 { x: 0, y: 0 },
        });
        s.move_bullets();
        assert_eq!(s.monsters[0].health, Health(health_left));
    }
}

#[test]
fn bullet_that_misses_advances_and_survives() {
    let mut s = Session::new();
    s.monsters.push(monster(Species::Red, 200_000, 0, 22));
    s.bullets.push(Bullet {
        species: Species::Red,
        pos: Vec2 { x: 0, y: 0 },
        velocity: Vec2 { x: 12_000, y: 0 },
    });
    s.move_bullets();
    assert_eq!(s.bullets.len(), 1);
    assert_eq!(s.bullets[0].pos, Vec2 { x: 12_000, y: 0 });
    assert_eq!(s.monsters[0].health, Health(22));
}

#[test]
fn bullet_passes_through_other_species() {
    let mut s = Session::new();
    s.monsters.push(monster(Species::Green, 1_000, 0, 22));
    s.bullets.push(Bullet {
        species: Species::Red,
        pos: Vec2 { x: 0, y: 0 },
        velocity: Vec2 { x: 100, y: 0 },
    });
    s.move_bullets();
    assert_eq!(s.bullets.len(), 1);
    assert_eq!(s.monsters[0].health, Health(22));
}

#[test]
fn bullet_leaving_the_world_despawns() {
    let mut s = Session::new();
    s.bullets.push(Bullet {
        species: Species::Blue,
        pos: Vec2 { x: 999_990_000, y: 0 },
        velocity: Vec2 { x: 29_000, y: 0 },
    });
    s.move_bullets();
    assert_eq!(s.bullets.len(), 0);
}

#[test]
fn bullet_strikes_only_the_first_monster() {
    let mut s = Session::new();
    s.monsters.push(monster(Species::Red, 10_000, 0, 3));
    s.monsters.push(monster(Species::Red, 11_000, 0, 22));
    s.bullets.push(Bullet {
        species: Species::Red,
        pos: Vec2 { x: 10_000, y: 0 },
        velocity: Vec2 { x: 0, y: 0 },
    });
    s.move_bullets();
    // the first died and paid; the second is untouched
    assert_eq!(s.monsters.len(), 1);
    assert_eq!(s.monsters[0].health, Health(22));
    assert_eq!(s.wallet.red_squares, 25);
    assert_eq!(s.bullets.len(), 0);
}

#[test]
fn monster_marches_toward_the_origin() {
    let mut s = Session::new();
    s.monsters.push(monster(Species::Red, 240_000, 0, 22));
    s.move_monsters(1_000);
    // red speed: 27 units/s, so 27_000 milliunits over one second
    assert_eq!(s.monsters[0].pos, Vec2 { x: 213_000, y: 0 });
    assert_eq!(s.state, GameState::Gameplay);
}

#[test]
fn reaching_the_core_loses_the_session() {
    let mut s = Session::new();
    // 20 units from the origin, within the 24-unit core radius
    s.monsters.push(monster(Species::Blue, 20_000, 0, 22));
    s.move_monsters(0);
    assert_eq!(s.state, GameState::Lose);
}

#[test]
fn lose_is_terminal_and_fires_once() {
    let mut s = Session::new();
    s.monsters.push(monster(Species::Red, 20_000, 0, 22));
    s.move_monsters(0);
    assert_eq!(s.state, GameState::Lose);
    // further ticks report the same condition but change nothing at all
    let monsters_before = s.monsters.clone();
    let spawner_before = s.spawner;
    s.tick(50_000);
    assert_eq!(s.state, GameState::Lose);
    assert_eq!(s.monsters, monsters_before);
    assert_eq!(s.spawner, spawner_before);
    assert_eq!(s.wallet.red_squares, 20);
}

#[test]
fn fired_bullet_advances_only_on_the_next_tick() {
    let mut s = session_with_red_cannon();
    s.monsters.push(monster(Species::Red, 150_000, 24_000, 22));
    s.tick(100);
    // the bullet was fired this tick and still sits at the cannon
    assert_eq!(s.bullets.len(), 1);
    assert_eq!(s.bullets[0].pos, Vec2 { x: 0, y: 24_000 });
    let vel = s.bullets[0].velocity;
    s.tick(100);
    // no second shot yet (700 ms cooldown), but the bullet has advanced
    assert_eq!(s.bullets.len(), 1);
    assert_eq!(s.bullets[0].pos, Vec2 { x: vel.x, y: 24_000 + vel.y });
}
