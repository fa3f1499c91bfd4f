use abomination_core::components::{
    bullet_speed_of, cooldown_interval_of, damage_of, monster_speed_of, GameState, Species,
    DEFAULT_HEALTH,
};
use abomination_core::session::Session;
use abomination_core::spawn::{SPAWN_RADIUS_SQ};

#[test]
fn new_session_starting_state() {
    let s = Session::new();
    assert_eq!(s.state, GameState::Gameplay);
    assert_eq!(s.wallet.red_squares, 20);
    assert_eq!(s.wallet.green_triangles, 20);
    assert_eq!(s.wallet.blue_circles, 20);
    assert_eq!(s.cannons.len(), 0);
    assert_eq!(s.monsters.len(), 0);
    assert_eq!(s.bullets.len(), 0);
    assert!(s.pending.is_none());
    assert_eq!(s.spawner.cooldown_ms, 10_000);
    assert_eq!(s.spawner.spawned, 0);
}

#[test]
fn no_spawn_before_the_timer_expires() {
    let mut s = Session::new();
    s.tick(9_999);
    assert_eq!(s.monsters.len(), 0);
    assert_eq!(s.spawner.cooldown_ms, 1);
}

#[test]
fn spawned_monsters_get_escalating_health() {
    let mut s = Session::new();
    s.spawn_monsters(10_000);
    assert_eq!(s.monsters.len(), 1);
    assert_eq!(s.monsters[0].health.0, DEFAULT_HEALTH);
    assert_eq!(s.spawner.spawned, 1);
    // force the timer and spawn again: one point tankier
    s.spawner.cooldown_ms = 1;
    s.spawn_monsters(1);
    assert_eq!(s.monsters.len(), 2);
    assert_eq!(s.monsters[1].health.0, DEFAULT_HEALTH + 1);
    assert_eq!(s.spawner.spawned, 2);
}

#[test]
fn spawns_land_on_the_spawn_circle() {
    let mut s = Session::new();
    for n in 0..25u32 {
        s.spawner.cooldown_ms = 1;
        s.spawn_monsters(1);
        let m = s.monsters[n as usize];
        let d2 = m.pos.x * m.pos.x + m.pos.y * m.pos.y;
        assert!(d2 <= SPAWN_RADIUS_SQ);
        assert!(d2 > SPAWN_RADIUS_SQ - 480_001);
        // the reset timer always lies in the five-to-fifteen-second band
        assert!(s.spawner.cooldown_ms >= 5_000);
        assert!(s.spawner.cooldown_ms < 15_000);
        assert_eq!(m.health.0, DEFAULT_HEALTH + n as i32);
    }
}

#[test]
fn pointer_is_clamped_to_the_world() {
    let mut s = Session::new();
    s.pointer_moved(2_000_000_000, -2_000_000_000);
    assert_eq!(s.pointer.x, 1_000_000_000);
    assert_eq!(s.pointer.y, -1_000_000_000);
    s.pointer_moved(123, -456);
    assert_eq!(s.pointer.x, 123);
    assert_eq!(s.pointer.y, -456);
}

#[test]
fn species_parameters() {
    assert_eq!(cooldown_interval_of(Species::Red), 700);
    assert_eq!(cooldown_interval_of(Species::Green), 500);
    assert_eq!(cooldown_interval_of(Species::Blue), 250);
    assert_eq!(bullet_speed_of(Species::Red), 12_000);
    assert_eq!(bullet_speed_of(Species::Green), 18_000);
    assert_eq!(bullet_speed_of(Species::Blue), 29_000);
    assert_eq!(monster_speed_of(Species::Red), 27);
    assert_eq!(monster_speed_of(Species::Green), 14);
    assert_eq!(monster_speed_of(Species::Blue), 9);
    assert_eq!(damage_of(Species::Red), 3);
    assert_eq!(damage_of(Species::Green), 2);
    assert_eq!(damage_of(Species::Blue), 1);
}
