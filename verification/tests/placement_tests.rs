use abomination_core::components::{GameState, Item, Money, Species};
use abomination_core::grid::{CannonBase, TileKind};
use abomination_core::session::Session;

// The center of tile (16, 17), one tile north of the core, is (0, 24_000).

#[test]
fn cannon_commits_next_to_core() {
    let mut s = Session::new();
    s.wallet.red_squares = 10;
    s.pointer_moved(0, 24_000);
    s.buy_item(Item::RedCannon, Money::new(Species::Red, 5));
    assert!(s.place_confirm());
    assert_eq!(s.grid.at(16, 17), TileKind::Cannon);
    assert_eq!(s.wallet.red_squares, 5);
    assert!(s.pending.is_none());
    assert_eq!(s.cannons.len(), 1);
    assert_eq!(s.cannons[0].species, Species::Red);
    assert_eq!(s.cannons[0].cooldown_ms, 0);
    assert_eq!(s.cannons[0].pos.x, 0);
    assert_eq!(s.cannons[0].pos.y, 24_000);
    assert_eq!(s.cannons[0].tile_x, 16);
    assert_eq!(s.cannons[0].tile_y, 17);
}

#[test]
fn connector_commits_and_extends_the_network() {
    let mut s = Session::new();
    s.pointer_moved(0, 24_000);
    s.buy_item(Item::Connector, Money::new(Species::Red, 5));
    assert!(s.place_confirm());
    assert_eq!(s.grid.at(16, 17), TileKind::Connector);
    assert_eq!(s.wallet.red_squares, 15);
    // tile (16, 18) now has a connector neighbor and accepts a build
    let mut s2 = s;
    s2.pointer_moved(0, 48_000);
    s2.buy_item(Item::Connector, Money::new(Species::Red, 5));
    assert!(s2.place_confirm());
    assert_eq!(s2.grid.at(16, 18), TileKind::Connector);
    assert_eq!(s2.wallet.red_squares, 10);
}

#[test]
fn commit_rejected_on_occupied_tile() {
    let mut s = Session::new();
    s.pointer_moved(0, 24_000);
    s.buy_item(Item::Connector, Money::new(Species::Red, 5));
    assert!(s.place_confirm());
    s.buy_item(Item::Connector, Money::new(Species::Red, 5));
    assert!(!s.place_confirm());
    assert_eq!(s.wallet.red_squares, 15);
    assert!(s.pending.is_some());
}

#[test]
fn commit_rejected_on_the_core_tile_itself() {
    let mut s = Session::new();
    s.pointer_moved(0, 0);
    s.buy_item(Item::Connector, Money::new(Species::Red, 5));
    assert!(!s.place_confirm());
    assert_eq!(s.grid.at(16, 16), TileKind::Core);
    assert_eq!(s.wallet.red_squares, 20);
}

#[test]
fn commit_rejected_without_supporting_neighbor() {
    let mut s = Session::new();
    // tile (4, 4): far from the core, all four neighbors empty
    s.pointer_moved(-300_000, -300_000);
    s.buy_item(Item::Connector, Money::new(Species::Red, 5));
    assert!(!s.place_confirm());
    assert_eq!(s.grid.at(4, 4), TileKind::Empty);
    assert_eq!(s.wallet.red_squares, 20);
    assert!(s.pending.is_some());
}

#[test]
fn commit_rejected_off_the_grid() {
    let mut s = Session::new();
    s.buy_item(Item::Connector, Money::new(Species::Red, 5));
    s.pointer_moved(900_000_000, 0);
    assert!(!s.place_confirm());
    // left of the grid the projection saturates to column 0, which is empty
    // and unsupported, so nothing commits either
    s.pointer_moved(-900_000_000, -900_000_000);
    assert!(!s.place_confirm());
    assert_eq!(s.wallet.red_squares, 20);
}

#[test]
fn commit_rejected_without_funds() {
    let mut s = Session::new();
    s.wallet.red_squares = 4;
    s.pointer_moved(0, 24_000);
    s.buy_item(Item::Connector, Money::new(Species::Red, 5));
    assert!(!s.place_confirm());
    assert_eq!(s.wallet.red_squares, 4);
    assert_eq!(s.grid.at(16, 17), TileKind::Empty);
    // the ghost persists and a later, funded confirm still commits
    s.wallet.red_squares = 5;
    assert!(s.place_confirm());
    assert_eq!(s.wallet.red_squares, 0);
    assert_eq!(s.grid.at(16, 17), TileKind::Connector);
}

#[test]
fn commit_rejected_without_pending_placement() {
    let mut s = Session::new();
    s.pointer_moved(0, 24_000);
    assert!(!s.place_confirm());
    assert_eq!(s.wallet.red_squares, 20);
}

#[test]
fn buy_keeps_the_first_pending_placement() {
    let mut s = Session::new();
    s.buy_item(Item::Connector, Money::new(Species::Red, 5));
    s.buy_item(Item::BlueCannon, Money::new(Species::Blue, 10));
    assert!(matches!(s.pending.unwrap().item, Item::Connector));
}

#[test]
fn cancel_destroys_the_placement_without_side_effects() {
    let mut s = Session::new();
    s.buy_item(Item::Connector, Money::new(Species::Red, 5));
    s.place_cancel();
    assert!(s.pending.is_none());
    assert_eq!(s.wallet.red_squares, 20);
    assert!(!s.place_confirm());
}

#[test]
fn converter_commit_spends_but_places_nothing() {
    let mut s = Session::new();
    s.pointer_moved(0, 24_000);
    s.buy_item(Item::ConverterRedGreen, Money::new(Species::Red, 10));
    assert!(s.place_confirm());
    assert_eq!(s.wallet.red_squares, 10);
    assert_eq!(s.grid.at(16, 17), TileKind::Empty);
    assert_eq!(s.cannons.len(), 0);
    assert!(s.pending.is_none());
}

#[test]
fn ghost_tracks_validity_and_snaps() {
    let mut s = Session::new();
    s.buy_item(Item::Connector, Money::new(Species::Red, 5));
    // hovering inside the tile north of the core: valid, snapped to center
    s.pointer_moved(5_000, 30_000);
    s.drag_ghost();
    let g = s.pending.unwrap();
    assert!(g.valid);
    assert_eq!(g.pos.x, 0);
    assert_eq!(g.pos.y, 24_000);
    // hovering far away: invalid, following the raw pointer
    s.pointer_moved(-300_000, -300_000);
    s.drag_ghost();
    let g2 = s.pending.unwrap();
    assert!(!g2.valid);
    assert_eq!(g2.pos.x, -300_000);
    assert_eq!(g2.pos.y, -300_000);
}

#[test]
fn back_reference_reaches_the_turret_head() {
    let mut s = Session::new();
    s.pointer_moved(0, 24_000);
    s.buy_item(Item::GreenCannon, Money::new(Species::Green, 10));
    assert!(s.place_confirm());
    let head = s.cannon_at_tile(16, 17);
    assert!(head.is_some());
    assert_eq!(head.unwrap().species, Species::Green);
    assert!(s.cannon_at_tile(16, 16).is_none());
}

#[test]
fn dangling_back_reference_is_skipped() {
    let mut s = Session::new();
    s.pointer_moved(0, 24_000);
    s.buy_item(Item::BlueCannon, Money::new(Species::Blue, 10));
    assert!(s.place_confirm());
    // point the tile at a head record that does not exist
    s.grid.heads[17 * 32 + 16] = Some(CannonBase(99));
    assert!(s.cannon_at_tile(16, 17).is_none());
}

#[test]
fn new_session_grid_holds_one_core() {
    let s = Session::new();
    assert_eq!(s.grid.at(16, 16), TileKind::Core);
    assert_eq!(s.grid.at(0, 0), TileKind::Empty);
    assert_eq!(s.grid.at(31, 31), TileKind::Empty);
    assert_eq!(s.state, GameState::Gameplay);
}
