use abomination_core::components::{Item, Money, Species};
use abomination_core::wallet::Wallet;

#[test]
fn spend_succeeds_with_funds() {
    let mut w = Wallet { red_squares: 20, green_triangles: 0, blue_circles: 0 };
    let ok = w.try_spend(Money::new(Species::Red, 5));
    assert!(ok);
    assert_eq!(w.red_squares, 15);
    assert_eq!(w.green_triangles, 0);
    assert_eq!(w.blue_circles, 0);
}

#[test]
fn spend_fails_without_funds() {
    let mut w = Wallet { red_squares: 4, green_triangles: 0, blue_circles: 0 };
    let ok = w.try_spend(Money::new(Species::Red, 5));
    assert!(!ok);
    assert_eq!(w.red_squares, 4);
    assert_eq!(w.green_triangles, 0);
    assert_eq!(w.blue_circles, 0);
}

#[test]
fn spend_succeeds_on_exact_balance() {
    let mut w = Wallet { red_squares: 0, green_triangles: 5, blue_circles: 0 };
    let ok = w.try_spend(Money::new(Species::Green, 5));
    assert!(ok);
    assert_eq!(w.green_triangles, 0);
}

#[test]
fn spend_touches_only_its_species() {
    let mut w = Wallet { red_squares: 10, green_triangles: 10, blue_circles: 10 };
    assert!(w.try_spend(Money::new(Species::Blue, 10)));
    assert_eq!(w.red_squares, 10);
    assert_eq!(w.green_triangles, 10);
    assert_eq!(w.blue_circles, 0);
}

#[test]
fn earn_adds() {
    let mut w = Wallet { red_squares: 0, green_triangles: 0, blue_circles: 0 };
    w.earn(Species::Green, 7);
    assert_eq!(w.green_triangles, 7);
    assert_eq!(w.red_squares, 0);
    assert_eq!(w.blue_circles, 0);
}

#[test]
fn earn_saturates_at_capacity() {
    let mut w = Wallet { red_squares: u32::MAX - 2, green_triangles: 0, blue_circles: 0 };
    w.earn(Species::Red, 5);
    assert_eq!(w.red_squares, u32::MAX);
}

#[test]
fn balance_reads_per_species() {
    let w = Wallet { red_squares: 1, green_triangles: 2, blue_circles: 3 };
    assert_eq!(w.balance(Species::Red), 1);
    assert_eq!(w.balance(Species::Green), 2);
    assert_eq!(w.balance(Species::Blue), 3);
}

#[test]
fn money_new_carries_fields() {
    let m = Money::new(Species::Blue, 42);
    assert_eq!(m.species, Species::Blue);
    assert_eq!(m.amount, 42);
}

#[test]
fn shop_prices() {
    assert_eq!(
        abomination_core::components::standard_cost(Item::Connector),
        Some(Money::new(Species::Red, 5))
    );
    assert_eq!(
        abomination_core::components::standard_cost(Item::RedCannon),
        Some(Money::new(Species::Red, 10))
    );
    assert_eq!(
        abomination_core::components::standard_cost(Item::GreenCannon),
        Some(Money::new(Species::Green, 10))
    );
    assert_eq!(
        abomination_core::components::standard_cost(Item::BlueCannon),
        Some(Money::new(Species::Blue, 10))
    );
    assert_eq!(abomination_core::components::standard_cost(Item::ConverterRedGreen), None);
}
