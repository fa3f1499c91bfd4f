//! The three-currency ledger gating construction. Balances never go negative:
//! spending is a guarded read-check-write step, earning saturates at the
//! counter's capacity instead of wrapping.

use vstd::prelude::*;
use crate::components::{Money, Species};

verus! {

/// One non-negative balance per species.
#[derive(Clone, Copy, PartialEq, Eq, Structural, Debug)]
pub struct Wallet {
    pub red_squares: u32,
    pub green_triangles: u32,
    pub blue_circles: u32,
}

/// The balance the wallet holds for a species.
pub open spec fn balance_spec(w: Wallet, s: Species) -> int {
    match s {
        Species::Red => w.red_squares as int,
        Species::Green => w.green_triangles as int,
        Species::Blue => w.blue_circles as int,
    }
}

/// The wallet with one balance replaced.
pub open spec fn with_balance(w: Wallet, s: Species, v: u32) -> Wallet {
    match s {
        Species::Red => Wallet { red_squares: v, ..w },
        Species::Green => Wallet { green_triangles: v, ..w },
        Species::Blue => Wallet { blue_circles: v, ..w },
    }
}

/// The wallet after a successful spend of `m`.
pub open spec fn spent(w: Wallet, m: Money) -> Wallet {
    with_balance(w, m.species, (balance_spec(w, m.species) - m.amount) as u32)
}

/// The wallet after earning `amount` of `s`, saturating at the counter's
/// capacity.
pub open spec fn earned(w: Wallet, s: Species, amount: u32) -> Wallet {
    let b = balance_spec(w, s) + amount;
    if b > u32::MAX {
        with_balance(w, s, u32::MAX)
    } else {
        with_balance(w, s, b as u32)
    }
}

impl Wallet {
    /// Reads one balance.
    pub fn balance(&self, s: Species) -> (v: u32)
        ensures
            v == balance_spec(*self, s),
    {
        match s {
            Species::Red => self.red_squares,
            Species::Green => self.green_triangles,
            Species::Blue => self.blue_circles,
        }
    }

    /// Atomically checks and subtracts a cost: succeeds exactly when the
    /// balance of the cost's species covers the amount, and subtracts exactly
    /// the amount then; any failing spend leaves the wallet untouched.
    pub fn try_spend(&mut self, money: Money) -> (ok: bool)
        ensures
            ok == (balance_spec(*old(self), money.species) >= money.amount),
            ok ==> *final(self) == spent(*old(self), money),
            !ok ==> *final(self) == *old(self),
    {
        match money.species {
            Species::Red => {
                if self.red_squares >= money.amount {
                    self.red_squares = self.red_squares - money.amount;
                    return true;
                }
            },
            Species::Green => {
                if self.green_triangles >= money.amount {
                    self.green_triangles = self.green_triangles - money.amount;
                    return true;
                }
            },
            Species::Blue => {
                if self.blue_circles >= money.amount {
                    self.blue_circles = self.blue_circles - money.amount;
                    return true;
                }
            },
        }
        false
    }

    /// Adds to one balance, saturating at the counter's capacity.
    pub fn earn(&mut self, s: Species, amount: u32)
        ensures
            *final(self) == earned(*old(self), s, amount),
            balance_spec(*final(self), s) >= balance_spec(*old(self), s),
    {
        match s {
            Species::Red => {
                if self.red_squares <= u32::MAX - amount {
                    self.red_squares = self.red_squares + amount;
                } else {
                    self.red_squares = u32::MAX;
                }
            },
            Species::Green => {
                if self.green_triangles <= u32::MAX - amount {
                    self.green_triangles = self.green_triangles + amount;
                } else {
                    self.green_triangles = u32::MAX;
                }
            },
            Species::Blue => {
                if self.blue_circles <= u32::MAX - amount {
                    self.blue_circles = self.blue_circles + amount;
                } else {
                    self.blue_circles = u32::MAX;
                }
            },
        }
    }
}

} // verus!
