//! Core simulation of a tile-based tower-defense session: a three-currency
//! economy, a fixed tile grid grown outward from a single core tile, wave
//! spawning with escalating monster health, per-cannon nearest-target fire
//! control, bullet flight and collision, and the terminal lose transition.
//!
//! All world coordinates are integers in milliunits (one tile is 24 units,
//! that is 24_000 milliunits) and all times are integers in milliseconds, so
//! that every rule of the game is stated and proved exactly.

pub mod combat;
pub mod components;
pub mod entities;
pub mod geom;
pub mod grid;
pub mod laws;
mod rng;
pub mod session;
pub mod spawn;
pub mod wallet;
