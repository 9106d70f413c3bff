//! Deterministic simulation core of a 2D arcade shooter: a fixed logical
//! clock advances the player, enemies, shots, power-ups and cosmetic
//! particles, resolves their collisions, and drives the wave/phase
//! machine, all from one seeded random stream.
//!
//! All quantities are fixed-point integers: positions and speeds in
//! milli-pixels, angles in milli-degrees, fractions and colors per-mille.
//! The outside world comes in as plain values (pointer position, input
//! events, elapsed microseconds) and leaves as plain draw descriptors;
//! rasterization, text layout and windowing stay outside.

use vstd::prelude::*;

pub mod background;
pub mod clock;
pub mod colors;
pub mod enemy;
pub mod game;
pub mod geom;
pub mod laws;
pub mod live;
pub mod overlay;
pub mod particles;
pub mod player;
pub mod powerup;
pub mod rng;
pub mod shot;

verus! {

/// Width of the playing field, in milli-pixels.
pub const FIELD_W: i64 = 1_300_000;

/// Height of the playing field, in milli-pixels.
pub const FIELD_H: i64 = 800_000;

/// The score and the other unbounded counters saturate here, far beyond
/// anything a run reaches.
pub const SCORE_CAP: u64 = 1_000_000_000_000_000;

} // verus!
