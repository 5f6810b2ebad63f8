//! Fixed configuration of the simulation.
//!
//! All lengths and positions are fixed-point integers counted in units of
//! 1/200 of a world unit, so every rate in the design (a growth of 0.15, a
//! speed of 1.5, an acceleration step of 0.01, a steering bias of 0.05, a
//! size cap of 24.99) is an exact integer and halving any entity size is
//! exact as well.

use vstd::prelude::*;

verus! {

/// Fixed-point sub-units per world unit.
pub const SCALE: i64 = 200;

/// Width of the visible field (640 world units).
pub const FIELD_W: i64 = 128000;

/// Height of the visible field (360 world units).
pub const FIELD_H: i64 = 72000;

/// Side of a freshly spawned square and of a power-up (5 world units).
pub const INIT_SIZE: i64 = 1000;

/// Largest side a square ever reaches (25 world units).
pub const MAX_SIZE: i64 = 5000;

/// Per-frame side growth of every square (0.15 world units).
pub const GROWTH_RATE: i64 = 30;

/// Base chase speed of a predator (1.5 world units per frame).
pub const SPEED: i64 = 300;

/// Per-frame gain of a square's acceleration bonus (0.01 world units).
pub const ACCEL_RATE: i64 = 2;

/// Constant bias added to both axes of a steering target (0.05 world units).
pub const STEER_BIAS: i64 = 10;

/// Hard cap on the player's side: a hair under `MAX_SIZE` (24.99 world
/// units), so the player never counts as a full-grown square.
pub const PLAYER_SIZE_CAP: i64 = 4998;

/// One new square spawns with probability 1 in `SQUARE_SPAWN_RATE` per frame.
pub const SQUARE_SPAWN_RATE: i64 = 25;

/// One power-up spawns with probability 1 in `SQUAGUM_SPAWN_RATE` per frame.
pub const SQUAGUM_SPAWN_RATE: i64 = 150;

/// Counter applications an invincibility lasts.
pub const INVINCIBLE_TICKS: u32 = 10;

/// Counter applications a power-up lasts.
pub const SQUAGUM_TICKS: u32 = 120;

/// Squares seeded into a fresh world.
pub const INIT_SQUARES: usize = 7;

/// Hard population cap, far above anything a run reaches; it keeps the
/// steering sums of the motion system within `i64`.
pub const MAX_SQUARES: usize = 100000;

/// Saturation bound for a square's acceleration bonus, far above anything a
/// run reaches; it keeps the steering products within `i64`.
pub const ACCEL_CAP: i64 = 1000000000;

} // verus!
