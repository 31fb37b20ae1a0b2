//! Simulation core of a side-scrolling survival arcade game: a player figure
//! stands on procedurally generated floor runs inside a vertical shaft,
//! dodging hazards, collecting power-ups and accumulating score while the
//! shaft scrolls upward.  Everything here is a deterministic, frame-rate
//! independent state machine driven by elapsed wall-clock milliseconds; the
//! windowing, rendering and audio shell lives outside this crate and only
//! drains the outbound queues exposed by `game::Game`.

pub mod effect;
pub mod field;
pub mod game;
pub mod gauge;
pub mod hito;
pub mod kinds;
pub mod rng;
pub mod system;
pub mod timer;
pub mod wait;

use vstd::prelude::*;

verus! {

/// Size of one grid cell in pixels (used by the rendering shell).
pub const CHAR: i32 = 16;

/// Percentage threshold for a generated run to be a hazard row.
pub const HARI_PER_FLOOR: i32 = 30;

/// Percentage threshold for an item to appear above a fresh run.
pub const ITEM_PERCENT: i32 = 15;

/// Duration of the invulnerability power-up in milliseconds.
pub const MUTEKI_TIME: i32 = 4000;

/// Maximum number of entries kept in the high-score list.
pub const HIGHSCORES: i32 = 10;

} // verus!
