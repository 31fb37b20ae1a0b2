//! Timer periods, in milliseconds, for every periodic behaviour.

use vstd::prelude::*;

verus! {

/// Normal fall/scroll cadence.
pub const FALL: i32 = 40;

/// Fall cadence while the parachute is held (slower).
pub const FALL_PARA: i32 = 60;

/// Fall cadence while the weight is held (faster).
pub const FALL_OMORI: i32 = 20;

/// Horizontal walk cadence: one step per firing.
pub const WALK: i32 = 83;

/// Life decrement cadence while taking damage.
pub const DAMAGE: i32 = 10;

/// Player flash toggle cadence while flashing.
pub const HITOFLASH: i32 = 80;

/// Player wave animation cadence.
pub const HITOWAVE: i32 = 200;

/// Invulnerability shimmer cadence.
pub const MUTEKIFLASH: i32 = 80;

/// Damage-gauge red/white flash cadence.
pub const GAUGEFLASH: i32 = 60;

/// Cadence of hazard breakage under sustained contact.
pub const HARIBREAK: i32 = 140;

/// Epilogue duration after the game-over transition.
pub const GAMEOVER: i32 = 3400;

} // verus!
