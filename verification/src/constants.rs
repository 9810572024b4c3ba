//! Tuning constants of the combat core.
//!
//! Distances are in world units (one tile is 64 units); durations are in
//! milliseconds; speeds are in world units per second.

use vstd::prelude::*;

verus! {

/// Experience the player starts with.
pub const STARTING_XP: u32 = 500;

/// Base speed constant: every velocity is a small per-actor factor times this.
pub const SPEED: i64 = 100;

/// Side of one world tile, in world units.
pub const TILE_SIZE: i64 = 64;

/// How long a switch of the selected weapon or magic stays on screen.
pub const SWITCH_ITEM_DURATION_MS: u32 = 200;

/// One animation frame.
pub const ANIMATION_DURATION_MS: u32 = 150;

/// Period of the passive energy recovery tick.
pub const ENERGY_RECOVERY_DURATION_MS: u32 = 600;

/// Base duration of an attack or a spell cast.
pub const ATTACK_DURATION_MS: u32 = 500;

/// Duration of hit-stun after taking damage.
pub const HIT_DURATION_MS: u32 = 400;

/// Half-period of the invulnerability flash while hit-stunned.
pub const FLASH_HALF_PERIOD_MS: u32 = 100;

/// Largest coordinate the world admits, in absolute value.  Keeping every
/// position inside this box lets the knockback and pursuit arithmetic stay
/// inside `i64` with room to spare.
pub const COORD_LIMIT: i64 = 1048576;

} // verus!
