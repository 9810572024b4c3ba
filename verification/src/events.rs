//! The ephemeral events of the pipeline: classified collisions, the
//! kill/damage intents the damage resolver emits, and effect requests.
//!
//! Entities are referred to by their arena index.

use vstd::prelude::*;

use crate::geom::Vec2i;
use crate::particles::ParticleEffect;

verus! {

/// Request to select the next spell.
#[derive(Clone, Copy, Debug, PartialEq, Eq, Structural)]
pub struct SwitchMagic;

/// Request to select the next weapon.
#[derive(Clone, Copy, Debug, PartialEq, Eq, Structural)]
pub struct SwitchWeapon;

/// An enemy attack shape touched one of the player's own colliders.
#[derive(Clone, Copy, Debug, PartialEq, Eq, Structural)]
pub struct PlayerCollision {
    pub player: usize,
    pub other: usize,
}

/// The active spell projectile touched another collider.
#[derive(Clone, Copy, Debug, PartialEq, Eq, Structural)]
pub struct MagicCollision {
    pub magic: usize,
    pub other: usize,
}

impl MagicCollision {
    pub fn new(magic: usize, other: usize) -> (r: Self)
        ensures
            r == (MagicCollision { magic, other }),
    {
        Self { magic, other }
    }
}

/// The active weapon swing touched another collider.
#[derive(Clone, Copy, Debug, PartialEq, Eq, Structural)]
pub struct WeaponCollision {
    pub weapon: usize,
    pub other: usize,
}

impl WeaponCollision {
    pub fn new(weapon: usize, other: usize) -> (r: Self)
        ensures
            r == (WeaponCollision { weapon, other }),
    {
        Self { weapon, other }
    }
}

/// Damage resolution brought a target's health to zero: remove it.
#[derive(Clone, Copy, Debug, PartialEq, Eq, Structural)]
pub struct KillAttackable(pub usize);

/// Damage resolution left a target alive: knock it back and stun it.
#[derive(Clone, Copy, Debug, PartialEq, Eq, Structural)]
pub struct DamageAttackable(pub usize);

/// An enemy's attack reached the player.
#[derive(Clone, Copy, Debug, PartialEq, Eq, Structural)]
pub struct DamagePlayer(pub usize);

/// Ask the renderer to play a particle effect at a world position.
#[derive(Clone, Copy, Debug, PartialEq, Eq, Structural)]
pub struct EmitParticleEffect {
    pub ty: ParticleEffect,
    pub pos: Vec2i,
    pub offset: Vec2i,
}

impl EmitParticleEffect {
    pub fn new(ty: ParticleEffect, pos: Vec2i) -> (r: Self)
        ensures
            r == (EmitParticleEffect { ty, pos, offset: Vec2i { x: 0i64, y: 0i64 } }),
    {
        Self { ty, pos, offset: Vec2i { x: 0, y: 0 } }
    }

    pub fn with_offset(self, offset: Vec2i) -> (r: Self)
        ensures
            r == (EmitParticleEffect { offset, ..self }),
    {
        Self { offset, ..self }
    }
}

} // verus!
