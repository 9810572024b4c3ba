//! Particle-effect requests the combat pipeline hands to the renderer:
//! which effect, how many frames it has, and where it plays.

use vstd::prelude::*;

use crate::constants::TILE_SIZE;
use crate::enemy::{AttackType, EnemyType};
use crate::geom::Vec2i;
use crate::rng::random_in_range;

verus! {

#[derive(Clone, Copy, Debug, PartialEq, Eq, Structural)]
pub enum ParticleEffect {
    Aura,
    EnemyAttack(EnemyType),
    EnemyDeath(EnemyType),
    Flame,
    Heal,
    Leaf,
}

/// Pick which of the six leaf textures a cut-grass effect uses.  The pick
/// is random; only its range is promised.
pub fn leaf_variant() -> (r: u32)
    ensures
        1 <= r <= 6,
{
    random_in_range(1, 7) as u32
}

impl ParticleEffect {
    /// Only the leaf effect is drawn mirrored at random.
    pub fn is_flippable(&self) -> (r: bool)
        ensures
            r == (*self == ParticleEffect::Leaf),
    {
        matches!(self, ParticleEffect::Leaf)
    }

    /// Name of the texture of this effect.  The leaf effect has six
    /// variants; `leaf_variant` picks one.
    pub fn texture_name(&self, leaf_variant: u32) -> (r: &'static str)
        requires
            *self == ParticleEffect::Leaf ==> 1 <= leaf_variant <= 6,
        ensures
            *self == ParticleEffect::Aura ==> r@ == "aura"@,
            *self == ParticleEffect::Flame ==> r@ == "flame"@,
            *self == ParticleEffect::Heal ==> r@ == "heal"@,
            (*self matches ParticleEffect::EnemyAttack(ty) && attack_of(ty) == AttackType::Slash)
                ==> r@ == "slash_attack"@,
            (*self matches ParticleEffect::EnemyAttack(ty) && attack_of(ty) == AttackType::Claw)
                ==> r@ == "claw_attack"@,
            (*self matches ParticleEffect::EnemyAttack(ty) && attack_of(ty) == AttackType::Thunder)
                ==> r@ == "thunder_attack"@,
            (*self matches ParticleEffect::EnemyAttack(ty) && attack_of(ty) == AttackType::Leaf)
                ==> r@ == "leaf_attack"@,
            (*self matches ParticleEffect::EnemyDeath(ty) && ty == EnemyType::Squid) ==> r@
                == "squid_death"@,
            (*self matches ParticleEffect::EnemyDeath(ty) && ty == EnemyType::Raccoon) ==> r@
                == "raccoon_death"@,
            (*self matches ParticleEffect::EnemyDeath(ty) && ty == EnemyType::Spirit) ==> r@
                == "spirit_death"@,
            (*self matches ParticleEffect::EnemyDeath(ty) && ty == EnemyType::Bamboo) ==> r@
                == "bamboo_death"@,
            *self == ParticleEffect::Leaf ==> (r@ == "leaf1"@ || r@ == "leaf2"@ || r@ == "leaf3"@
                || r@ == "leaf4"@ || r@ == "leaf5"@ || r@ == "leaf6"@),
    {
        match self {
            ParticleEffect::Aura => "aura",
            ParticleEffect::Flame => "flame",
            ParticleEffect::Heal => "heal",
            ParticleEffect::EnemyAttack(ty) => match ty {
                EnemyType::Squid => "slash_attack",
                EnemyType::Raccoon => "claw_attack",
                EnemyType::Spirit => "thunder_attack",
                EnemyType::Bamboo => "leaf_attack",
            },
            ParticleEffect::EnemyDeath(ty) => match ty {
                EnemyType::Squid => "squid_death",
                EnemyType::Raccoon => "raccoon_death",
                EnemyType::Spirit => "spirit_death",
                EnemyType::Bamboo => "bamboo_death",
            },
            ParticleEffect::Leaf => match leaf_variant {
                1 => "leaf1",
                2 => "leaf2",
                3 => "leaf3",
                4 => "leaf4",
                5 => "leaf5",
                _ => "leaf6",
            },
        }
    }

    /// How many frames the effect's animation has.  For the leaf effect
    /// the count depends on the picked variant.
    pub fn num_frames(&self, leaf_variant: u32) -> (r: usize)
        requires
            *self == ParticleEffect::Leaf ==> 1 <= leaf_variant <= 6,
        ensures
            r == spec_num_frames(*self, leaf_variant),
    {
        match self {
            ParticleEffect::Aura => 4,
            ParticleEffect::Leaf => match leaf_variant {
                1 => 11,
                2 => 12,
                3 => 9,
                4 => 10,
                5 => 9,
                _ => 11,
            },
            ParticleEffect::EnemyAttack(ty) => match ty {
                EnemyType::Squid => 4,
                EnemyType::Raccoon => 4,
                EnemyType::Spirit => 8,
                EnemyType::Bamboo => 7,
            },
            ParticleEffect::EnemyDeath(ty) => match ty {
                EnemyType::Bamboo => 2,
                EnemyType::Raccoon => 6,
                EnemyType::Spirit => 6,
                EnemyType::Squid => 6,
            },
            ParticleEffect::Flame => 12,
            ParticleEffect::Heal => 5,
        }
    }

    /// Offset of the effect relative to the entity it plays on: leaves
    /// drift up by one tile, everything else plays in place.
    pub fn pos(&self) -> (r: Vec2i)
        ensures
            *self == ParticleEffect::Leaf ==> r == (Vec2i { x: 0i64, y: TILE_SIZE as i64 }),
            *self != ParticleEffect::Leaf ==> r == (Vec2i { x: 0i64, y: 0i64 }),
    {
        match self {
            ParticleEffect::Leaf => Vec2i { x: 0, y: TILE_SIZE },
            _ => Vec2i { x: 0, y: 0 },
        }
    }
}

/// The attack kind of an enemy archetype.
pub open spec fn attack_of(ty: EnemyType) -> AttackType {
    match ty {
        EnemyType::Squid => AttackType::Slash,
        EnemyType::Raccoon => AttackType::Claw,
        EnemyType::Spirit => AttackType::Thunder,
        EnemyType::Bamboo => AttackType::Leaf,
    }
}

pub open spec fn spec_num_frames(e: ParticleEffect, leaf_variant: u32) -> usize {
    match e {
        ParticleEffect::Aura => 4,
        ParticleEffect::Leaf => if leaf_variant == 1 {
            11
        } else if leaf_variant == 2 {
            12
        } else if leaf_variant == 3 {
            9
        } else if leaf_variant == 4 {
            10
        } else if leaf_variant == 5 {
            9
        } else {
            11
        },
        ParticleEffect::EnemyAttack(ty) => match attack_of(ty) {
            AttackType::Claw => 4,
            AttackType::Leaf => 7,
            AttackType::Slash => 4,
            AttackType::Thunder => 8,
        },
        ParticleEffect::EnemyDeath(ty) => match ty {
            EnemyType::Bamboo => 2,
            EnemyType::Raccoon => 6,
            EnemyType::Spirit => 6,
            EnemyType::Squid => 6,
        },
        ParticleEffect::Flame => 12,
        ParticleEffect::Heal => 5,
    }
}

} // verus!
