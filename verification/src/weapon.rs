//! Weapons the player can swing: per-kind damage and cooldown tables and
//! the selection cycle.

use vstd::prelude::*;

verus! {

#[derive(Clone, Copy, Debug, PartialEq, Eq, Structural)]
pub enum Weapon {
    Axe,
    Lance,
    Rapier,
    Sai,
    Sword,
}

pub open spec fn weapon_cooldown_of(w: Weapon) -> u32 {
    match w {
        Weapon::Axe => 300,
        Weapon::Lance => 400,
        Weapon::Rapier => 50,
        Weapon::Sai => 80,
        Weapon::Sword => 100,
    }
}

pub open spec fn weapon_damage_of(w: Weapon) -> u32 {
    match w {
        Weapon::Axe => 20,
        Weapon::Lance => 30,
        Weapon::Rapier => 8,
        Weapon::Sai => 10,
        Weapon::Sword => 15,
    }
}

impl Weapon {
    /// Extra cooldown this weapon adds to the base attack duration, in
    /// milliseconds.
    pub fn cooldown(&self) -> (r: u32)
        ensures
            r == weapon_cooldown_of(*self),
            r <= 400,
    {
        match self {
            Weapon::Axe => 300,
            Weapon::Lance => 400,
            Weapon::Rapier => 50,
            Weapon::Sai => 80,
            Weapon::Sword => 100,
        }
    }

    /// Damage this weapon adds on top of the player's base damage.
    pub fn damage(&self) -> (r: u32)
        ensures
            r == weapon_damage_of(*self),
    {
        match self {
            Weapon::Axe => 20,
            Weapon::Lance => 30,
            Weapon::Rapier => 8,
            Weapon::Sai => 10,
            Weapon::Sword => 15,
        }
    }

    /// The next weapon in the selection cycle.
    pub fn next(&self) -> (r: Self)
        ensures
            r == spec_next(*self),
    {
        match self {
            Weapon::Axe => Weapon::Lance,
            Weapon::Lance => Weapon::Rapier,
            Weapon::Rapier => Weapon::Sai,
            Weapon::Sai => Weapon::Sword,
            Weapon::Sword => Weapon::Axe,
        }
    }
}

/// The selection cycle at the level of the model.
pub open spec fn spec_next(w: Weapon) -> Weapon {
    match w {
        Weapon::Axe => Weapon::Lance,
        Weapon::Lance => Weapon::Rapier,
        Weapon::Rapier => Weapon::Sai,
        Weapon::Sai => Weapon::Sword,
        Weapon::Sword => Weapon::Axe,
    }
}

} // verus!
