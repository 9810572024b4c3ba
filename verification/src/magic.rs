//! The spells the player can cast: per-kind strength and energy cost, and
//! the selection cycle.

use vstd::prelude::*;

verus! {

#[derive(Clone, Copy, Debug, PartialEq, Eq, Structural)]
pub enum Magic {
    Flame,
    Heal,
}

pub open spec fn magic_strength_of(m: Magic) -> u32 {
    match m {
        Magic::Flame => 5,
        Magic::Heal => 20,
    }
}

pub open spec fn magic_cost_of(m: Magic) -> u32 {
    match m {
        Magic::Flame => 20,
        Magic::Heal => 10,
    }
}

/// The selection cycle at the level of the model.
pub open spec fn spec_next_magic(m: Magic) -> Magic {
    match m {
        Magic::Flame => Magic::Heal,
        Magic::Heal => Magic::Flame,
    }
}

impl Magic {
    /// Strength of the spell: damage for flame, healing for heal.
    pub fn strength(&self) -> (r: u32)
        ensures
            r == magic_strength_of(*self),
    {
        match self {
            Magic::Flame => 5,
            Magic::Heal => 20,
        }
    }

    /// Energy the spell costs to cast.
    pub fn cost(&self) -> (r: u32)
        ensures
            r == magic_cost_of(*self),
    {
        match self {
            Magic::Flame => 20,
            Magic::Heal => 10,
        }
    }

    /// The next spell in the selection cycle.
    pub fn next(&self) -> (r: Self)
        ensures
            r == spec_next_magic(*self),
    {
        match self {
            Magic::Flame => Magic::Heal,
            Magic::Heal => Magic::Flame,
        }
    }
}

} // verus!
