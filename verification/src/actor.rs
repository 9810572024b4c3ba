//! Actor status and facing shared by the player and the enemies.
//!
//! Exactly one status is active per actor at a time.  `HitStun` interrupts
//! any state when the actor takes damage and expires back to `Idle`.

use vstd::prelude::*;

use crate::constants::COORD_LIMIT;
use crate::geom::Vec2i;

verus! {

#[derive(Clone, Copy, Debug, PartialEq, Eq, Structural)]
pub enum Status {
    Idle,
    Move(Vec2i),
    Attack,
    CastSpell,
    HitStun,
}

#[derive(Clone, Copy, Debug, PartialEq, Eq, Structural)]
pub enum Direction {
    Left,
    Up,
    Right,
    Down,
}

impl Direction {
    /// Unit vector of the facing, at the level of the model.
    pub open spec fn spec_as_vec2(self) -> Vec2i {
        match self {
            Direction::Left => Vec2i { x: -1i64, y: 0i64 },
            Direction::Right => Vec2i { x: 1i64, y: 0i64 },
            Direction::Up => Vec2i { x: 0i64, y: 1i64 },
            Direction::Down => Vec2i { x: 0i64, y: -1i64 },
        }
    }

    /// Unit vector of the facing, on the integer grid.
    pub fn as_vec2(self) -> (r: Vec2i)
        ensures
            r == self.spec_as_vec2(),
    {
        match self {
            Direction::Left => Vec2i { x: -1, y: 0 },
            Direction::Right => Vec2i { x: 1, y: 0 },
            Direction::Up => Vec2i { x: 0, y: 1 },
            Direction::Down => Vec2i { x: 0, y: -1 },
        }
    }

    /// The facing that a movement vector selects: the axis with the larger
    /// magnitude wins, vertical wins ties, and the zero vector faces down
    /// (the default facing).
    pub fn from_vec2(v: Vec2i) -> (r: Self)
        requires
            v.in_box(2 * COORD_LIMIT as int),
        ensures
            r == Self::spec_from_vec2(v),
    {
        let ax: i64 = if v.x >= 0 {
            v.x
        } else {
            -v.x
        };
        let ay: i64 = if v.y >= 0 {
            v.y
        } else {
            -v.y
        };
        if ax > ay {
            if v.x > 0 {
                Direction::Right
            } else {
                Direction::Left
            }
        } else if v.y > 0 {
            Direction::Up
        } else {
            Direction::Down
        }
    }

    pub open spec fn spec_from_vec2(v: Vec2i) -> Direction {
        let ax = if v.x >= 0 {
            v.x as int
        } else {
            -(v.x as int)
        };
        let ay = if v.y >= 0 {
            v.y as int
        } else {
            -(v.y as int)
        };
        if ax > ay {
            if v.x > 0 {
                Direction::Right
            } else {
                Direction::Left
            }
        } else if v.y > 0 {
            Direction::Up
        } else {
            Direction::Down
        }
    }
}

} // verus!
