//! A `u32` resource clamped between `0` and a fixed maximum.
//!
//! Subtraction saturates at `0`; addition saturates at `max`.

use vstd::prelude::*;

verus! {

#[derive(Clone, Copy, Debug)]
pub struct ClampedU32 {
    pub value: u32,
    pub max: u32,
}

impl ClampedU32 {
    pub fn new(value: u32, max: u32) -> (r: Self)
        ensures
            r.value == value,
            r.max == max,
    {
        Self { value, max }
    }

    pub fn value(&self) -> (r: u32)
        ensures
            r == self.value,
    {
        self.value
    }

    pub fn max(&self) -> (r: u32)
        ensures
            r == self.max,
    {
        self.max
    }

    /// Saturating subtraction: the value never goes below zero.
    pub fn sub(self, rhs: u32) -> (r: Self)
        ensures
            r.max == self.max,
            r.value == if self.value > rhs { self.value - rhs } else { 0 },
    {
        let value: u32 = if self.value > rhs {
            self.value - rhs
        } else {
            0
        };
        Self { value, max: self.max }
    }

    /// Clamped addition: the value never goes above `max`.
    pub fn add(self, rhs: u32) -> (r: Self)
        ensures
            r.max == self.max,
            r.value == if self.value + rhs <= self.max { self.value + rhs } else { self.max as int },
    {
        let value: u32 = if self.value <= self.max && rhs <= self.max - self.value {
            self.value + rhs
        } else {
            self.max
        };
        Self { value, max: self.max }
    }
}

} // verus!
