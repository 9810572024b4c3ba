//! The generic clamped resource behind health, energy, damage, speed and
//! magic: a current `value`, an upgradeable `limit`, an absolute ceiling
//! `max`, and the experience `cost` of the next upgrade.
//!
//! Invariant: `value <= limit <= max`.  Subtraction saturates at zero and
//! addition at `limit`.  `upgrade` multiplies the limit by 1.2 and the cost
//! by 1.4, both rounded to the nearest integer, and clamps the limit at
//! `max`; once the limit sits at `max`, upgrading changes nothing.

use vstd::prelude::*;

verus! {

#[derive(Clone, Copy, Debug)]
pub struct Stat {
    pub value: u32,
    pub limit: u32,
    pub max: u32,
    pub cost: u32,
}

/// `x * 1.2` rounded to the nearest integer.  `12 * x` is always even, so
/// no tie can arise and rounding is unambiguous.
pub open spec fn scale_12(x: int) -> int {
    (12 * x + 5) / 10
}

/// `x * 1.4` rounded to the nearest integer, saturated at `u32::MAX`.
pub open spec fn scale_14_sat(x: int) -> int {
    vstd::math::min((14 * x + 5) / 10, u32::MAX as int)
}

/// The limit after one upgrade step.
pub open spec fn upgraded_limit(limit: int, max: int) -> int {
    if limit < max {
        vstd::math::min(scale_12(limit), max)
    } else {
        limit
    }
}

/// The cost after one upgrade step.
pub open spec fn upgraded_cost(limit: int, max: int, cost: int) -> int {
    if limit < max {
        scale_14_sat(cost)
    } else {
        cost
    }
}

impl Stat {
    pub open spec fn wf(self) -> bool {
        self.value <= self.limit <= self.max
    }

    pub fn new(value: u32, limit: u32, max: u32, cost: u32) -> (r: Self)
        requires
            value <= limit <= max,
        ensures
            r == (Stat { value, limit, max, cost }),
            r.wf(),
    {
        Self { value, limit, max, cost }
    }

    /// Set the current value, clamped at the limit.
    pub fn set(&mut self, val: u32)
        requires
            old(self).wf(),
        ensures
            final(self).value == vstd::math::min(val as int, old(self).limit as int),
            final(self).limit == old(self).limit,
            final(self).max == old(self).max,
            final(self).cost == old(self).cost,
            final(self).wf(),
    {
        if val <= self.limit {
            self.value = val;
        } else {
            self.value = self.limit;
        }
    }

    pub fn limit(&self) -> (r: u32)
        ensures
            r == self.limit,
    {
        self.limit
    }

    pub fn max(&self) -> (r: u32)
        ensures
            r == self.max,
    {
        self.max
    }

    pub fn value(&self) -> (r: u32)
        ensures
            r == self.value,
    {
        self.value
    }

    pub fn cost(&self) -> (r: u32)
        ensures
            r == self.cost,
    {
        self.cost
    }

    /// Saturating subtraction from the current value.
    pub fn sub(&mut self, rhs: u32)
        requires
            old(self).wf(),
        ensures
            final(self).value == if old(self).value > rhs {
                old(self).value - rhs
            } else {
                0int
            },
            final(self).limit == old(self).limit,
            final(self).max == old(self).max,
            final(self).cost == old(self).cost,
            final(self).wf(),
    {
        if self.value > rhs {
            self.value = self.value - rhs;
        } else {
            self.value = 0;
        }
    }

    /// Addition to the current value, clamped at the limit.
    pub fn add(&mut self, rhs: u32)
        requires
            old(self).wf(),
        ensures
            final(self).value == vstd::math::min(
                old(self).value + rhs,
                old(self).limit as int,
            ),
            final(self).limit == old(self).limit,
            final(self).max == old(self).max,
            final(self).cost == old(self).cost,
            final(self).wf(),
    {
        if rhs <= self.limit - self.value {
            self.value = self.value + rhs;
        } else {
            self.value = self.limit;
        }
    }

    /// One upgrade step: while the limit is below `max`, raise the limit by
    /// a factor of 1.2 (rounded, clamped at `max`) and the cost by a factor
    /// of 1.4 (rounded, saturated at the machine bound).
    pub fn upgrade(&mut self)
        requires
            old(self).wf(),
        ensures
            final(self).limit == upgraded_limit(old(self).limit as int, old(self).max as int),
            final(self).cost == upgraded_cost(
                old(self).limit as int,
                old(self).max as int,
                old(self).cost as int,
            ),
            final(self).value == old(self).value,
            final(self).max == old(self).max,
            final(self).wf(),
            // The limit never moves down and never passes the ceiling.
            old(self).limit <= final(self).limit <= old(self).max,
            // The cost never moves down.
            old(self).cost <= final(self).cost,
    {
        if self.limit < self.max {
            let raised: u64 = (12u64 * self.limit as u64 + 5) / 10;
            if raised < self.max as u64 {
                self.limit = raised as u32;
            } else {
                self.limit = self.max;
            }
            let cost: u64 = (14u64 * self.cost as u64 + 5) / 10;
            if cost < u32::MAX as u64 {
                self.cost = cost as u32;
            } else {
                self.cost = u32::MAX;
            }
        }
        proof {
            assert(12 * old(self).limit + 5 == 12u64 * old(self).limit as u64 + 5);
            assert(14 * old(self).cost + 5 == 14u64 * old(self).cost as u64 + 5);
        }
    }
}

/// The stat reached after `n` upgrade steps from `s`, at the level of the
/// mathematical model.
pub open spec fn upgraded_n(s: Stat, n: nat) -> Stat
    decreases n,
{
    if n == 0 {
        s
    } else {
        let p = upgraded_n(s, (n - 1) as nat);
        Stat {
            value: p.value,
            limit: upgraded_limit(p.limit as int, p.max as int) as u32,
            max: p.max,
            cost: upgraded_cost(p.limit as int, p.max as int, p.cost as int) as u32,
        }
    }
}

/// Over any sequence of upgrades the limit is non-decreasing and stays
/// bounded by `max`, and the cost is non-decreasing.
pub proof fn lemma_upgrade_sequence_monotone(s: Stat, n: nat)
    requires
        s.wf(),
    ensures
        upgraded_n(s, n).wf(),
        upgraded_n(s, n).max == s.max,
        upgraded_n(s, n).limit <= upgraded_n(s, n + 1).limit <= s.max,
        upgraded_n(s, n).cost <= upgraded_n(s, n + 1).cost,
        s.limit <= upgraded_n(s, n).limit,
        s.cost <= upgraded_n(s, n).cost,
    decreases n,
{
    if n > 0 {
        lemma_upgrade_sequence_monotone(s, (n - 1) as nat);
    }
}

/// While the limit still sits below `max`, each upgrade multiplies the cost
/// by 1.4 (rounded) exactly, up to the machine bound; once the limit has
/// reached `max`, the cost stops growing.
pub proof fn lemma_upgrade_cost_growth(s: Stat, n: nat)
    requires
        s.wf(),
    ensures
        upgraded_n(s, n).limit < s.max ==> upgraded_n(s, n + 1).cost == scale_14_sat(
            upgraded_n(s, n).cost as int,
        ),
        upgraded_n(s, n).limit == s.max ==> upgraded_n(s, n + 1) == upgraded_n(s, n),
{
    lemma_upgrade_sequence_monotone(s, n);
    let p = upgraded_n(s, n);
    if p.limit == s.max {
        assert(upgraded_n(s, n + 1) == Stat {
            value: p.value,
            limit: upgraded_limit(p.limit as int, p.max as int) as u32,
            max: p.max,
            cost: upgraded_cost(p.limit as int, p.max as int, p.cost as int) as u32,
        });
        assert(upgraded_limit(p.limit as int, p.max as int) == p.limit as int);
        assert(upgraded_cost(p.limit as int, p.max as int, p.cost as int) == p.cost as int);
    }
}

} // verus!
