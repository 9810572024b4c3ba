//! Countdown timers driven by the per-frame elapsed time.
//!
//! A one-shot timer saturates at its duration; a repeating timer wraps and
//! reports how it crossed the boundary.  The invulnerability flash is a
//! deterministic square wave over the timer's own elapsed time, so the same
//! sequence of ticks always yields the same sequence of alpha values.

use vstd::prelude::*;

use crate::constants::FLASH_HALF_PERIOD_MS;

verus! {

#[derive(Clone, Copy, Debug, PartialEq, Eq, Structural)]
pub enum TimerMode {
    Once,
    Repeating,
}

#[derive(Clone, Copy, Debug)]
pub struct Timer {
    pub duration_ms: u32,
    pub elapsed_ms: u32,
    pub mode: TimerMode,
}

impl Timer {
    /// A timer is well formed when its duration is positive and, outside the
    /// instant of wrapping, its elapsed time has not run past the duration.
    pub open spec fn wf(self) -> bool {
        self.duration_ms > 0 && self.elapsed_ms <= self.duration_ms
    }

    pub fn new(duration_ms: u32, mode: TimerMode) -> (r: Self)
        requires
            duration_ms > 0,
        ensures
            r.duration_ms == duration_ms,
            r.elapsed_ms == 0,
            r.mode == mode,
            r.wf(),
    {
        Self { duration_ms, elapsed_ms: 0, mode }
    }

    /// Advance the timer.  A one-shot timer saturates at its duration; a
    /// repeating timer keeps only the remainder past the last full period.
    pub fn tick(&mut self, delta_ms: u32)
        requires
            old(self).wf(),
        ensures
            final(self).duration_ms == old(self).duration_ms,
            final(self).mode == old(self).mode,
            final(self).wf(),
            old(self).mode == TimerMode::Once ==> final(self).elapsed_ms == vstd::math::min(
                old(self).duration_ms as int,
                old(self).elapsed_ms + delta_ms,
            ),
            old(self).mode == TimerMode::Repeating ==> final(self).elapsed_ms == (old(
                self,
            ).elapsed_ms + delta_ms) % (old(self).duration_ms as int),
    {
        let total: u64 = self.elapsed_ms as u64 + delta_ms as u64;
        match self.mode {
            TimerMode::Once => {
                if total >= self.duration_ms as u64 {
                    self.elapsed_ms = self.duration_ms;
                } else {
                    self.elapsed_ms = total as u32;
                }
            },
            TimerMode::Repeating => {
                self.elapsed_ms = (total % (self.duration_ms as u64)) as u32;
            },
        }
    }

    /// A one-shot timer is finished once it has saturated.
    pub fn finished(&self) -> (r: bool)
        ensures
            r == (self.elapsed_ms >= self.duration_ms),
    {
        self.elapsed_ms >= self.duration_ms
    }

    /// Whether the last `tick` of `delta_ms` made the timer cross (or reach)
    /// its duration, given the elapsed time it started from.
    pub fn just_finished(&self, before_ms: u32, delta_ms: u32) -> (r: bool)
        ensures
            r == (before_ms + delta_ms >= self.duration_ms),
    {
        before_ms as u64 + delta_ms as u64 >= self.duration_ms as u64
    }
}

/// Alpha of the hit-stun flash at a given point of the timer's own elapsed
/// time: fully opaque on even half-periods, fully transparent on odd ones.
pub fn flash_alpha(elapsed_ms: u32) -> (r: u8)
    ensures
        r == (if (elapsed_ms / FLASH_HALF_PERIOD_MS) % 2 == 0 {
            255u8
        } else {
            0u8
        }),
{
    if (elapsed_ms / FLASH_HALF_PERIOD_MS) % 2 == 0 {
        255
    } else {
        0
    }
}

} // verus!
