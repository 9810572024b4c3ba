//! Spawn caps used while tuning a world: a cap of `-1` means unlimited.

use vstd::prelude::*;

verus! {

/// Whether another entity may be spawned under a cap: always with the
/// unlimited cap `-1`, otherwise while the running count has not passed
/// the cap.
pub fn can_spawn(current: usize, max: i32) -> (r: bool)
    ensures
        r == (max == -1 || current <= max as usize),
{
    if max == -1 {
        true
    } else {
        current <= max as usize
    }
}

} // verus!
