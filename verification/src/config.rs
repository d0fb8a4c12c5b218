//! Externally owned movement configuration: the walking speed used by the
//! motion resolver, and a debug preset ladder for stepping that speed up and
//! down at run time.

use vstd::prelude::*;

verus! {

/// Configuration read by the motion resolver each tick: the actor walking
/// speed, in milliunits per second.
#[derive(Clone, Copy, PartialEq, Eq, Structural, Debug)]
pub struct MovementConfig {
    pub player_speed: i64,
}

/// Debug configuration: a ladder of speed presets (in milliunits per second)
/// and the currently selected speed. Stepping moves the speed to the next
/// preset above or below it.
#[derive(Debug)]
pub struct DebugConfig {
    pub speed_presets: Vec<i64>,
    pub player_speed: i64,
}

/// Some preset is strictly faster than `speed`.
pub open spec fn has_faster(presets: Seq<i64>, speed: i64) -> bool {
    exists|i: int| 0 <= i < presets.len() && presets[i] > speed
}

/// Some preset is strictly slower than `speed`.
pub open spec fn has_slower(presets: Seq<i64>, speed: i64) -> bool {
    exists|i: int| 0 <= i < presets.len() && presets[i] < speed
}

/// `v` is the first preset strictly faster than `speed`: some preset equal to
/// `v` is faster, and every preset before it is not.
pub open spec fn is_first_faster(presets: Seq<i64>, speed: i64, v: i64) -> bool {
    exists|i: int|
        0 <= i < presets.len() && presets[i] > speed && presets[i] == v
            && (forall|j: int| 0 <= j < i ==> presets[j] <= speed)
}

/// `v` is the last preset strictly slower than `speed`: some preset equal to
/// `v` is slower, and every preset after it is not.
pub open spec fn is_last_slower(presets: Seq<i64>, speed: i64, v: i64) -> bool {
    exists|i: int|
        0 <= i < presets.len() && presets[i] < speed && presets[i] == v
            && (forall|j: int| i < j < presets.len() ==> presets[j] >= speed)
}

impl DebugConfig {
    /// Step the speed up to the first preset greater than the current speed.
    /// Returns the old and the new speed; if no preset is faster, the speed
    /// is unchanged and both returned values are the current speed.
    pub fn increase_speed(&mut self) -> (r: (i64, i64))
        ensures
            final(self).speed_presets@ == old(self).speed_presets@,
            has_faster(old(self).speed_presets@, old(self).player_speed) ==> {
                &&& is_first_faster(
                    old(self).speed_presets@,
                    old(self).player_speed,
                    final(self).player_speed,
                )
                &&& r == (old(self).player_speed, final(self).player_speed)
            },
            !has_faster(old(self).speed_presets@, old(self).player_speed) ==> {
                &&& final(self).player_speed == old(self).player_speed
                &&& r == (old(self).player_speed, old(self).player_speed)
            },
    {
        let old_speed = self.player_speed;
        let mut idx: usize = 0;
        while idx < self.speed_presets.len()
            invariant
                0 <= idx <= self.speed_presets.len(),
                forall|j: int| 0 <= j < idx ==> self.speed_presets@[j] <= old_speed,
                self.speed_presets@ == old(self).speed_presets@,
                self.player_speed == old(self).player_speed,
                old_speed == old(self).player_speed,
            decreases self.speed_presets.len() - idx,
        {
            if self.speed_presets[idx] > self.player_speed {
                let new_speed = self.speed_presets[idx];
                self.player_speed = new_speed;
                proof {
                    let ps = old(self).speed_presets@;
                    assert(0 <= idx < ps.len() && ps[idx as int] > old_speed
                        && ps[idx as int] == new_speed
                        && (forall|j: int| 0 <= j < idx ==> ps[j] <= old_speed));
                }
                return (old_speed, new_speed);
            }
            idx = idx + 1;
        }
        (old_speed, old_speed)
    }

    /// Step the speed down to the last preset less than the current speed.
    /// Returns the old and the new speed; if no preset is slower, the speed
    /// is unchanged and both returned values are the current speed.
    pub fn decrease_speed(&mut self) -> (r: (i64, i64))
        ensures
            final(self).speed_presets@ == old(self).speed_presets@,
            has_slower(old(self).speed_presets@, old(self).player_speed) ==> {
                &&& is_last_slower(
                    old(self).speed_presets@,
                    old(self).player_speed,
                    final(self).player_speed,
                )
                &&& r == (old(self).player_speed, final(self).player_speed)
            },
            !has_slower(old(self).speed_presets@, old(self).player_speed) ==> {
                &&& final(self).player_speed == old(self).player_speed
                &&& r == (old(self).player_speed, old(self).player_speed)
            },
    {
        let old_speed = self.player_speed;
        let mut idx: usize = self.speed_presets.len();
        while idx > 0
            invariant
                0 <= idx <= self.speed_presets.len(),
                forall|j: int|
                    idx <= j < self.speed_presets@.len() ==> self.speed_presets@[j] >= old_speed,
                self.speed_presets@ == old(self).speed_presets@,
                self.player_speed == old(self).player_speed,
                old_speed == old(self).player_speed,
            decreases idx,
        {
            idx = idx - 1;
            if self.speed_presets[idx] < self.player_speed {
                let new_speed = self.speed_presets[idx];
                self.player_speed = new_speed;
                proof {
                    let ps = old(self).speed_presets@;
                    assert(0 <= idx < ps.len() && ps[idx as int] < old_speed
                        && ps[idx as int] == new_speed
                        && (forall|j: int| idx < j < ps.len() ==> ps[j] >= old_speed));
                }
                return (old_speed, new_speed);
            }
        }
        (old_speed, old_speed)
    }
}

} // verus!
