//! Moves every entity that has a position and a velocity according to the
//! current time scale of the world. Motion goes through this one system so
//! that no entity is ever moved without the time scale.

use vstd::prelude::*;
use crate::components::RelativeLocomotor;
use crate::fixed::{mul_storage, scale_product};
use crate::resources::TimeScale;
use crate::vector::StorageTy;

verus! {

/// Moves all entities by their velocities and the time scale.
pub struct RelativeMotionSystem;

impl RelativeMotionSystem {
    /// The time that passes in the game during `delta_seconds` of the clock.
    pub open spec fn scaled_time(time_scale: TimeScale, delta_seconds: int) -> int {
        scale_product(time_scale.0 as int, delta_seconds)
    }

    /// Every locomotor can take a step of `scaled_dt`.
    pub open spec fn all_can_advance(locomotors: Seq<RelativeLocomotor>, scaled_dt: int) -> bool {
        forall|i: int|
            0 <= i < locomotors.len() ==> (#[trigger] locomotors[i]).can_advance(None, scaled_dt)
    }

    /// `after` holds the locomotors of `before`, each one step of `scaled_dt`
    /// further.
    pub open spec fn all_advanced(
        before: Seq<RelativeLocomotor>,
        after: Seq<RelativeLocomotor>,
        scaled_dt: int,
    ) -> bool {
        &&& after.len() == before.len()
        &&& forall|i: int|
            0 <= i < before.len() ==> #[trigger] after[i] == before[i].advanced(None, scaled_dt)
    }

    /// One tick: every locomotor moves by its velocity times the scaled
    /// time, and remembers where it was.
    pub fn run(
        &self,
        locomotors: &mut Vec<RelativeLocomotor>,
        time_scale: &TimeScale,
        delta_seconds: StorageTy,
    )
        requires
            Self::all_can_advance(
                old(locomotors)@,
                Self::scaled_time(*time_scale, delta_seconds as int),
            ),
        ensures
            Self::all_advanced(
                old(locomotors)@,
                final(locomotors)@,
                Self::scaled_time(*time_scale, delta_seconds as int),
            ),
    {
        // The current time scale times the amount of time that passed.
        let scaled: i64 = mul_storage(time_scale.0, delta_seconds);
        let ghost before = locomotors@;
        let n: usize = locomotors.len();
        let mut i: usize = 0;
        while i < n
            invariant
                i <= n,
                n == before.len(),
                locomotors@.len() == n,
                Self::all_can_advance(before, scaled as int),
                forall|j: int| 0 <= j < i ==> #[trigger] locomotors@[j] == before[j].advanced(None, scaled as int),
                forall|j: int| i <= j < n ==> #[trigger] locomotors@[j] == before[j],
            decreases n - i,
        {
            let moved = locomotors[i].advance(None, scaled);
            locomotors.set(i, moved);
            i = i + 1;
        }
    }

    fn check_all(locomotors: &Vec<RelativeLocomotor>, scaled: i64) -> (all: bool)
        ensures
            all == Self::all_can_advance(locomotors@, scaled as int),
    {
        let n: usize = locomotors.len();
        let mut i: usize = 0;
        while i < n
            invariant
                i <= n,
                locomotors@.len() == n,
                forall|j: int|
                    0 <= j < i ==> (#[trigger] locomotors@[j]).can_advance(None, scaled as int),
            decreases n - i,
        {
            if locomotors[i].try_advance(None, scaled).is_none() {
                assert(!locomotors@[i as int].can_advance(None, scaled as int));
                return false;
            }
            i = i + 1;
        }
        true
    }

    /// One tick, where every locomotor can take its step; where one cannot,
    /// none is moved.
    pub fn try_run(
        &self,
        locomotors: &mut Vec<RelativeLocomotor>,
        time_scale: &TimeScale,
        delta_seconds: StorageTy,
    ) -> (done: bool)
        ensures
            done == Self::all_can_advance(
                old(locomotors)@,
                Self::scaled_time(*time_scale, delta_seconds as int),
            ),
            done ==> Self::all_advanced(
                old(locomotors)@,
                final(locomotors)@,
                Self::scaled_time(*time_scale, delta_seconds as int),
            ),
            !done ==> final(locomotors)@ == old(locomotors)@,
    {
        let scaled: i64 = mul_storage(time_scale.0, delta_seconds);
        if Self::check_all(locomotors, scaled) {
            self.run(locomotors, time_scale, delta_seconds);
            true
        } else {
            false
        }
    }
}

} // verus!
