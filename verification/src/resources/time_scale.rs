//! The factor by which time within the game moves faster or slower.

use vstd::prelude::*;
use crate::vector::{StorageTy, ONE};

verus! {

/// Controls how fast time within the game is moving: a multiplicative
/// factor on every elapsed duration.
#[derive(Clone, Copy, Debug, PartialEq, Eq, Structural)]
pub struct TimeScale(pub StorageTy);

impl Default for TimeScale {
    /// The default time scale is one, so time moves at the standard speed.
    fn default() -> (scale: Self)
        ensures
            scale.0 == ONE,
    {
        TimeScale(ONE)
    }
}

} // verus!
