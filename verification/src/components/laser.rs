//! The properties of a laser.

use vstd::prelude::*;
use crate::vector::StorageTy;

verus! {

/// A projectile: a segment of a given length that flies along its velocity.
#[derive(Clone, Copy, Debug, PartialEq, Eq)]
pub struct Laser {
    /// The color of the laser, one value per channel, each from zero up to
    /// but not including one. It is applied as a tint.
    pub color: (StorageTy, StorageTy, StorageTy),
    /// The length of the laser from end to end.
    pub len: StorageTy,
}

} // verus!
