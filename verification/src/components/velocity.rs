//! Velocity of an entity as a two dimensional vector, which encodes both
//! speed and direction.

use vstd::prelude::*;
use crate::vector::StorageTy;

verus! {

/// A speed along `x` and a speed along `y`.
#[derive(Clone, Copy, Debug, PartialEq, Eq, Structural)]
pub struct Velocity(pub StorageTy, pub StorageTy);

} // verus!
