//! The bounding box of an entity, as a component.

use vstd::prelude::*;
use crate::fixed::lemma_ceil_sqrt;
use crate::vector::length_wide;

pub use crate::collisions::BoundingBox;

verus! {

impl BoundingBox {
    /// The distance from the centre of the box to a corner, rounded up to a
    /// whole raw unit: no point of the box lies farther from its centre.
    pub fn dist(self) -> (d: i64)
        ensures
            d == self.0@.length(),
            0 <= d <= 0x1_0000_0000,
    {
        let len: u128 = length_wide(self.0.x as i64, self.0.y as i64);
        proof {
            let x = self.0.x as int;
            let y = self.0.y as int;
            let n = self.0@.norm_squared();
            assert(0 <= n <= 0x8000_0000_0000_0000) by (nonlinear_arith)
                requires
                    n == x * x + y * y,
                    -0x8000_0000 <= x <= 0x8000_0000,
                    -0x8000_0000 <= y <= 0x8000_0000,
            ;
            lemma_ceil_sqrt(n);
            assert(len <= 0x1_0000_0000) by (nonlinear_arith)
                requires
                    len > 0 ==> (len - 1) * (len - 1) < n,
                    n <= 0x8000_0000_0000_0000,
                    len >= 0,
            ;
        }
        len as i64
    }
}

} // verus!
