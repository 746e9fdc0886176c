//! Position and movement of an entity: where it was before the last step,
//! where it is, and how fast it moves. After a step, the way from the old
//! position to the new one is the velocity times the scaled duration of the
//! step, up to rounding.

use vstd::prelude::*;
use crate::fixed::{
    lemma_scale_product_error,
    lemma_trunc_div_magnitude,
    mul_scaled,
    scale_product,
};
use crate::vector::{in_storage, Coords, Point2, StorageTy, Vec2, ONE};

verus! {

/// Where an entity was, where it is, and how fast it moves.
#[derive(Clone, Copy, Debug, PartialEq, Eq, Structural)]
pub struct RelativeLocomotor {
    pub old_pos: Point2,
    pub pos: Point2,
    pub velocity: Vec2,
}

impl RelativeLocomotor {
    /// A locomotor at rest at `pos`.
    pub fn with_pos(pos: Point2) -> (locomotor: Self)
        ensures
            locomotor == (RelativeLocomotor { old_pos: pos, pos, velocity: Vec2 { x: 0, y: 0 } }),
    {
        Self::with_velocity(pos, Vec2::zeros())
    }

    /// A locomotor at `pos` that moves with `velocity`.
    pub fn with_velocity(pos: Point2, velocity: Vec2) -> (locomotor: Self)
        ensures
            locomotor == (RelativeLocomotor { old_pos: pos, pos, velocity }),
    {
        RelativeLocomotor { old_pos: pos, pos, velocity }
    }

    /// The velocity that drives a step: the override where one is given,
    /// else the locomotor's own.
    pub open spec fn driving_velocity(self, velocity_override: Option<Vec2>) -> Coords {
        match velocity_override {
            Some(v) => v@,
            None => self.velocity@,
        }
    }

    /// Where a step of scaled duration `scaled_dt` leads.
    pub open spec fn next_pos(self, velocity_override: Option<Vec2>, scaled_dt: int) -> Coords {
        let v = self.driving_velocity(velocity_override);
        Coords {
            x: self.pos.x + scale_product(v.x, scaled_dt),
            y: self.pos.y + scale_product(v.y, scaled_dt),
        }
    }

    /// The step leads to a position that can be stored.
    pub open spec fn can_advance(self, velocity_override: Option<Vec2>, scaled_dt: int) -> bool {
        let next = self.next_pos(velocity_override, scaled_dt);
        in_storage(next.x) && in_storage(next.y)
    }

    /// The locomotor after a step of scaled duration `scaled_dt`.
    pub open spec fn advanced(self, velocity_override: Option<Vec2>, scaled_dt: int) -> Self {
        let next = self.next_pos(velocity_override, scaled_dt);
        RelativeLocomotor {
            old_pos: self.pos,
            pos: Point2 { x: next.x as StorageTy, y: next.y as StorageTy },
            velocity: self.velocity,
        }
    }

    fn target(from: StorageTy, speed: StorageTy, scaled_dt: i64) -> (to: i128)
        ensures
            to == from + scale_product(speed as int, scaled_dt as int),
    {
        let way: i128 = mul_scaled(speed as i64, scaled_dt);
        proof {
            assert(-0x4000_0000_0000_0000_0000_0000 <= speed * scaled_dt
                <= 0x4000_0000_0000_0000_0000_0000) by (nonlinear_arith)
                requires
                    -0x8000_0000 <= speed <= 0x8000_0000,
                    -0x8000_0000_0000_0000 <= scaled_dt <= 0x8000_0000_0000_0000,
            ;
            lemma_trunc_div_magnitude(
                speed * scaled_dt,
                ONE as int,
                0x4000_0000_0000_0000_0000,
            );
        }
        from as i128 + way
    }

    /// Moves by the velocity times `scaled_dt`, the elapsed time multiplied
    /// by the time scale, where the position reached can be stored; the
    /// previous position becomes the old one, the velocity stays.
    pub fn try_advance(self, velocity_override: Option<Vec2>, scaled_dt: i64) -> (next: Option<Self>)
        ensures
            next.is_some() == self.can_advance(velocity_override, scaled_dt as int),
            next matches Some(l) ==> l == self.advanced(velocity_override, scaled_dt as int),
    {
        let velocity = match velocity_override {
            Some(v) => v,
            None => self.velocity,
        };
        let x: i128 = Self::target(self.pos.x, velocity.x, scaled_dt);
        let y: i128 = Self::target(self.pos.y, velocity.y, scaled_dt);
        if x < -0x8000_0000 || x > 0x7FFF_FFFF || y < -0x8000_0000 || y > 0x7FFF_FFFF {
            None
        } else {
            Some(
                RelativeLocomotor {
                    old_pos: self.pos,
                    pos: Point2 { x: x as StorageTy, y: y as StorageTy },
                    velocity: self.velocity,
                },
            )
        }
    }

    /// Moves by the velocity times `scaled_dt`, the elapsed time multiplied
    /// by the time scale: the previous position becomes the old one, the
    /// velocity stays. The position is not clamped; it has to be one that
    /// can be stored.
    pub fn advance(self, velocity_override: Option<Vec2>, scaled_dt: i64) -> (next: Self)
        requires
            self.can_advance(velocity_override, scaled_dt as int),
        ensures
            next == self.advanced(velocity_override, scaled_dt as int),
            next.old_pos == self.pos,
            next.pos@ == self.next_pos(velocity_override, scaled_dt as int),
            next.velocity == self.velocity,
    {
        let velocity = match velocity_override {
            Some(v) => v,
            None => self.velocity,
        };
        let x: i128 = Self::target(self.pos.x, velocity.x, scaled_dt);
        let y: i128 = Self::target(self.pos.y, velocity.y, scaled_dt);
        RelativeLocomotor {
            old_pos: self.pos,
            pos: Point2 { x: x as StorageTy, y: y as StorageTy },
            velocity: self.velocity,
        }
    }
}

/// After a step, the way from the old position to the new one is the
/// driving velocity times the scaled duration, to within one raw unit.
pub proof fn lemma_step_follows_velocity(
    locomotor: RelativeLocomotor,
    velocity_override: Option<Vec2>,
    scaled_dt: int,
)
    requires
        locomotor.can_advance(velocity_override, scaled_dt),
    ensures
        ({
            let next = locomotor.advanced(velocity_override, scaled_dt);
            let v = locomotor.driving_velocity(velocity_override);
            &&& next.old_pos == locomotor.pos
            &&& -(ONE as int) < (next.pos.x - next.old_pos.x) * ONE - v.x * scaled_dt < ONE
            &&& -(ONE as int) < (next.pos.y - next.old_pos.y) * ONE - v.y * scaled_dt < ONE
        }),
{
    let v = locomotor.driving_velocity(velocity_override);
    lemma_scale_product_error(v.x, scaled_dt);
    lemma_scale_product_error(v.y, scaled_dt);
}

} // verus!
