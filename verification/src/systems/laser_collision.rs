//! Checks lasers for collision with the player, and removes those that hit
//! and those that have strayed too far.
//!
//! A laser is a segment: it reaches half its length ahead of its position
//! and half its length behind, along its velocity. Per tick, each laser is
//! first held against a circle around the player that no colliding laser
//! can lie outside of. Only a laser within that circle is tested exactly,
//! and only a laser outside it can be removed for its distance.

use vstd::prelude::*;
use crate::collisions::{
    rect_around,
    segment_intersects_rect,
    segment_intersects_rect_wide,
    BoundingBox,
    Rect,
    WidePoint,
};
use crate::components::{Laser, RelativeLocomotor};
use crate::fixed::{div_toward_zero, lemma_trunc_div_magnitude, trunc_div};
use crate::vector::{length_wide, Coords, Point2, StorageTy};

pub mod laws;

use laws::lemma_far_laser_misses;

verus! {

/// What can be configured of the removal of lasers.
#[derive(Clone, Copy, Debug, PartialEq, Eq, Structural)]
pub struct LaserCollisionConfig {
    /// The distance from the player beyond which a laser is removed.
    pub despawn_dist: StorageTy,
}

/// The laser is close enough to the player to be tested for a collision:
/// closer than its own length plus the distance from the player's centre to
/// a corner of the player's box.
pub open spec fn is_near(player_pos: Coords, half_extent: Coords, laser_pos: Coords, len: int) -> bool {
    let reach = len + half_extent.length();
    player_pos.minus(laser_pos).norm_squared() < reach * reach
}

/// The way from the middle of a laser to its front end: half its length
/// along its velocity, each coordinate rounded toward zero.
pub open spec fn half_laser(len: int, velocity: Coords) -> Coords {
    let speed = velocity.length();
    Coords {
        x: trunc_div(len * velocity.x, 2 * speed),
        y: trunc_div(len * velocity.y, 2 * speed),
    }
}

/// The segment of the laser intersects an edge of the player's rectangle.
/// A laser at rest points nowhere and hits nothing.
pub open spec fn laser_hits(
    player_pos: Coords,
    half_extent: Coords,
    laser_pos: Coords,
    len: int,
    velocity: Coords,
) -> bool {
    &&& velocity.x != 0 || velocity.y != 0
    &&& segment_intersects_rect(
        laser_pos.plus(half_laser(len, velocity)),
        laser_pos.minus(half_laser(len, velocity)),
        rect_around(player_pos, half_extent),
    )
}

/// The verdict on one laser: a near laser goes when it hits the player, any
/// other when it is farther away than the despawn distance.
pub open spec fn laser_is_removed(
    despawn_dist_squared: int,
    player_pos: Coords,
    half_extent: Coords,
    laser_pos: Coords,
    len: int,
    velocity: Coords,
) -> bool {
    if is_near(player_pos, half_extent, laser_pos, len) {
        laser_hits(player_pos, half_extent, laser_pos, len, velocity)
    } else {
        player_pos.minus(laser_pos).norm_squared() > despawn_dist_squared
    }
}

/// Removes the lasers that hit the player and those that strayed too far.
pub struct LaserCollisionSystem {
    despawn_dist_squared: i64,
}

impl LaserCollisionSystem {
    /// The square of the distance beyond which a laser is removed.
    pub closed spec fn despawn_dist_squared(self) -> int {
        self.despawn_dist_squared as int
    }

    /// Builds a `LaserCollisionSystem` with the provided `LaserCollisionConfig`.
    pub fn from_config(config: LaserCollisionConfig) -> (system: Self)
        ensures
            system.despawn_dist_squared() == config.despawn_dist * config.despawn_dist,
    {
        let dist: i64 = config.despawn_dist as i64;
        assert(0 <= dist * dist <= 0x4000_0000_0000_0000) by (nonlinear_arith)
            requires
                -0x8000_0000 <= dist <= 0x8000_0000,
        ;
        LaserCollisionSystem { despawn_dist_squared: dist * dist }
    }

    /// One coordinate of the way from the middle of a laser to its front end.
    fn half_laser_along(len: StorageTy, toward: StorageTy, speed: u128) -> (half: i64)
        requires
            0 < speed <= 0x1_0000_0000_0000_0000,
            -speed <= toward <= speed,
        ensures
            half == trunc_div(len * toward, 2 * speed),
            -0x4000_0000 <= half <= 0x4000_0000,
    {
        let wide_len: i64 = len as i64;
        let wide_along: i64 = toward as i64;
        assert(-0x4000_0000_0000_0000 <= wide_len * wide_along <= 0x4000_0000_0000_0000
            && -(0x4000_0000 * (2 * speed)) <= wide_len * wide_along <= 0x4000_0000 * (2 * speed))
            by (nonlinear_arith)
            requires
                -0x8000_0000 <= wide_len <= 0x8000_0000,
                -0x8000_0000 <= wide_along <= 0x8000_0000,
                -speed <= wide_along <= speed,
        ;
        proof {
            lemma_trunc_div_magnitude(wide_len * wide_along, 2 * speed, 0x4000_0000);
        }
        let half: i128 = div_toward_zero((wide_len * wide_along) as i128, 2 * (speed as i128));
        half as i64
    }

    fn hits_rect(player_rect: Rect, laser: &Laser, locomotor: &RelativeLocomotor) -> (hit: bool)
        ensures
            hit == ({
                &&& locomotor.velocity.x != 0 || locomotor.velocity.y != 0
                &&& segment_intersects_rect(
                    locomotor.pos@.plus(half_laser(laser.len as int, locomotor.velocity@)),
                    locomotor.pos@.minus(half_laser(laser.len as int, locomotor.velocity@)),
                    player_rect@,
                )
            }),
    {
        let velocity = locomotor.velocity;
        if velocity.x == 0 && velocity.y == 0 {
            return false;
        }
        let speed: u128 = length_wide(velocity.x as i64, velocity.y as i64);
        let half_x: i64 = Self::half_laser_along(laser.len, velocity.x, speed);
        let half_y: i64 = Self::half_laser_along(laser.len, velocity.y, speed);
        let laser_top = WidePoint {
            x: locomotor.pos.x as i64 + half_x,
            y: locomotor.pos.y as i64 + half_y,
        };
        let laser_bot = WidePoint {
            x: locomotor.pos.x as i64 - half_x,
            y: locomotor.pos.y as i64 - half_y,
        };
        segment_intersects_rect_wide(laser_top, laser_bot, player_rect)
    }

    fn near_radius(
        player_pos: Point2,
        player_radius: i64,
        laser: &Laser,
        locomotor: &RelativeLocomotor,
    ) -> (verdict: (bool, i128))
        requires
            0 <= player_radius <= 0x1_0000_0000,
        ensures
            verdict.1 == player_pos@.minus(locomotor.pos@).norm_squared(),
            verdict.0 == (verdict.1 < (laser.len + player_radius) * (laser.len + player_radius)),
    {
        let dx: i128 = (player_pos.x as i64 - locomotor.pos.x as i64) as i128;
        let dy: i128 = (player_pos.y as i64 - locomotor.pos.y as i64) as i128;
        assert(0 <= dx * dx <= 0x1_0000_0000_0000_0000) by (nonlinear_arith)
            requires
                -0x1_0000_0000 <= dx <= 0x1_0000_0000,
        ;
        assert(0 <= dy * dy <= 0x1_0000_0000_0000_0000) by (nonlinear_arith)
            requires
                -0x1_0000_0000 <= dy <= 0x1_0000_0000,
        ;
        let dist_squared: i128 = dx * dx + dy * dy;
        let player_radius_with_laser: i128 = laser.len as i128 + player_radius as i128;
        assert(0 <= player_radius_with_laser * player_radius_with_laser
            <= 0x10_0000_0000_0000_0000) by (nonlinear_arith)
            requires
                -0x2_0000_0000 <= player_radius_with_laser <= 0x2_0000_0000,
        ;
        let player_radius_with_laser_squared: i128 = player_radius_with_laser
            * player_radius_with_laser;
        (dist_squared < player_radius_with_laser_squared, dist_squared)
    }

    fn decide(
        &self,
        player_pos: Point2,
        player_radius: i64,
        player_rect: Rect,
        laser: &Laser,
        locomotor: &RelativeLocomotor,
    ) -> (gone: bool)
        requires
            0 <= player_radius <= 0x1_0000_0000,
        ensures
            gone == ({
                let reach = laser.len + player_radius;
                let dist_squared = player_pos@.minus(locomotor.pos@).norm_squared();
                if dist_squared < reach * reach {
                    &&& locomotor.velocity.x != 0 || locomotor.velocity.y != 0
                    &&& segment_intersects_rect(
                        locomotor.pos@.plus(half_laser(laser.len as int, locomotor.velocity@)),
                        locomotor.pos@.minus(half_laser(laser.len as int, locomotor.velocity@)),
                        player_rect@,
                    )
                } else {
                    dist_squared > self.despawn_dist_squared()
                }
            }),
    {
        let (near, dist_squared) = Self::near_radius(player_pos, player_radius, laser, locomotor);
        if near {
            // We are close enough to check for a collision.
            Self::hits_rect(player_rect, laser, locomotor)
        } else {
            dist_squared > self.despawn_dist_squared as i128
        }
    }

    /// The proximity test: whether the laser is close enough to the player
    /// to be tested for a collision.
    pub fn near(
        player_pos: Point2,
        bb: BoundingBox,
        laser: &Laser,
        locomotor: &RelativeLocomotor,
    ) -> (close: bool)
        ensures
            close == is_near(player_pos@, bb.0@, locomotor.pos@, laser.len as int),
    {
        let player_radius: i64 = bb.dist();
        Self::near_radius(player_pos, player_radius, laser, locomotor).0
    }

    /// The exact test: whether the laser intersects an edge of the player's
    /// rectangle. A laser of positive length that is not near the player
    /// never does.
    pub fn hits(
        player_pos: Point2,
        bb: BoundingBox,
        laser: &Laser,
        locomotor: &RelativeLocomotor,
    ) -> (hit: bool)
        ensures
            hit == laser_hits(
                player_pos@,
                bb.0@,
                locomotor.pos@,
                laser.len as int,
                locomotor.velocity@,
            ),
            hit && laser.len > 0 ==> is_near(player_pos@, bb.0@, locomotor.pos@, laser.len as int),
    {
        proof {
            if laser.len > 0 && !is_near(player_pos@, bb.0@, locomotor.pos@, laser.len as int) {
                lemma_far_laser_misses(
                    player_pos@,
                    bb.0@,
                    locomotor.pos@,
                    laser.len as int,
                    locomotor.velocity@,
                );
            }
        }
        Self::hits_rect(Rect::from_bounding_box(player_pos, bb), laser, locomotor)
    }

    /// Whether this tick removes the laser, given where the player is and
    /// how far the player's box reaches.
    pub fn removes(
        &self,
        player_pos: Point2,
        bb: BoundingBox,
        laser: &Laser,
        locomotor: &RelativeLocomotor,
    ) -> (gone: bool)
        ensures
            gone == laser_is_removed(
                self.despawn_dist_squared(),
                player_pos@,
                bb.0@,
                locomotor.pos@,
                laser.len as int,
                locomotor.velocity@,
            ),
    {
        let player_radius: i64 = bb.dist();
        let player_rect = Rect::from_bounding_box(player_pos, bb);
        self.decide(player_pos, player_radius, player_rect, laser, locomotor)
    }

    /// One tick over all lasers: says of each, in order, whether it is
    /// removed. A laser that is not removed persists unchanged.
    pub fn run(
        &self,
        player_pos: Point2,
        bb: BoundingBox,
        lasers: &Vec<(Laser, RelativeLocomotor)>,
    ) -> (removed: Vec<bool>)
        ensures
            removed@.len() == lasers@.len(),
            forall|i: int|
                0 <= i < lasers@.len() ==> #[trigger] removed@[i] == laser_is_removed(
                    self.despawn_dist_squared(),
                    player_pos@,
                    bb.0@,
                    lasers@[i].1.pos@,
                    lasers@[i].0.len as int,
                    lasers@[i].1.velocity@,
                ),
    {
        let player_radius: i64 = bb.dist();
        // The player's actual bounding box as a `Rect`.
        let player_rect = Rect::from_bounding_box(player_pos, bb);
        let mut removed: Vec<bool> = Vec::new();
        let n: usize = lasers.len();
        let mut i: usize = 0;
        while i < n
            invariant
                i <= n,
                n == lasers@.len(),
                removed@.len() == i,
                player_radius == bb.0@.length(),
                0 <= player_radius <= 0x1_0000_0000,
                player_rect@ == rect_around(player_pos@, bb.0@),
                forall|j: int|
                    0 <= j < i ==> #[trigger] removed@[j] == laser_is_removed(
                        self.despawn_dist_squared(),
                        player_pos@,
                        bb.0@,
                        lasers@[j].1.pos@,
                        lasers@[j].0.len as int,
                        lasers@[j].1.velocity@,
                    ),
            decreases n - i,
        {
            let gone = self.decide(player_pos, player_radius, player_rect, &lasers[i].0, &lasers[i].1);
            removed.push(gone);
            i = i + 1;
        }
        removed
    }
}

} // verus!
