//! Spawns the lasers: every so many ticks one appears at a given distance
//! from the player, in a direction that the caller draws at random, and
//! flies toward the place where the player was at that moment.

use vstd::prelude::*;
use crate::components::{Laser, RelativeLocomotor};
use crate::fixed::{lemma_scale_product_odd, mul_storage, scale_product};
use crate::vector::{in_storage, Coords, Point2, StorageTy, Vec2};

verus! {

/// The length of every laser: 32.
pub const LASER_LENGTH: StorageTy = 2097152;

/// The speed of every laser: 100 per second.
pub const LASER_SPEED: StorageTy = 6553600;

/// What can be configured of the spawning of lasers.
#[derive(Clone, Copy, Debug, PartialEq, Eq, Structural)]
pub struct LaserSpawnerConfig {
    /// The number of ticks that pass between two lasers.
    pub spawn_rate: u32,
    /// The distance from the player at which a laser appears.
    pub spawn_dist: StorageTy,
}

/// Where a laser appears: `spawn_dist` away from the player along
/// `direction`, a vector of length one.
pub open spec fn spawn_pos(spawn_dist: int, player_pos: Coords, direction: Coords) -> Coords {
    Coords {
        x: player_pos.x + scale_product(spawn_dist, direction.x),
        y: player_pos.y + scale_product(spawn_dist, direction.y),
    }
}

/// How a new laser moves: against `direction`, and so toward the player,
/// at the speed of all lasers.
pub open spec fn spawn_velocity(direction: Coords) -> Coords {
    Coords {
        x: scale_product(-direction.x, LASER_SPEED as int),
        y: scale_product(-direction.y, LASER_SPEED as int),
    }
}

/// The position and the velocity of the new laser can be stored.
pub open spec fn can_spawn(spawn_dist: int, player_pos: Coords, direction: Coords) -> bool {
    let pos = spawn_pos(spawn_dist, player_pos, direction);
    let velocity = spawn_velocity(direction);
    &&& in_storage(pos.x)
    &&& in_storage(pos.y)
    &&& in_storage(velocity.x)
    &&& in_storage(velocity.y)
}

/// The laser that appears for a player at `player_pos`, in the direction
/// and the color that were drawn.
pub open spec fn spawned(
    spawn_dist: int,
    player_pos: Coords,
    direction: Coords,
    color: (StorageTy, StorageTy, StorageTy),
) -> (Laser, RelativeLocomotor) {
    let pos = spawn_pos(spawn_dist, player_pos, direction);
    let velocity = spawn_velocity(direction);
    let at = Point2 { x: pos.x as StorageTy, y: pos.y as StorageTy };
    (
        Laser { color, len: LASER_LENGTH },
        RelativeLocomotor {
            old_pos: at,
            pos: at,
            velocity: Vec2 { x: velocity.x as StorageTy, y: velocity.y as StorageTy },
        },
    )
}

/// Counts the ticks and spawns a laser whenever one is due.
pub struct LaserSpawnerSystem {
    counter: u32,
    config: LaserSpawnerConfig,
}

impl LaserSpawnerSystem {
    /// The counter never passes the spawn rate: the tick on which it would
    /// sets it back to zero.
    #[verifier::type_invariant]
    spec fn counter_in_range(self) -> bool {
        self.counter <= self.config.spawn_rate
    }

    /// The number of ticks since the last laser.
    pub closed spec fn counter(self) -> int {
        self.counter as int
    }

    /// The configuration that the system was built with.
    pub closed spec fn config(self) -> LaserSpawnerConfig {
        self.config
    }

    /// The next tick brings a laser.
    pub open spec fn is_due(self) -> bool {
        self.counter() + 1 > self.config().spawn_rate
    }

    /// Builds a `LaserSpawnerSystem` with the provided `LaserSpawnerConfig`.
    pub fn from_config(config: LaserSpawnerConfig) -> (system: Self)
        ensures
            system.counter() == 0,
            system.config() == config,
    {
        LaserSpawnerSystem { counter: 0, config }
    }

    /// Counts one tick, and says whether it brings a laser. The tick that
    /// does sets the counter back to zero.
    pub fn tick(&mut self) -> (due: bool)
        ensures
            due == old(self).is_due(),
            final(self).config() == old(self).config(),
            final(self).counter() == if due {
                0
            } else {
                old(self).counter() + 1
            },
            final(self).counter() <= final(self).config().spawn_rate,
    {
        proof {
            use_type_invariant(&*self);
        }
        if self.counter >= self.config.spawn_rate {
            self.counter = 0;
            true
        } else {
            self.counter = self.counter + 1;
            false
        }
    }

    /// Position and velocity of the new laser, before they are stored.
    fn place(&self, player_pos: Point2, direction: Vec2) -> (to: (i64, i64, i64, i64))
        ensures
            to.0 == spawn_pos(self.config().spawn_dist as int, player_pos@, direction@).x,
            to.1 == spawn_pos(self.config().spawn_dist as int, player_pos@, direction@).y,
            to.2 == spawn_velocity(direction@).x,
            to.3 == spawn_velocity(direction@).y,
    {
        // Scale the direction by the desired distance from the player, then
        // add the scaled vector to the player's position.
        let x: i64 = player_pos.x as i64 + mul_storage(self.config.spawn_dist, direction.x);
        let y: i64 = player_pos.y as i64 + mul_storage(self.config.spawn_dist, direction.y);
        // Point the laser at the player.
        proof {
            lemma_scale_product_odd(direction.x as int, LASER_SPEED as int);
            lemma_scale_product_odd(direction.y as int, LASER_SPEED as int);
        }
        let vx: i64 = -mul_storage(direction.x, LASER_SPEED);
        let vy: i64 = -mul_storage(direction.y, LASER_SPEED);
        (x, y, vx, vy)
    }

    /// The laser for a player at `player_pos`, where it can be stored.
    pub fn try_spawn(
        &self,
        player_pos: Point2,
        direction: Vec2,
        color: (StorageTy, StorageTy, StorageTy),
    ) -> (laser: Option<(Laser, RelativeLocomotor)>)
        ensures
            laser.is_some() == can_spawn(self.config().spawn_dist as int, player_pos@, direction@),
            laser matches Some(l) ==> l == spawned(
                self.config().spawn_dist as int,
                player_pos@,
                direction@,
                color,
            ),
    {
        let (x, y, vx, vy) = self.place(player_pos, direction);
        if Self::storable(x) && Self::storable(y) && Self::storable(vx) && Self::storable(vy) {
            Some(self.spawn(player_pos, direction, color))
        } else {
            None
        }
    }

    /// The laser for a player at `player_pos`: `direction` leads from the
    /// player to the place where the laser appears, and the laser flies the
    /// opposite way.
    pub fn spawn(
        &self,
        player_pos: Point2,
        direction: Vec2,
        color: (StorageTy, StorageTy, StorageTy),
    ) -> (laser: (Laser, RelativeLocomotor))
        requires
            can_spawn(self.config().spawn_dist as int, player_pos@, direction@),
        ensures
            laser == spawned(self.config().spawn_dist as int, player_pos@, direction@, color),
    {
        let (x, y, vx, vy) = self.place(player_pos, direction);
        let laser_pos = Point2 { x: x as StorageTy, y: y as StorageTy };
        let laser_velocity = Vec2 { x: vx as StorageTy, y: vy as StorageTy };
        (
            Laser { color, len: LASER_LENGTH },
            RelativeLocomotor::with_velocity(laser_pos, laser_velocity),
        )
    }

    /// One tick: counts it and, where a laser is due, hands out the laser
    /// for the direction and the color that were drawn.
    pub fn run(
        &mut self,
        player_pos: Point2,
        direction: Vec2,
        color: (StorageTy, StorageTy, StorageTy),
    ) -> (laser: Option<(Laser, RelativeLocomotor)>)
        requires
            old(self).is_due() ==> can_spawn(
                old(self).config().spawn_dist as int,
                player_pos@,
                direction@,
            ),
        ensures
            final(self).config() == old(self).config(),
            final(self).counter() == if old(self).is_due() {
                0
            } else {
                old(self).counter() + 1
            },
            laser == if old(self).is_due() {
                Some(spawned(old(self).config().spawn_dist as int, player_pos@, direction@, color))
            } else {
                None
            },
    {
        if self.tick() {
            Some(self.spawn(player_pos, direction, color))
        } else {
            None
        }
    }

    fn storable(v: i64) -> (fits: bool)
        ensures
            fits == in_storage(v as int),
    {
        -0x8000_0000 <= v && v <= 0x7FFF_FFFF
    }
}

} // verus!
