//! The properties of the player.

use vstd::prelude::*;
use crate::collisions::BoundingBox;
use crate::fixed::{div_toward_zero, trunc_div};
use crate::vector::{Point2, StorageTy, Vec2};

verus! {

/// The configurable properties of a player, all of them related to physics.
#[derive(Clone, Copy, Debug, PartialEq, Eq, Structural)]
pub struct PlayerConfig {
    /// The speed that the player never exceeds.
    pub max_speed: StorageTy,
    /// The speed gained per second while input is given.
    pub acceleration: StorageTy,
    /// The share of the velocity lost per second.
    pub deceleration: StorageTy,
}

impl PlayerConfig {
    /// None of the three properties is negative.
    pub open spec fn wf(self) -> bool {
        &&& self.max_speed >= 0
        &&& self.acceleration >= 0
        &&& self.deceleration >= 0
    }

    /// Whether the configuration is one that a player can have.
    pub fn is_wf(&self) -> (valid: bool)
        ensures
            valid == self.wf(),
    {
        self.max_speed >= 0 && self.acceleration >= 0 && self.deceleration >= 0
    }
}

/// The player: exactly one entity carries this component.
#[derive(Clone, Copy, Debug, PartialEq, Eq, Structural)]
pub struct Player {
    pub config: PlayerConfig,
}

/// How far the player's box reaches from its middle, along each axis: 4.
pub const PLAYER_HALF_EXTENT: StorageTy = 262144;

impl Player {
    /// The player with the provided `PlayerConfig`.
    pub fn from_config(config: PlayerConfig) -> (player: Self)
        ensures
            player.config == config,
    {
        Player { config }
    }

    /// The bounding box that the player is given when it is created.
    pub fn bounding_box() -> (bb: BoundingBox)
        ensures
            bb == BoundingBox(Vec2 { x: PLAYER_HALF_EXTENT, y: PLAYER_HALF_EXTENT }),
            bb.wf(),
    {
        BoundingBox(Vec2 { x: PLAYER_HALF_EXTENT, y: PLAYER_HALF_EXTENT })
    }

    /// Where the player starts: in the middle of a world that is `width`
    /// wide and `height` high.
    pub fn origin(width: StorageTy, height: StorageTy) -> (pos: Point2)
        ensures
            pos.x == trunc_div(width as int, 2),
            pos.y == trunc_div(height as int, 2),
    {
        let x: i128 = div_toward_zero(width as i128, 2);
        let y: i128 = div_toward_zero(height as i128, 2);
        Point2 { x: x as StorageTy, y: y as StorageTy }
    }
}

} // verus!
