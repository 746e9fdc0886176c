//! What an entity of the simulation can carry.

pub mod bounding_box;
pub mod laser;
pub mod player;
pub mod relative_locomotor;
pub mod velocity;

pub use bounding_box::BoundingBox;
pub use laser::Laser;
pub use player::Player;
pub use relative_locomotor::RelativeLocomotor;
