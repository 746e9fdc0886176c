//! The systems that advance the simulation, one tick at a time.

pub mod laser_collision;
pub mod laser_spawner;
pub mod player;
pub mod relative_motion;
pub mod time_scaling;

pub use laser_collision::LaserCollisionSystem;
pub use laser_spawner::LaserSpawnerSystem;
pub use player::PlayerSystem;
pub use relative_motion::RelativeMotionSystem;
pub use time_scaling::TimeScalingSystem;
