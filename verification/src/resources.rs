//! State that is shared by all systems.

pub mod time_scale;

pub use time_scale::TimeScale;
