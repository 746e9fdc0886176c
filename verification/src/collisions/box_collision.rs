//! The rectangle type and the collision tests that take it, under one name.

pub use super::line_intersects_line;
pub use super::line_intersects_rect;
pub use super::BoundingBox;
pub use super::Rect;
