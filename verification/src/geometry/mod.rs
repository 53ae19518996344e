//! The shapes and what can be done with them.
pub mod angle;
pub mod arc;
pub mod base;
pub mod delta;
pub mod error;
pub mod intersects;
pub mod line;
pub mod offset;
pub mod point;
pub mod poly;
pub mod stitch;

pub use angle::{Angle, AngleDiff, Angular, Direction};
pub use base::Value;
pub use delta::Delta;
pub use intersects::Intersects;
pub use offset::Offset;
pub use point::Point;
