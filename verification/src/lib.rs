//! A spatial priority channel: pending tasks are keyed by a coordinate and
//! handed out nearest-first relative to a shared, movable focus.

pub mod channel;
pub mod focus;
pub mod queue;
pub mod space;
pub mod state;
pub mod status;

pub use channel::SpatialChannel;
pub use space::{CoordSpace, Manhattan, ZeroCoord};
