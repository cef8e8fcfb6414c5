//! Screen-capture pixel pipeline: converting raw BGRA frames to tightly
//! packed RGBA buffers, cropping a selected rectangle out of them, and the
//! state machine that drives a drag-to-select capture session.

pub mod capture;
pub mod convert;
pub mod crop;
pub mod error;
pub mod events;
pub mod geometry;
pub mod output;

pub use geometry::Point;
pub use geometry::Rect;
