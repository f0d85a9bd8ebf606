//! Two-component vectors.
pub mod laws;
pub mod ops;
pub mod vec2i;

pub use vec2i::Vec2i;
