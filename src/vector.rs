//! Generic vector types.
pub mod vec2d;
pub mod vec3d;

pub use vec2d::Vec2D;
pub use vec3d::Vec3D;
