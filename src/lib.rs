//! Fixed-size numeric vectors of two and three components over a scalar type.
pub mod scalar;
pub mod vector;

pub use scalar::{Scalar, SignedScalar};
pub use vector::{Vec2D, Vec3D};
