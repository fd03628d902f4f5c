//! Debug visualisation of navigation meshes as ordered streams of drawing calls.

pub mod draw;
pub mod obj_loader;
pub mod poly_mesh;
pub mod scalar;
pub mod text;
pub mod tri_mesh;

pub use scalar::{Axis, Scalar, Vec3};
