//! A 4x4 homogeneous matrix library for 2D/3D affine and projective
//! transforms, with verified construction, algebra and array conversion.

pub mod matrix;

pub use matrix::Matrix4;
