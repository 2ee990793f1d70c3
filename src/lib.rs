//! Vectors, points, square matrices, Bézier control polygons and quaternions
//! as fixed-size containers over any element type, with bounds-checked
//! matrix access whose behaviour is proved against a row-major grid model.

pub mod bezier;
pub mod matrix;
pub mod point;
pub mod quaternion;
pub mod utilities;
pub mod vector;

pub use bezier::{Bezier2, Bezier3};
pub use matrix::{Mat2, Mat3, Mat4};
pub use point::{Point2, Point3};
pub use quaternion::Quat;
pub use utilities::{fac, factorial};
pub use vector::{Vec2, Vec3, Vec4};
