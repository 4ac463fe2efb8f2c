//! Homogeneous-coordinate geometric primitives for a ray tracer: a
//! tolerance-compared scalar, 4-component tuples discriminated by their
//! last component, points, vectors, matrices, and a pixel canvas that
//! serializes to a plain-text image.

mod fp;
mod sqrt;
pub mod text;

pub mod canvas;
pub mod color;
pub mod float;
pub mod matrix;
pub mod point;
pub mod tuple;
pub mod vector;

pub use crate::canvas::Canvas;
pub use crate::color::Color;
pub use crate::color::Color255;
pub use crate::float::Float;
pub use crate::matrix::Matrix;
pub use crate::point::Point;
pub use crate::tuple::Tuple;
pub use crate::vector::Vector;
