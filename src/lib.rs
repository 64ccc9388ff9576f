//! Parametrized points and shapes described as composable functions.
//!
//! A point function maps a parameter (or a nested tuple of parameters) to a
//! point; shapes are built from such functions with arithmetic, lifting and
//! reparametrisation.  The scalar type is generic: the contracts speak of the
//! specifications that vstd gives to `+`, `-`, `*`, `/`, and are exact where
//! the scalar type follows them (the machine integers).

pub mod laws;
pub mod math;
pub mod ops;
pub mod point;

pub use ops::{Cross, Dot, MapInput, Norm, AABB};
pub use point::Point;
