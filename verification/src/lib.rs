//! A small three-dimensional vector type over IEEE-754 binary64 scalars.
//!
//! Each component is carried as the 64-bit pattern of a binary64 value
//! (see [`scalar`]), so that equality, zero tests and the division-by-zero
//! rule are plain bit-level logic and are verified, while the rounding
//! arithmetic itself is performed by software IEEE-754 implementations
//! behind a few trusted wrappers.

pub mod scalar;
pub mod vector;

pub use vector::DivisionByZero;
pub use vector::Vec3;
