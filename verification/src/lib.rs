//! 4x4 matrices for homogeneous-coordinate transformations, generic over the
//! scalar type of their entries.
//!
//! Every operation is a pure function of its arguments and is stated exactly
//! over the scalar's own arithmetic, so the contracts hold for any scalar
//! that implements [`Scalar`].
//!
//! - [`scalar`]: what a matrix entry has to offer, and the laws an exact
//!   scalar obeys.
//! - [`matrix`]: the matrix type, its constructors and its operations.
//! - [`integer`]: `i64` as an exact scalar with wrapping arithmetic.
//! - [`laws`]: what is proved of the operations as a whole.

pub mod scalar;
pub mod matrix;
pub mod integer;
pub mod laws;

pub use matrix::{identity, ortho, Matrix4};
pub use scalar::{DivScalar, ReflexiveEq, Ring, Scalar};
