//! Dense vectors and matrices over a generic scalar type, with a pivoted LU
//! decomposition and the determinant computed from it.
//!
//! Every operation is stated over the mathematical meaning that the scalar
//! type gives to its arithmetic (see [`scalar::Scalar`]); the algebraic laws
//! of the matrix operations are proved for scalar types whose arithmetic is
//! exact (see [`scalar::ExactScalar`] and the module [`laws`]).
use vstd::prelude::*;

pub mod scalar;
pub mod integer;
pub mod error;
pub mod algebra;
pub mod vector;
pub mod matrix;
pub mod pivoting;
pub mod decomposition;
pub mod laws;

pub use crate::decomposition::LUPDecomposed;
pub use crate::error::LinalgError;
pub use crate::matrix::Matrix;
pub use crate::scalar::{ExactScalar, Scalar};
pub use crate::vector::Vector;
