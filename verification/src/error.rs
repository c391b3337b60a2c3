//! The ways in which an operation can refuse its operands.
use vstd::prelude::*;

verus! {

/// Why an operation refused its operands.
#[derive(Debug, Clone, Copy, PartialEq, Eq, Structural)]
pub enum LinalgError {
    /// Two vectors of different dimension were combined entry by entry.
    DimensionMismatch,
    /// A cross product was asked of vectors that are not both of dimension
    /// two, or both of dimension three.
    InvalidDimension,
    /// Two matrices do not have the shapes that the operation needs.
    ShapeMismatch,
    /// A row or a column was asked for that the matrix does not have.
    IndexOutOfBounds,
    /// The rows given to build a matrix from are not a rectangle with at least
    /// one row and at least one column.
    RaggedMatrix,
}

} // verus!
