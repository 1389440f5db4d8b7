use vstd::prelude::*;

verus! {

/// The ways in which an operation of this library can refuse its input.
#[derive(Debug, Clone, Copy, PartialEq, Eq, Structural)]
pub enum MathError {
    /// A vector of zero length was asked to be normalized.
    DivisionByZero,
    /// A matrix whose determinant is zero was asked for its inverse.
    NotInvertible,
    /// A row or column index lies outside the matrix.
    IndexOutOfRange,
}

} // verus!
