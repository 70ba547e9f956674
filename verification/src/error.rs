use vstd::prelude::*;

verus! {

/// Why a matrix could not be built or two matrices could not be combined.
#[derive(Debug, Clone, Copy, PartialEq, Eq, Structural)]
pub enum MatrixError {
    /// The shapes of the two operands do not fit the operation: for a sum or a
    /// difference they differ, for a product the left operand's column count
    /// is not the right operand's row count.
    ShapeMismatch { lhs_rows: usize, lhs_cols: usize, rhs_rows: usize, rhs_cols: usize },
    /// The number of elements handed to a constructor is not `rows * cols`.
    MalformedConstruction { rows: usize, cols: usize, len: usize },
}

} // verus!
