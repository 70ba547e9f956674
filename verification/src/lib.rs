//! A dense, row-major matrix over any element type that can be copied and
//! combined with `+`, `-` and `*`, with contracts stated over a mathematical
//! model of the matrix.

pub mod arith;
pub mod equality;
pub mod error;
pub mod grid;
pub mod integers;
pub mod laws;
pub mod matrix;
pub mod ops;
pub mod series;
pub mod text;

pub use error::MatrixError;
pub use grid::Grid;
pub use matrix::Matrix;
