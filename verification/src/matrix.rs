use crate::error::MatrixError;
use crate::grid::Grid;
use vstd::prelude::*;

verus! {

/// A dense matrix that owns its elements.
#[derive(Debug)]
pub struct Matrix<T> {
    /// The elements in row-major order.
    data: Vec<T>,
    /// Number of rows.
    row: usize,
    /// Number of columns.
    col: usize,
}

impl<T> View for Matrix<T> {
    type V = Grid<T>;

    closed spec fn view(&self) -> Grid<T> {
        Grid { rows: self.row as nat, cols: self.col as nat, cells: self.data@ }
    }
}

impl<T: Copy> Matrix<T> {
    /// A matrix of `row` rows and `col` columns that holds a copy of `values`,
    /// taken in row-major order. The length of `values` is not examined: the
    /// matrix is well formed exactly if it is `row * col`.
    pub fn new(row: usize, col: usize, values: &[T]) -> (m: Matrix<T>)
        ensures
            m@ == (Grid { rows: row as nat, cols: col as nat, cells: values@ }),
    {
        let mut data: Vec<T> = Vec::new();
        let mut i: usize = 0;
        while i < values.len()
            invariant
                i <= values.len(),
                data@ == values@.take(i as int),
            decreases values.len() - i,
        {
            data.push(values[i]);
            i += 1;
        }
        assert(data@ =~= values@);
        Matrix { data, row, col }
    }

    /// As `new`, but refuses a slice whose length is not `row * col`.
    pub fn try_new(row: usize, col: usize, values: &[T]) -> (res: Result<Matrix<T>, MatrixError>)
        ensures
            match res {
                Ok(m) => {
                    &&& values@.len() == row * col
                    &&& m@ == (Grid { rows: row as nat, cols: col as nat, cells: values@ })
                },
                Err(e) => {
                    &&& values@.len() != row * col
                    &&& e == (MatrixError::MalformedConstruction {
                        rows: row,
                        cols: col,
                        len: values.len(),
                    })
                },
            },
    {
        let len: usize = values.len();
        match row.checked_mul(col) {
            Some(expected) if expected == len => Ok(Matrix::new(row, col, values)),
            _ => Err(MatrixError::MalformedConstruction { rows: row, cols: col, len }),
        }
    }
}

impl<T> Matrix<T> {
    /// A matrix of the given shape that owns `data`.
    pub(crate) fn from_vec(row: usize, col: usize, data: Vec<T>) -> (m: Matrix<T>)
        ensures
            m@ == (Grid { rows: row as nat, cols: col as nat, cells: data@ }),
    {
        Matrix { data, row, col }
    }

    /// A matrix of the given shape that holds no element yet.
    pub fn new_empty(row: usize, col: usize) -> (m: Matrix<T>)
        ensures
            m@ == (Grid { rows: row as nat, cols: col as nat, cells: Seq::<T>::empty() }),
    {
        Matrix { data: Vec::new(), row, col }
    }

    /// The elements, in row-major order.
    pub fn data(&self) -> (d: &Vec<T>)
        ensures
            d@ == self@.cells,
    {
        &self.data
    }

    /// The elements, for editing in place. The shape stays as it is, whatever
    /// the caller does to the elements.
    pub fn mut_data(&mut self) -> (d: &mut Vec<T>)
        ensures
            d@ == old(self)@.cells,
            final(self)@ == (Grid {
                rows: old(self)@.rows,
                cols: old(self)@.cols,
                cells: final(d)@,
            }),
    {
        &mut self.data
    }

    /// The number of rows and the number of columns.
    pub fn size(&self) -> (s: (usize, usize))
        ensures
            s.0 == self@.rows,
            s.1 == self@.cols,
    {
        (self.row, self.col)
    }
}

} // verus!
