use crate::error::MatrixError;
use crate::grid::Grid;
use crate::matrix::Matrix;
use core::ops::{Add, Mul, Sub};
use vstd::arithmetic::div_mod::lemma_fundamental_div_mod_converse;
use vstd::prelude::*;
use vstd::std_specs::ops::{AddSpec, MulSpec, SubSpec};

verus! {

/// The error that names the shapes of two operands that do not fit.
pub open spec fn shape_mismatch<T>(lhs: Grid<T>, rhs: Grid<T>) -> MatrixError {
    MatrixError::ShapeMismatch {
        lhs_rows: lhs.rows as usize,
        lhs_cols: lhs.cols as usize,
        rhs_rows: rhs.rows as usize,
        rhs_cols: rhs.cols as usize,
    }
}

/// Position `(r, c)` of a grid with `rows` rows and `cols` columns lies at an
/// index below `rows * cols`, from which row and column can be read back.
pub proof fn lemma_position(rows: int, cols: int, r: int, c: int)
    requires
        0 <= r < rows,
        0 <= c < cols,
    ensures
        0 <= r * cols + c < rows * cols,
        (r * cols + c) / cols == r,
        (r * cols + c) % cols == c,
{
    assert(0 <= r * cols && r * cols + cols <= rows * cols) by (nonlinear_arith)
        requires
            0 <= r < rows,
            0 < cols,
    ;
    lemma_fundamental_div_mod_converse(r * cols + c, cols, r, c);
}

impl<T: Add<Output = T> + Copy> Matrix<T> {
    /// The elementwise sum of two matrices of one shape.
    pub fn plus(&self, rhs: &Matrix<T>) -> (out: Matrix<T>)
        requires
            self@.can_add(rhs@),
        ensures
            out@.well_formed(),
            out@.same_shape(self@),
            T::obeys_add_spec() ==> out@ == self@.sum(rhs@),
    {
        let (row, col) = self.size();
        let a = self.data();
        let b = rhs.data();
        let mut cells: Vec<T> = Vec::new();
        let mut i: usize = 0;
        while i < a.len()
            invariant
                i <= a.len(),
                a.len() == b.len(),
                a@ == self@.cells,
                b@ == rhs@.cells,
                self@.sum_defined(rhs@),
                cells@.len() == i,
                T::obeys_add_spec() ==> forall|j: int|
                    0 <= j < i ==> cells@[j] == #[trigger] a@[j].add_spec(b@[j]),
            decreases a.len() - i,
        {
            cells.push(a[i] + b[i]);
            i += 1;
        }
        let out = Matrix::from_vec(row, col, cells);
        proof {
            if T::obeys_add_spec() {
                assert(out@.cells =~= self@.sum(rhs@).cells);
            }
        }
        out
    }

    /// The elementwise sum, or the reason why there is none.
    pub fn try_add(&self, rhs: &Matrix<T>) -> (res: Result<Matrix<T>, MatrixError>)
        requires
            self@.well_formed(),
            rhs@.well_formed(),
            self@.same_shape(rhs@) ==> self@.sum_defined(rhs@),
        ensures
            match res {
                Ok(out) => {
                    &&& self@.same_shape(rhs@)
                    &&& out@.well_formed()
                    &&& out@.same_shape(self@)
                    &&& T::obeys_add_spec() ==> out@ == self@.sum(rhs@)
                },
                Err(e) => {
                    &&& !self@.same_shape(rhs@)
                    &&& e == shape_mismatch(self@, rhs@)
                },
            },
    {
        let (lhs_rows, lhs_cols) = self.size();
        let (rhs_rows, rhs_cols) = rhs.size();
        if lhs_rows != rhs_rows || lhs_cols != rhs_cols {
            Err(MatrixError::ShapeMismatch { lhs_rows, lhs_cols, rhs_rows, rhs_cols })
        } else {
            Ok(self.plus(rhs))
        }
    }
}

impl<T: Sub<Output = T> + Copy> Matrix<T> {
    /// The elementwise difference of two matrices of one shape.
    pub fn minus(&self, rhs: &Matrix<T>) -> (out: Matrix<T>)
        requires
            self@.can_sub(rhs@),
        ensures
            out@.well_formed(),
            out@.same_shape(self@),
            T::obeys_sub_spec() ==> out@ == self@.difference(rhs@),
    {
        let (row, col) = self.size();
        let a = self.data();
        let b = rhs.data();
        let mut cells: Vec<T> = Vec::new();
        let mut i: usize = 0;
        while i < a.len()
            invariant
                i <= a.len(),
                a.len() == b.len(),
                a@ == self@.cells,
                b@ == rhs@.cells,
                self@.difference_defined(rhs@),
                cells@.len() == i,
                T::obeys_sub_spec() ==> forall|j: int|
                    0 <= j < i ==> cells@[j] == #[trigger] a@[j].sub_spec(b@[j]),
            decreases a.len() - i,
        {
            cells.push(a[i] - b[i]);
            i += 1;
        }
        let out = Matrix::from_vec(row, col, cells);
        proof {
            if T::obeys_sub_spec() {
                assert(out@.cells =~= self@.difference(rhs@).cells);
            }
        }
        out
    }

    /// The elementwise difference, or the reason why there is none.
    pub fn try_sub(&self, rhs: &Matrix<T>) -> (res: Result<Matrix<T>, MatrixError>)
        requires
            self@.well_formed(),
            rhs@.well_formed(),
            self@.same_shape(rhs@) ==> self@.difference_defined(rhs@),
        ensures
            match res {
                Ok(out) => {
                    &&& self@.same_shape(rhs@)
                    &&& out@.well_formed()
                    &&& out@.same_shape(self@)
                    &&& T::obeys_sub_spec() ==> out@ == self@.difference(rhs@)
                },
                Err(e) => {
                    &&& !self@.same_shape(rhs@)
                    &&& e == shape_mismatch(self@, rhs@)
                },
            },
    {
        let (lhs_rows, lhs_cols) = self.size();
        let (rhs_rows, rhs_cols) = rhs.size();
        if lhs_rows != rhs_rows || lhs_cols != rhs_cols {
            Err(MatrixError::ShapeMismatch { lhs_rows, lhs_cols, rhs_rows, rhs_cols })
        } else {
            Ok(self.minus(rhs))
        }
    }
}

impl<T: Add<Output = T> + Mul<Output = T> + Copy> Matrix<T> {
    /// The dot product of row `r` of `self` and column `c` of `rhs`, its terms
    /// added from left to right.
    fn dot_product(&self, rhs: &Matrix<T>, r: usize, c: usize) -> (sum: T)
        requires
            self@.well_formed(),
            rhs@.well_formed(),
            self@.cols == rhs@.rows,
            T::obeys_add_spec(),
            T::obeys_mul_spec(),
            r < self@.rows,
            c < rhs@.cols,
            0 < self@.cols,
            self@.dot_defined(rhs@, r as int, c as int, self@.cols),
        ensures
            sum == self@.dot(rhs@, r as int, c as int, self@.cols),
    {
        let (_, n) = self.size();
        let (_, p) = rhs.size();
        let a = self.data();
        let b = rhs.data();
        proof {
            lemma_position(self@.rows as int, n as int, r as int, 0);
            lemma_position(n as int, p as int, 0, c as int);
            lemma_dot_defined_prefix(self@, rhs@, r as int, c as int, n as nat, 1);
            assert(a@.len() == self@.rows * n == a.len());
            assert(b@.len() == n * p == b.len());
        }
        let mut sum: T = a[r * n] * b[c];
        let mut k: usize = 1;
        while k < n
            invariant
                1 <= k <= n,
                n == self@.cols,
                p == rhs@.cols,
                self@.cols == rhs@.rows,
                self@.well_formed(),
                rhs@.well_formed(),
                a@ == self@.cells,
                b@ == rhs@.cells,
                r < self@.rows,
                c < rhs@.cols,
                T::obeys_add_spec(),
                T::obeys_mul_spec(),
                self@.dot_defined(rhs@, r as int, c as int, n as nat),
                sum == self@.dot(rhs@, r as int, c as int, k as nat),
            decreases n - k,
        {
            proof {
                lemma_position(self@.rows as int, n as int, r as int, k as int);
                lemma_position(n as int, p as int, k as int, c as int);
                lemma_dot_defined_prefix(self@, rhs@, r as int, c as int, n as nat, (k + 1) as nat);
                assert(a@.len() == self@.rows * n == a.len());
                assert(b@.len() == n * p == b.len());
            }
            sum = sum + a[r * n + k] * b[k * p + c];
            k += 1;
        }
        sum
    }

    /// The matrix product of two matrices whose shapes fit.
    pub fn times(&self, rhs: &Matrix<T>) -> (out: Matrix<T>)
        requires
            self@.can_mul(rhs@),
        ensures
            out@.well_formed(),
            out@.rows == self@.rows,
            out@.cols == rhs@.cols,
            out@ == self@.product(rhs@),
    {
        let (m, _) = self.size();
        let (_, p) = rhs.size();
        let mut cells: Vec<T> = Vec::new();
        let mut r: usize = 0;
        while r < m
            invariant
                r <= m,
                m == self@.rows,
                p == rhs@.cols,
                self@.well_formed(),
                rhs@.well_formed(),
                self@.product_shaped(rhs@),
                T::obeys_add_spec(),
                T::obeys_mul_spec(),
                self@.product_defined(rhs@),
                cells@.len() == r * p,
                forall|i: int|
                    0 <= i < cells@.len() ==> cells@[i] == #[trigger] self@.product(rhs@).cells[i],
            decreases m - r,
        {
            let mut c: usize = 0;
            while c < p
                invariant
                    r < m,
                    c <= p,
                    m == self@.rows,
                    p == rhs@.cols,
                    self@.well_formed(),
                    rhs@.well_formed(),
                    self@.product_shaped(rhs@),
                    T::obeys_add_spec(),
                    T::obeys_mul_spec(),
                    self@.product_defined(rhs@),
                    cells@.len() == r * p + c,
                    forall|i: int|
                        0 <= i < cells@.len() ==> cells@[i] == #[trigger] self@.product(
                            rhs@,
                        ).cells[i],
                decreases p - c,
            {
                proof {
                    lemma_position(m as int, p as int, r as int, c as int);
                    assert(self@.dot_defined(rhs@, r as int, c as int, self@.cols));
                }
                let sum = self.dot_product(rhs, r, c);
                cells.push(sum);
                c += 1;
            }
            assert((r + 1) * p == r * p + p) by (nonlinear_arith);
            r += 1;
        }
        let out = Matrix::from_vec(m, p, cells);
        assert(out@.cells =~= self@.product(rhs@).cells);
        out
    }

    /// The matrix product, or the reason why there is none.
    pub fn try_mul(&self, rhs: &Matrix<T>) -> (res: Result<Matrix<T>, MatrixError>)
        requires
            self@.well_formed(),
            rhs@.well_formed(),
            T::obeys_add_spec(),
            T::obeys_mul_spec(),
            self@.cols == rhs@.rows ==> self@.product_shaped(rhs@) && self@.product_defined(rhs@),
        ensures
            match res {
                Ok(out) => {
                    &&& self@.cols == rhs@.rows
                    &&& out@.well_formed()
                    &&& out@.rows == self@.rows
                    &&& out@.cols == rhs@.cols
                    &&& out@ == self@.product(rhs@)
                },
                Err(e) => {
                    &&& self@.cols != rhs@.rows
                    &&& e == shape_mismatch(self@, rhs@)
                },
            },
    {
        let (lhs_rows, lhs_cols) = self.size();
        let (rhs_rows, rhs_cols) = rhs.size();
        if lhs_cols != rhs_rows {
            Err(MatrixError::ShapeMismatch { lhs_rows, lhs_cols, rhs_rows, rhs_cols })
        } else {
            Ok(self.times(rhs))
        }
    }
}

/// Where a dot product of `n` terms can be computed, so can each of its
/// prefixes.
pub proof fn lemma_dot_defined_prefix<T: Add<Output = T> + Mul<Output = T>>(
    a: Grid<T>,
    b: Grid<T>,
    r: int,
    c: int,
    n: nat,
    k: nat,
)
    requires
        a.dot_defined(b, r, c, n),
        k <= n,
    ensures
        a.dot_defined(b, r, c, k),
    decreases n,
{
    if k < n {
        lemma_dot_defined_prefix(a, b, r, c, (n - 1) as nat, k);
    }
}

} // verus!
