use core::ops::{Add, Mul, Sub};
use vstd::prelude::*;
use vstd::std_specs::ops::{AddSpec, MulSpec, SubSpec};

verus! {

/// The mathematical value of a matrix: its shape and its elements in
/// row-major order.
pub struct Grid<T> {
    pub rows: nat,
    pub cols: nat,
    pub cells: Seq<T>,
}

impl<T> Grid<T> {
    /// There is exactly one element for each position.
    pub open spec fn well_formed(self) -> bool {
        self.cells.len() == self.rows * self.cols
    }

    /// Both grids have the same number of rows and of columns.
    pub open spec fn same_shape(self, other: Grid<T>) -> bool {
        self.rows == other.rows && self.cols == other.cols
    }

    /// The element in row `r` and column `c`.
    pub open spec fn at(self, r: int, c: int) -> T {
        self.cells[r * self.cols + c]
    }

    /// The square grid of `n` rows that holds `one` on its diagonal and
    /// `zero` elsewhere.
    pub open spec fn identity(n: nat, zero: T, one: T) -> Grid<T> {
        Grid {
            rows: n,
            cols: n,
            cells: Seq::new(
                n * n,
                |i: int|
                    if i / (n as int) == i % (n as int) {
                        one
                    } else {
                        zero
                    },
            ),
        }
    }
}

impl<T: Add<Output = T>> Grid<T> {
    /// Every pair of corresponding elements can be added.
    pub open spec fn sum_defined(self, other: Grid<T>) -> bool {
        forall|i: int|
            0 <= i < self.cells.len() ==> #[trigger] self.cells[i].add_req(other.cells[i])
    }

    /// What a caller owes before adding `other` to `self`: both are well
    /// formed and of one shape, and no addition of elements fails.
    pub open spec fn can_add(self, other: Grid<T>) -> bool {
        &&& self.well_formed()
        &&& other.well_formed()
        &&& self.same_shape(other)
        &&& self.sum_defined(other)
    }

    /// The elementwise sum.
    pub open spec fn sum(self, other: Grid<T>) -> Grid<T> {
        Grid {
            rows: self.rows,
            cols: self.cols,
            cells: Seq::new(self.cells.len(), |i: int| self.cells[i].add_spec(other.cells[i])),
        }
    }
}

impl<T: Sub<Output = T>> Grid<T> {
    /// Every pair of corresponding elements can be subtracted.
    pub open spec fn difference_defined(self, other: Grid<T>) -> bool {
        forall|i: int|
            0 <= i < self.cells.len() ==> #[trigger] self.cells[i].sub_req(other.cells[i])
    }

    /// What a caller owes before subtracting `other` from `self`: both are
    /// well formed and of one shape, and no subtraction of elements fails.
    pub open spec fn can_sub(self, other: Grid<T>) -> bool {
        &&& self.well_formed()
        &&& other.well_formed()
        &&& self.same_shape(other)
        &&& self.difference_defined(other)
    }

    /// The elementwise difference.
    pub open spec fn difference(self, other: Grid<T>) -> Grid<T> {
        Grid {
            rows: self.rows,
            cols: self.cols,
            cells: Seq::new(self.cells.len(), |i: int| self.cells[i].sub_spec(other.cells[i])),
        }
    }
}

impl<T: Add<Output = T> + Mul<Output = T>> Grid<T> {
    /// The `k`-th term of the dot product of row `r` of `self` and column `c`
    /// of `other`.
    pub open spec fn term(self, other: Grid<T>, r: int, c: int, k: int) -> T {
        self.at(r, k).mul_spec(other.at(k, c))
    }

    /// The first `n` terms of that dot product, added from left to right.
    /// A dot product has at least one term.
    pub open spec fn dot(self, other: Grid<T>, r: int, c: int, n: nat) -> T
        decreases n,
    {
        if n <= 1 {
            self.term(other, r, c, 0)
        } else {
            self.dot(other, r, c, (n - 1) as nat).add_spec(self.term(other, r, c, n - 1))
        }
    }

    /// Every multiplication and every addition on the way to `dot` with `n`
    /// terms can be carried out.
    pub open spec fn dot_defined(self, other: Grid<T>, r: int, c: int, n: nat) -> bool
        decreases n,
    {
        if n == 0 {
            true
        } else if n == 1 {
            self.at(r, 0).mul_req(other.at(0, c))
        } else {
            &&& self.dot_defined(other, r, c, (n - 1) as nat)
            &&& self.at(r, n - 1).mul_req(other.at(n - 1, c))
            &&& self.dot(other, r, c, (n - 1) as nat).add_req(self.term(other, r, c, n - 1))
        }
    }

    /// The shapes fit, and no element of the product is an empty sum, which an
    /// element type without a zero cannot express.
    pub open spec fn product_shaped(self, other: Grid<T>) -> bool {
        &&& self.cols == other.rows
        &&& (self.cols > 0 || self.rows == 0 || other.cols == 0)
    }

    /// Every element of the product can be computed.
    pub open spec fn product_defined(self, other: Grid<T>) -> bool {
        forall|r: int, c: int|
            0 <= r < self.rows && 0 <= c < other.cols ==> #[trigger] self.dot_defined(
                other,
                r,
                c,
                self.cols,
            )
    }

    /// What a caller owes before multiplying `self` by `other`: both are well
    /// formed, the shapes fit, the element type computes what its
    /// specification says, and no operation on elements fails.
    pub open spec fn can_mul(self, other: Grid<T>) -> bool {
        &&& self.well_formed()
        &&& other.well_formed()
        &&& self.product_shaped(other)
        &&& T::obeys_add_spec()
        &&& T::obeys_mul_spec()
        &&& self.product_defined(other)
    }

    /// The matrix product: the element in row `r` and column `c` is the dot
    /// product of row `r` of `self` and column `c` of `other`.
    pub open spec fn product(self, other: Grid<T>) -> Grid<T> {
        Grid {
            rows: self.rows,
            cols: other.cols,
            cells: Seq::new(
                self.rows * other.cols,
                |i: int| self.dot(other, i / (other.cols as int), i % (other.cols as int), self.cols),
            ),
        }
    }
}

} // verus!
