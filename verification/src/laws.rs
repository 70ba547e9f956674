use crate::arith::lemma_position;
use crate::grid::Grid;
use crate::matrix::Matrix;
use crate::series::{
    add_associates, add_commutes, lemma_series_exchange, lemma_series_times, lemma_times_series,
    mul_associates, mul_distributes, series, series_over_first, series_over_second,
};
use core::ops::{Add, Mul, Sub};
use vstd::arithmetic::div_mod::{lemma_fundamental_div_mod, lemma_mod_pos_bound};
use vstd::prelude::*;
use vstd::std_specs::ops::{AddSpec, MulSpec, SubSpec};

verus! {

/// Wherever `T` can subtract, adding what was subtracted is possible and
/// gives the first operand back: the arithmetic of `T` is exact.
pub open spec fn add_undoes_sub<T: Add<Output = T> + Sub<Output = T>>() -> bool {
    forall|x: T, y: T| #[trigger]
        x.sub_req(y) ==> x.sub_spec(y).add_req(y) && x.sub_spec(y).add_spec(y) == x
}

/// `zero` changes nothing when added and gives itself when multiplied.
pub open spec fn is_zero<T: Add<Output = T> + Mul<Output = T>>(zero: T) -> bool {
    &&& forall|x: T| #[trigger] x.add_spec(zero) == x
    &&& forall|x: T| #[trigger] zero.add_spec(x) == x
    &&& forall|x: T| #[trigger] x.mul_spec(zero) == zero
    &&& forall|x: T| #[trigger] zero.mul_spec(x) == zero
}

/// `one` changes nothing when multiplied, from either side.
pub open spec fn is_one<T: Mul<Output = T>>(one: T) -> bool {
    &&& forall|x: T| #[trigger] x.mul_spec(one) == x
    &&& forall|x: T| #[trigger] one.mul_spec(x) == x
}

/// An index below `rows * cols` names a row below `rows` and a column below
/// `cols`.
pub proof fn lemma_coordinates(rows: int, cols: int, i: int)
    requires
        0 <= rows,
        0 <= cols,
        0 <= i < rows * cols,
    ensures
        0 < cols,
        0 <= i / cols < rows,
        0 <= i % cols < cols,
        (i / cols) * cols + i % cols == i,
{
    assert(0 < cols) by (nonlinear_arith)
        requires
            0 <= cols,
            0 <= i < rows * cols,
    ;
    lemma_fundamental_div_mod(i, cols);
    lemma_mod_pos_bound(i, cols);
    let q = i / cols;
    assert(0 <= q < rows) by (nonlinear_arith)
        requires
            0 < cols,
            0 <= i < rows * cols,
            i == cols * q + i % cols,
            0 <= i % cols < cols,
    ;
    assert(q * cols == cols * q) by (nonlinear_arith);
}

/// The elements that a matrix was built from are the elements it holds, in
/// the same order: what `Matrix::new` is given is what `Matrix::data` returns.
pub proof fn lemma_data_round_trip<T>(m: Matrix<T>, rows: nat, cols: nat, values: Seq<T>)
    requires
        m@ == (Grid { rows, cols, cells: values }),
    ensures
        m@.cells == values,
        m@.cells.len() == values.len(),
        forall|i: int| 0 <= i < values.len() ==> m@.cells[i] == values[i],
{
}

/// A sum has the shape of its operands, and each of its elements is the sum
/// of the two elements at that index.
pub proof fn lemma_sum_elementwise<T: Add<Output = T>>(a: Grid<T>, b: Grid<T>)
    ensures
        a.sum(b).same_shape(a),
        a.sum(b).cells.len() == a.cells.len(),
        forall|i: int|
            0 <= i < a.cells.len() ==> a.sum(b).cells[i] == #[trigger] a.cells[i].add_spec(
                b.cells[i],
            ),
{
}

/// Where the elements' addition commutes, so does the matrices':
/// `a + b == b + a`.
pub proof fn lemma_sum_commutes<T: Add<Output = T>>(a: Grid<T>, b: Grid<T>)
    requires
        a.same_shape(b),
        a.cells.len() == b.cells.len(),
        add_commutes::<T>(),
    ensures
        a.sum(b) == b.sum(a),
{
    assert(a.sum(b).cells =~= b.sum(a).cells);
}

/// Where the elements' arithmetic is exact, adding `b` to `a - b` is
/// possible and gives `a` back: `(a - b) + b == a`.
pub proof fn lemma_sum_undoes_difference<T: Add<Output = T> + Sub<Output = T>>(
    a: Grid<T>,
    b: Grid<T>,
)
    requires
        a.can_sub(b),
        add_undoes_sub::<T>(),
    ensures
        a.difference(b).can_add(b),
        a.difference(b).sum(b) == a,
{
    let d = a.difference(b);
    assert forall|i: int| 0 <= i < d.cells.len() implies #[trigger] d.cells[i].add_req(
        b.cells[i],
    ) by {
        assert(a.cells[i].sub_req(b.cells[i]));
    }
    assert forall|i: int| 0 <= i < a.cells.len() implies #[trigger] d.sum(b).cells[i]
        == a.cells[i] by {
        assert(a.cells[i].sub_req(b.cells[i]));
    }
    assert(d.sum(b).cells =~= a.cells);
}

/// The four forms of each operator accept the same operands: whether an
/// operand is taken by reference or by value changes nothing in what the
/// operator asks of it.
pub proof fn lemma_forms_accept_alike<
    T: Add<Output = T> + Sub<Output = T> + Mul<Output = T> + Copy,
>(a: Matrix<T>, b: Matrix<T>)
    ensures
        (&a).add_req(&b) == a@.can_add(b@),
        (&a).add_req(b) == a@.can_add(b@),
        a.add_req(b) == a@.can_add(b@),
        a.add_req(&b) == a@.can_add(b@),
        (&a).sub_req(&b) == a@.can_sub(b@),
        (&a).sub_req(b) == a@.can_sub(b@),
        a.sub_req(b) == a@.can_sub(b@),
        a.sub_req(&b) == a@.can_sub(b@),
        (&a).mul_req(&b) == a@.can_mul(b@),
        (&a).mul_req(b) == a@.can_mul(b@),
        a.mul_req(b) == a@.can_mul(b@),
        a.mul_req(&b) == a@.can_mul(b@),
{
}

/// A product of an `m`-by-`n` and an `n`-by-`p` grid has `m` rows and `p`
/// columns, one element for each position, and at each position the dot
/// product of that row and that column.
pub proof fn lemma_product_elements<T: Add<Output = T> + Mul<Output = T>>(a: Grid<T>, b: Grid<T>)
    ensures
        a.product(b).rows == a.rows,
        a.product(b).cols == b.cols,
        a.product(b).well_formed(),
        forall|r: int, c: int|
            0 <= r < a.rows && 0 <= c < b.cols ==> #[trigger] a.product(b).at(r, c) == a.dot(
                b,
                r,
                c,
                a.cols,
            ),
{
    let ab = a.product(b);
    assert forall|r: int, c: int| 0 <= r < a.rows && 0 <= c < b.cols implies #[trigger] ab.at(
        r,
        c,
    ) == a.dot(b, r, c, a.cols) by {
        lemma_position(a.rows as int, b.cols as int, r, c);
    }
}

/// A dot product is the series of its terms.
pub proof fn lemma_dot_is_series<T: Add<Output = T> + Mul<Output = T>>(
    a: Grid<T>,
    b: Grid<T>,
    r: int,
    c: int,
    n: nat,
    f: spec_fn(int) -> T,
)
    requires
        f(0) == a.term(b, r, c, 0),
        forall|k: int| 0 <= k < n ==> #[trigger] f(k) == a.term(b, r, c, k),
    ensures
        a.dot(b, r, c, n) == series(f, n),
    decreases n,
{
    if n > 1 {
        lemma_dot_is_series(a, b, r, c, (n - 1) as nat, f);
    }
}

/// One element of `(a * b) * c` is the same element of `a * (b * c)`.
proof fn lemma_product_associates_at<T: Add<Output = T> + Mul<Output = T>>(
    a: Grid<T>,
    b: Grid<T>,
    c: Grid<T>,
    r: int,
    l: int,
)
    requires
        a.cols == b.rows,
        0 < a.cols,
        0 < b.cols,
        0 <= r < a.rows,
        0 <= l < c.cols,
        add_commutes::<T>(),
        add_associates::<T>(),
        mul_associates::<T>(),
        mul_distributes::<T>(),
    ensures
        a.product(b).dot(c, r, l, b.cols) == a.dot(b.product(c), r, l, a.cols),
{
    let n = a.cols;
    let p = b.cols;
    let ab = a.product(b);
    let bc = b.product(c);
    lemma_product_elements(a, b);
    lemma_product_elements(b, c);
    // Every term of either side is a sum of the triple products `g(j, k)`.
    let g = |j: int, k: int| a.at(r, j).mul_spec(b.at(j, k).mul_spec(c.at(k, l)));
    let by_first = series_over_first(g, n);
    let by_second = series_over_second(g, p);
    assert forall|k: int| 0 <= k < p implies #[trigger] by_first(k) == ab.term(c, r, l, k) by {
        let row = |j: int| a.term(b, r, k, j);
        let scaled = |j: int| g(j, k);
        lemma_dot_is_series(a, b, r, k, n, row);
        assert(ab.at(r, k) == series(row, n));
        assert forall|j: int| 0 <= j < n implies #[trigger] scaled(j) == row(j).mul_spec(
            c.at(k, l),
        ) by {
            assert(a.at(r, j).mul_spec(b.at(j, k)).mul_spec(c.at(k, l)) == a.at(r, j).mul_spec(
                b.at(j, k).mul_spec(c.at(k, l)),
            ));
        }
        assert(scaled(0) == row(0).mul_spec(c.at(k, l)));
        lemma_series_times(row, c.at(k, l), scaled, n);
    }
    assert forall|j: int| 0 <= j < n implies #[trigger] by_second(j) == a.term(bc, r, l, j) by {
        let column = |k: int| b.term(c, j, l, k);
        let scaled = |k: int| g(j, k);
        lemma_dot_is_series(b, c, j, l, p, column);
        assert(bc.at(j, l) == series(column, p));
        lemma_times_series(a.at(r, j), column, scaled, p);
    }
    assert(by_first(0) == ab.term(c, r, l, 0));
    assert(by_second(0) == a.term(bc, r, l, 0));
    lemma_dot_is_series(ab, c, r, l, p, by_first);
    lemma_dot_is_series(a, bc, r, l, n, by_second);
    lemma_series_exchange(g, n, p);
}

/// Where the elements form a semiring (their addition commutes and
/// associates, their multiplication associates and distributes over the
/// addition), the matrix product associates: `(a * b) * c == a * (b * c)`,
/// for operands whose shapes admit all four products.
pub proof fn lemma_product_associates<T: Add<Output = T> + Mul<Output = T>>(
    a: Grid<T>,
    b: Grid<T>,
    c: Grid<T>,
)
    requires
        a.product_shaped(b),
        b.product_shaped(c),
        a.product(b).product_shaped(c),
        a.product_shaped(b.product(c)),
        add_commutes::<T>(),
        add_associates::<T>(),
        mul_associates::<T>(),
        mul_distributes::<T>(),
    ensures
        a.product(b).product(c) == a.product(b.product(c)),
{
    let left = a.product(b).product(c);
    let right = a.product(b.product(c));
    assert forall|i: int| 0 <= i < left.cells.len() implies left.cells[i] == right.cells[i] by {
        lemma_coordinates(a.rows as int, c.cols as int, i);
        lemma_product_associates_at(a, b, c, i / (c.cols as int), i % (c.cols as int));
    }
    assert(left.cells =~= right.cells);
}

/// A dot product with a column of the identity picks one element of the row.
proof fn lemma_dot_with_identity_column<T: Add<Output = T> + Mul<Output = T>>(
    a: Grid<T>,
    zero: T,
    one: T,
    r: int,
    c: int,
    k: nat,
)
    requires
        is_zero(zero),
        is_one(one),
        0 <= c < a.cols,
        1 <= k <= a.cols,
    ensures
        a.dot(Grid::identity(a.cols, zero, one), r, c, k) == if c < k {
            a.at(r, c)
        } else {
            zero
        },
    decreases k,
{
    let id = Grid::identity(a.cols, zero, one);
    lemma_position(a.cols as int, a.cols as int, k - 1, c);
    assert(id.at(k - 1, c) == if k - 1 == c {
        one
    } else {
        zero
    });
    if k > 1 {
        lemma_dot_with_identity_column(a, zero, one, r, c, (k - 1) as nat);
    }
}

/// A dot product with a row of the identity picks one element of the column.
proof fn lemma_dot_with_identity_row<T: Add<Output = T> + Mul<Output = T>>(
    a: Grid<T>,
    zero: T,
    one: T,
    r: int,
    c: int,
    k: nat,
)
    requires
        is_zero(zero),
        is_one(one),
        0 <= r < a.rows,
        1 <= k <= a.rows,
    ensures
        Grid::identity(a.rows, zero, one).dot(a, r, c, k) == if r < k {
            a.at(r, c)
        } else {
            zero
        },
    decreases k,
{
    let id = Grid::identity(a.rows, zero, one);
    lemma_position(a.rows as int, a.rows as int, r, k - 1);
    assert(id.at(r, k - 1) == if k - 1 == r {
        one
    } else {
        zero
    });
    if k > 1 {
        lemma_dot_with_identity_row(a, zero, one, r, c, (k - 1) as nat);
    }
}

/// Multiplying a well-formed grid from the right by the identity of its
/// column count gives the grid back: `a * I == a`.
pub proof fn lemma_product_with_identity<T: Add<Output = T> + Mul<Output = T>>(
    a: Grid<T>,
    zero: T,
    one: T,
)
    requires
        a.well_formed(),
        is_zero(zero),
        is_one(one),
    ensures
        a.product_shaped(Grid::identity(a.cols, zero, one)),
        a.product(Grid::identity(a.cols, zero, one)) == a,
{
    let id = Grid::identity(a.cols, zero, one);
    let prod = a.product(id);
    assert forall|i: int| 0 <= i < a.cells.len() implies prod.cells[i] == a.cells[i] by {
        lemma_coordinates(a.rows as int, a.cols as int, i);
        lemma_dot_with_identity_column(
            a,
            zero,
            one,
            i / (a.cols as int),
            i % (a.cols as int),
            a.cols,
        );
    }
    assert(prod.cells =~= a.cells);
}

/// Multiplying a well-formed grid from the left by the identity of its row
/// count gives the grid back: `I * a == a`.
pub proof fn lemma_identity_with_product<T: Add<Output = T> + Mul<Output = T>>(
    a: Grid<T>,
    zero: T,
    one: T,
)
    requires
        a.well_formed(),
        is_zero(zero),
        is_one(one),
    ensures
        Grid::identity(a.rows, zero, one).product_shaped(a),
        Grid::identity(a.rows, zero, one).product(a) == a,
{
    let id = Grid::identity(a.rows, zero, one);
    let prod = id.product(a);
    assert forall|i: int| 0 <= i < a.cells.len() implies prod.cells[i] == a.cells[i] by {
        lemma_coordinates(a.rows as int, a.cols as int, i);
        lemma_dot_with_identity_row(
            a,
            zero,
            one,
            i / (a.cols as int),
            i % (a.cols as int),
            a.rows,
        );
    }
    assert(prod.cells =~= a.cells);
}

} // verus!
