use crate::matrix::Matrix;
use vstd::laws_eq::obeys_concrete_eq;
use vstd::prelude::*;
use vstd::std_specs::cmp::{PartialEqSpec, PartialEqSpecImpl};

verus! {

impl<T: PartialEq> PartialEq for Matrix<T> {
    /// Two matrices are equal exactly if they have the same shape and the
    /// same number of elements, and their elements are equal one by one.
    fn eq(&self, other: &Self) -> (r: bool) {
        let (rows, cols) = self.size();
        let (other_rows, other_cols) = other.size();
        rows == other_rows && cols == other_cols && self.data() == other.data()
    }
}

impl<T: PartialEq> PartialEqSpecImpl for Matrix<T> {
    open spec fn obeys_eq_spec() -> bool {
        T::obeys_eq_spec()
    }

    open spec fn eq_spec(&self, other: &Self) -> bool {
        &&& self@.rows == other@.rows
        &&& self@.cols == other@.cols
        &&& self@.cells.len() == other@.cells.len()
        &&& forall|i: int|
            0 <= i < self@.cells.len() ==> #[trigger] self@.cells[i].eq_spec(&other@.cells[i])
    }
}

/// Where equality of the elements is equality of their values, two matrices
/// are equal exactly if they have the same shape and the same elements in
/// the same order.
pub proof fn lemma_eq_is_equality_of_views<T: PartialEq>(a: Matrix<T>, b: Matrix<T>)
    requires
        obeys_concrete_eq::<T>(),
    ensures
        PartialEqSpec::eq_spec(&a, &b) <==> (a@ == b@),
{
    reveal(obeys_concrete_eq);
    if PartialEqSpec::eq_spec(&a, &b) {
        assert forall|i: int| 0 <= i < a@.cells.len() implies a@.cells[i] == b@.cells[i] by {
            assert(PartialEqSpec::eq_spec(&a@.cells[i], &b@.cells[i]));
        }
        assert(a@.cells =~= b@.cells);
    }
}

} // verus!
