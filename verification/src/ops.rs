use crate::matrix::Matrix;
use core::ops::{Add, Mul, Sub};
use vstd::prelude::*;
use vstd::std_specs::ops::{AddSpec, AddSpecImpl, MulSpec, MulSpecImpl, SubSpec, SubSpecImpl};

verus! {

// The operators `+`, `-` and `*` on matrices, each for operands taken by
// reference or by value. Every one of them hands its operands to the one
// function that computes the result, so all four forms of an operator return
// the same matrix for the same operands.
//
// An operator has no error to return. Operands whose shapes do not fit are
// left out by its precondition (`add_req`, `sub_req` or `mul_req`), so
// verified code never reaches the `Err` arm; a caller that Verus has not
// seen and that hands in such operands ends there, in a panic.
//
// A matrix is not determined by its view, so no operator has a result in
// specifications (`add_spec`, `sub_spec`, `mul_spec`): what it returns is
// stated in the `ensures` of the operator itself.

/// `&Matrix + &Matrix`: both operands by reference.
impl<'a, T: Add<Output = T> + Copy> Add for &'a Matrix<T> {
    type Output = Matrix<T>;

    fn add(self, rhs: &'a Matrix<T>) -> (out: Matrix<T>)
        ensures
            out@.well_formed(),
            out@.same_shape(self@),
            T::obeys_add_spec() ==> out@ == self@.sum(rhs@),
    {
        match self.try_add(rhs) {
            Ok(out) => out,
            Err(_) => unreached(),
        }
    }
}

impl<'a, T: Add<Output = T> + Copy> AddSpecImpl for &'a Matrix<T> {
    open spec fn obeys_add_spec() -> bool {
        false
    }

    open spec fn add_req(self, rhs: &'a Matrix<T>) -> bool {
        self@.can_add(rhs@)
    }

    open spec fn add_spec(self, rhs: &'a Matrix<T>) -> Matrix<T> {
        arbitrary()
    }
}

/// `&Matrix + Matrix`: the left operand by reference, the right by value.
impl<'a, T: Add<Output = T> + Copy> Add<Matrix<T>> for &'a Matrix<T> {
    type Output = Matrix<T>;

    fn add(self, rhs: Matrix<T>) -> (out: Matrix<T>)
        ensures
            out@.well_formed(),
            out@.same_shape(self@),
            T::obeys_add_spec() ==> out@ == self@.sum(rhs@),
    {
        match self.try_add(&rhs) {
            Ok(out) => out,
            Err(_) => unreached(),
        }
    }
}

impl<'a, T: Add<Output = T> + Copy> AddSpecImpl<Matrix<T>> for &'a Matrix<T> {
    open spec fn obeys_add_spec() -> bool {
        false
    }

    open spec fn add_req(self, rhs: Matrix<T>) -> bool {
        self@.can_add(rhs@)
    }

    open spec fn add_spec(self, rhs: Matrix<T>) -> Matrix<T> {
        arbitrary()
    }
}

/// `Matrix + Matrix`: both operands by value.
impl<T: Add<Output = T> + Copy> Add for Matrix<T> {
    type Output = Matrix<T>;

    fn add(self, rhs: Matrix<T>) -> (out: Matrix<T>)
        ensures
            out@.well_formed(),
            out@.same_shape(self@),
            T::obeys_add_spec() ==> out@ == self@.sum(rhs@),
    {
        match (&self).try_add(&rhs) {
            Ok(out) => out,
            Err(_) => unreached(),
        }
    }
}

impl<T: Add<Output = T> + Copy> AddSpecImpl for Matrix<T> {
    open spec fn obeys_add_spec() -> bool {
        false
    }

    open spec fn add_req(self, rhs: Matrix<T>) -> bool {
        self@.can_add(rhs@)
    }

    open spec fn add_spec(self, rhs: Matrix<T>) -> Matrix<T> {
        arbitrary()
    }
}

/// `Matrix + &Matrix`: the left operand by value, the right by reference.
impl<'a, T: Add<Output = T> + Copy> Add<&'a Matrix<T>> for Matrix<T> {
    type Output = Matrix<T>;

    fn add(self, rhs: &'a Matrix<T>) -> (out: Matrix<T>)
        ensures
            out@.well_formed(),
            out@.same_shape(self@),
            T::obeys_add_spec() ==> out@ == self@.sum(rhs@),
    {
        match (&self).try_add(rhs) {
            Ok(out) => out,
            Err(_) => unreached(),
        }
    }
}

impl<'a, T: Add<Output = T> + Copy> AddSpecImpl<&'a Matrix<T>> for Matrix<T> {
    open spec fn obeys_add_spec() -> bool {
        false
    }

    open spec fn add_req(self, rhs: &'a Matrix<T>) -> bool {
        self@.can_add(rhs@)
    }

    open spec fn add_spec(self, rhs: &'a Matrix<T>) -> Matrix<T> {
        arbitrary()
    }
}

/// `&Matrix - &Matrix`: both operands by reference.
impl<'a, T: Sub<Output = T> + Copy> Sub for &'a Matrix<T> {
    type Output = Matrix<T>;

    fn sub(self, rhs: &'a Matrix<T>) -> (out: Matrix<T>)
        ensures
            out@.well_formed(),
            out@.same_shape(self@),
            T::obeys_sub_spec() ==> out@ == self@.difference(rhs@),
    {
        match self.try_sub(rhs) {
            Ok(out) => out,
            Err(_) => unreached(),
        }
    }
}

impl<'a, T: Sub<Output = T> + Copy> SubSpecImpl for &'a Matrix<T> {
    open spec fn obeys_sub_spec() -> bool {
        false
    }

    open spec fn sub_req(self, rhs: &'a Matrix<T>) -> bool {
        self@.can_sub(rhs@)
    }

    open spec fn sub_spec(self, rhs: &'a Matrix<T>) -> Matrix<T> {
        arbitrary()
    }
}

/// `&Matrix - Matrix`: the left operand by reference, the right by value.
impl<'a, T: Sub<Output = T> + Copy> Sub<Matrix<T>> for &'a Matrix<T> {
    type Output = Matrix<T>;

    fn sub(self, rhs: Matrix<T>) -> (out: Matrix<T>)
        ensures
            out@.well_formed(),
            out@.same_shape(self@),
            T::obeys_sub_spec() ==> out@ == self@.difference(rhs@),
    {
        match self.try_sub(&rhs) {
            Ok(out) => out,
            Err(_) => unreached(),
        }
    }
}

impl<'a, T: Sub<Output = T> + Copy> SubSpecImpl<Matrix<T>> for &'a Matrix<T> {
    open spec fn obeys_sub_spec() -> bool {
        false
    }

    open spec fn sub_req(self, rhs: Matrix<T>) -> bool {
        self@.can_sub(rhs@)
    }

    open spec fn sub_spec(self, rhs: Matrix<T>) -> Matrix<T> {
        arbitrary()
    }
}

/// `Matrix - Matrix`: both operands by value.
impl<T: Sub<Output = T> + Copy> Sub for Matrix<T> {
    type Output = Matrix<T>;

    fn sub(self, rhs: Matrix<T>) -> (out: Matrix<T>)
        ensures
            out@.well_formed(),
            out@.same_shape(self@),
            T::obeys_sub_spec() ==> out@ == self@.difference(rhs@),
    {
        match (&self).try_sub(&rhs) {
            Ok(out) => out,
            Err(_) => unreached(),
        }
    }
}

impl<T: Sub<Output = T> + Copy> SubSpecImpl for Matrix<T> {
    open spec fn obeys_sub_spec() -> bool {
        false
    }

    open spec fn sub_req(self, rhs: Matrix<T>) -> bool {
        self@.can_sub(rhs@)
    }

    open spec fn sub_spec(self, rhs: Matrix<T>) -> Matrix<T> {
        arbitrary()
    }
}

/// `Matrix - &Matrix`: the left operand by value, the right by reference.
impl<'a, T: Sub<Output = T> + Copy> Sub<&'a Matrix<T>> for Matrix<T> {
    type Output = Matrix<T>;

    fn sub(self, rhs: &'a Matrix<T>) -> (out: Matrix<T>)
        ensures
            out@.well_formed(),
            out@.same_shape(self@),
            T::obeys_sub_spec() ==> out@ == self@.difference(rhs@),
    {
        match (&self).try_sub(rhs) {
            Ok(out) => out,
            Err(_) => unreached(),
        }
    }
}

impl<'a, T: Sub<Output = T> + Copy> SubSpecImpl<&'a Matrix<T>> for Matrix<T> {
    open spec fn obeys_sub_spec() -> bool {
        false
    }

    open spec fn sub_req(self, rhs: &'a Matrix<T>) -> bool {
        self@.can_sub(rhs@)
    }

    open spec fn sub_spec(self, rhs: &'a Matrix<T>) -> Matrix<T> {
        arbitrary()
    }
}

/// `&Matrix * &Matrix`: both operands by reference.
impl<'a, T: Add<Output = T> + Mul<Output = T> + Copy> Mul for &'a Matrix<T> {
    type Output = Matrix<T>;

    fn mul(self, rhs: &'a Matrix<T>) -> (out: Matrix<T>)
        ensures
            out@.well_formed(),
            out@.rows == self@.rows,
            out@.cols == rhs@.cols,
            out@ == self@.product(rhs@),
    {
        match self.try_mul(rhs) {
            Ok(out) => out,
            Err(_) => unreached(),
        }
    }
}

impl<'a, T: Add<Output = T> + Mul<Output = T> + Copy> MulSpecImpl for &'a Matrix<T> {
    open spec fn obeys_mul_spec() -> bool {
        false
    }

    open spec fn mul_req(self, rhs: &'a Matrix<T>) -> bool {
        self@.can_mul(rhs@)
    }

    open spec fn mul_spec(self, rhs: &'a Matrix<T>) -> Matrix<T> {
        arbitrary()
    }
}

/// `&Matrix * Matrix`: the left operand by reference, the right by value.
impl<'a, T: Add<Output = T> + Mul<Output = T> + Copy> Mul<Matrix<T>> for &'a Matrix<T> {
    type Output = Matrix<T>;

    fn mul(self, rhs: Matrix<T>) -> (out: Matrix<T>)
        ensures
            out@.well_formed(),
            out@.rows == self@.rows,
            out@.cols == rhs@.cols,
            out@ == self@.product(rhs@),
    {
        match self.try_mul(&rhs) {
            Ok(out) => out,
            Err(_) => unreached(),
        }
    }
}

impl<'a, T: Add<Output = T> + Mul<Output = T> + Copy> MulSpecImpl<Matrix<T>> for &'a Matrix<T> {
    open spec fn obeys_mul_spec() -> bool {
        false
    }

    open spec fn mul_req(self, rhs: Matrix<T>) -> bool {
        self@.can_mul(rhs@)
    }

    open spec fn mul_spec(self, rhs: Matrix<T>) -> Matrix<T> {
        arbitrary()
    }
}

/// `Matrix * Matrix`: both operands by value.
impl<T: Add<Output = T> + Mul<Output = T> + Copy> Mul for Matrix<T> {
    type Output = Matrix<T>;

    fn mul(self, rhs: Matrix<T>) -> (out: Matrix<T>)
        ensures
            out@.well_formed(),
            out@.rows == self@.rows,
            out@.cols == rhs@.cols,
            out@ == self@.product(rhs@),
    {
        match (&self).try_mul(&rhs) {
            Ok(out) => out,
            Err(_) => unreached(),
        }
    }
}

impl<T: Add<Output = T> + Mul<Output = T> + Copy> MulSpecImpl for Matrix<T> {
    open spec fn obeys_mul_spec() -> bool {
        false
    }

    open spec fn mul_req(self, rhs: Matrix<T>) -> bool {
        self@.can_mul(rhs@)
    }

    open spec fn mul_spec(self, rhs: Matrix<T>) -> Matrix<T> {
        arbitrary()
    }
}

/// `Matrix * &Matrix`: the left operand by value, the right by reference.
impl<'a, T: Add<Output = T> + Mul<Output = T> + Copy> Mul<&'a Matrix<T>> for Matrix<T> {
    type Output = Matrix<T>;

    fn mul(self, rhs: &'a Matrix<T>) -> (out: Matrix<T>)
        ensures
            out@.well_formed(),
            out@.rows == self@.rows,
            out@.cols == rhs@.cols,
            out@ == self@.product(rhs@),
    {
        match (&self).try_mul(rhs) {
            Ok(out) => out,
            Err(_) => unreached(),
        }
    }
}

impl<'a, T: Add<Output = T> + Mul<Output = T> + Copy> MulSpecImpl<&'a Matrix<T>> for Matrix<T> {
    open spec fn obeys_mul_spec() -> bool {
        false
    }

    open spec fn mul_req(self, rhs: &'a Matrix<T>) -> bool {
        self@.can_mul(rhs@)
    }

    open spec fn mul_spec(self, rhs: &'a Matrix<T>) -> Matrix<T> {
        arbitrary()
    }
}

} // verus!
