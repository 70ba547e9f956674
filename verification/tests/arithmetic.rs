use matrix::{Matrix, MatrixError};

fn a23() -> Matrix<i32> {
    Matrix::new(2, 3, &[-2, -1, 0, 1, 2, 3])
}

fn b23() -> Matrix<i32> {
    Matrix::new(2, 3, &[10, 20, 30, 40, 50, 60])
}

fn b32() -> Matrix<i32> {
    Matrix::new(3, 2, &[1, 2, 3, 4, 5, 6])
}

#[test]
fn sum_is_elementwise_and_keeps_the_shape() {
    let s = &a23() + &b23();
    assert_eq!(s.size(), a23().size());
    assert_eq!(s.data(), &vec![8, 19, 30, 41, 52, 63]);
    for i in 0..6 {
        assert_eq!(s.data()[i], a23().data()[i] + b23().data()[i]);
    }
}

#[test]
fn sum_commutes() {
    assert_eq!(&a23() + &b23(), &b23() + &a23());
}

#[test]
fn difference_is_elementwise() {
    let d = &a23() - &b23();
    assert_eq!(d.size(), (2, 3));
    assert_eq!(d.data(), &vec![-12, -21, -30, -39, -48, -57]);
}

#[test]
fn sum_undoes_difference() {
    assert_eq!(&(&a23() - &b23()) + &b23(), a23());
    assert_eq!(&(&a23() + &b23()) - &b23(), a23());
}

#[test]
fn product_has_the_outer_shape() {
    let a = Matrix::new(2, 3, &[1, 1, 1, 1, 1, 1]);
    let b = Matrix::new(3, 4, &[1; 12]);
    let c = &a * &b;
    assert_eq!(c.size(), (2, 4));
    assert_eq!(c.data(), &vec![3; 8]);
}

#[test]
fn product_of_row_and_column() {
    let row = Matrix::new(1, 3, &[1, 2, 3]);
    let column = Matrix::new(3, 1, &[4, 5, 6]);
    assert_eq!(&row * &column, Matrix::new(1, 1, &[32]));
    assert_eq!(&column * &row, Matrix::new(3, 3, &[4, 8, 12, 5, 10, 15, 6, 12, 18]));
}

#[test]
fn product_does_not_commute() {
    let a = Matrix::new(2, 2, &[1, 2, 3, 4]);
    let b = Matrix::new(2, 2, &[0, 1, 1, 0]);
    assert_eq!(&a * &b, Matrix::new(2, 2, &[2, 1, 4, 3]));
    assert_eq!(&b * &a, Matrix::new(2, 2, &[3, 4, 1, 2]));
}

#[test]
fn product_associates() {
    let a = a23();
    let b = b32();
    let c = Matrix::new(2, 4, &[1, -1, 2, 0, 3, 5, -2, 7]);
    let left = &(&a * &b) * &c;
    let right = &a * &(&b * &c);
    assert_eq!(left, right);
    assert_eq!(left, Matrix::new(2, 4, &[-29, -35, 6, -56, 106, 118, -12, 196]));
}

#[test]
fn product_with_the_identity_gives_the_matrix_back() {
    let i2 = Matrix::new(2, 2, &[1, 0, 0, 1]);
    let i3 = Matrix::new(3, 3, &[1, 0, 0, 0, 1, 0, 0, 0, 1]);
    assert_eq!(&a23() * &i3, a23());
    assert_eq!(&i2 * &a23(), a23());
}

#[test]
fn product_of_one_by_one() {
    let a = Matrix::new(1, 1, &[3i64]);
    let b = Matrix::new(1, 1, &[4i64]);
    assert_eq!(&a * &b, Matrix::new(1, 1, &[12i64]));
}

#[test]
fn product_without_elements() {
    let none: [i32; 0] = [];
    let a = Matrix::new(0, 3, &none);
    let c = &a * &b32();
    assert_eq!(c.size(), (0, 2));
    assert!(c.data().is_empty());
    let d = &Matrix::new(2, 0, &none) * &Matrix::new(0, 0, &none);
    assert_eq!(d.size(), (2, 0));
    assert!(d.data().is_empty());
}

#[test]
fn sum_without_elements() {
    let none: [i32; 0] = [];
    let s = &Matrix::new(0, 3, &none) + &Matrix::new(0, 3, &none);
    assert_eq!(s.size(), (0, 3));
    assert!(s.data().is_empty());
}

#[test]
fn try_add_gives_the_sum() {
    assert_eq!(a23().try_add(&b23()), Ok(Matrix::new(2, 3, &[8, 19, 30, 41, 52, 63])));
}

#[test]
fn try_sub_gives_the_difference() {
    assert_eq!(b23().try_sub(&a23()), Ok(Matrix::new(2, 3, &[12, 21, 30, 39, 48, 57])));
}

#[test]
fn try_mul_gives_the_product() {
    assert_eq!(a23().try_mul(&b32()), Ok(Matrix::new(2, 2, &[-5, -8, 22, 28])));
}

#[test]
fn try_add_refuses_different_shapes() {
    let expected =
        MatrixError::ShapeMismatch { lhs_rows: 2, lhs_cols: 3, rhs_rows: 3, rhs_cols: 2 };
    assert_eq!(a23().try_add(&b32()), Err(expected));
}

#[test]
fn try_add_refuses_different_row_counts() {
    let one_row = Matrix::new(1, 3, &[1, 2, 3]);
    let expected =
        MatrixError::ShapeMismatch { lhs_rows: 2, lhs_cols: 3, rhs_rows: 1, rhs_cols: 3 };
    assert_eq!(a23().try_add(&one_row), Err(expected));
}

#[test]
fn try_sub_refuses_different_column_counts() {
    let two_columns = Matrix::new(2, 2, &[1, 2, 3, 4]);
    let expected =
        MatrixError::ShapeMismatch { lhs_rows: 2, lhs_cols: 3, rhs_rows: 2, rhs_cols: 2 };
    assert_eq!(a23().try_sub(&two_columns), Err(expected));
}

#[test]
fn try_mul_refuses_inner_dimensions_that_differ() {
    let expected =
        MatrixError::ShapeMismatch { lhs_rows: 2, lhs_cols: 3, rhs_rows: 2, rhs_cols: 3 };
    assert_eq!(a23().try_mul(&b23()), Err(expected));
}

#[test]
fn try_mul_accepts_shapes_that_try_add_refuses() {
    assert!(a23().try_mul(&b32()).is_ok());
    assert!(a23().try_add(&b32()).is_err());
}

#[test]
fn sum_agrees_in_all_four_forms() {
    let expected = Matrix::new(2, 3, &[8, 19, 30, 41, 52, 63]);
    assert_eq!(&a23() + &b23(), expected);
    assert_eq!(&a23() + b23(), expected);
    assert_eq!(a23() + b23(), expected);
    assert_eq!(a23() + &b23(), expected);
}

#[test]
fn difference_agrees_in_all_four_forms() {
    let expected = Matrix::new(2, 3, &[-12, -21, -30, -39, -48, -57]);
    assert_eq!(&a23() - &b23(), expected);
    assert_eq!(&a23() - b23(), expected);
    assert_eq!(a23() - b23(), expected);
    assert_eq!(a23() - &b23(), expected);
}

#[test]
fn product_agrees_in_all_four_forms() {
    let expected = Matrix::new(2, 2, &[-5, -8, 22, 28]);
    assert_eq!(&a23() * &b32(), expected);
    assert_eq!(&a23() * b32(), expected);
    assert_eq!(a23() * b32(), expected);
    assert_eq!(a23() * &b32(), expected);
}

#[test]
fn operands_taken_by_reference_stay_readable() {
    let a = a23();
    let b = b23();
    let _ = &a + &b;
    let _ = &a - &b;
    assert_eq!(a, a23());
    assert_eq!(b, b23());
}

#[test]
fn operators_work_on_unsigned_elements() {
    let a = Matrix::new(2, 2, &[1u64, 2, 3, 4]);
    let b = Matrix::new(2, 2, &[5u64, 6, 7, 8]);
    assert_eq!(&a + &b, Matrix::new(2, 2, &[6u64, 8, 10, 12]));
    assert_eq!(&b - &a, Matrix::new(2, 2, &[4u64, 4, 4, 4]));
    assert_eq!(&a * &b, Matrix::new(2, 2, &[19u64, 22, 43, 50]));
}
