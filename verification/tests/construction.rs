use matrix::{Matrix, MatrixError};

#[test]
fn new_keeps_the_values_in_their_order() {
    let values = [7, -3, 0, 12, 5, 9];
    let m = Matrix::new(2, 3, &values);
    assert_eq!(m.data().as_slice(), &values);
    assert_eq!(m.size(), (2, 3));
}

#[test]
fn new_copies_its_values() {
    let mut values = vec![1u8, 2, 3, 4];
    let m = Matrix::new(2, 2, &values);
    values[0] = 9;
    assert_eq!(m.data(), &vec![1u8, 2, 3, 4]);
}

#[test]
fn new_does_not_examine_the_length() {
    let m = Matrix::new(2, 3, &[1, 2, 3, 4, 5]);
    assert_eq!(m.size(), (2, 3));
    assert_eq!(m.data().len(), 5);
}

#[test]
fn new_empty_holds_nothing_and_keeps_the_shape() {
    let m: Matrix<i64> = Matrix::new_empty(4, 5);
    assert!(m.data().is_empty());
    assert_eq!(m.size(), (4, 5));
}

#[test]
fn size_gives_rows_then_columns() {
    let m = Matrix::new(1, 3, &[1, 2, 3]);
    assert_eq!(m.size(), (1, 3));
    let t = Matrix::new(3, 1, &[1, 2, 3]);
    assert_eq!(t.size(), (3, 1));
}

#[test]
fn mut_data_edits_in_place() {
    let mut m = Matrix::new(2, 2, &[1, 2, 3, 4]);
    m.mut_data()[3] = 40;
    assert_eq!(m.data(), &vec![1, 2, 3, 40]);
    assert_eq!(m.size(), (2, 2));
}

#[test]
fn mut_data_fills_an_empty_matrix() {
    let mut m: Matrix<i32> = Matrix::new_empty(1, 2);
    m.mut_data().push(5);
    m.mut_data().push(6);
    assert_eq!(m, Matrix::new(1, 2, &[5, 6]));
}

#[test]
fn try_new_accepts_a_fitting_length() {
    let m = Matrix::try_new(2, 3, &[1, 2, 3, 4, 5, 6]).unwrap();
    assert_eq!(m, Matrix::new(2, 3, &[1, 2, 3, 4, 5, 6]));
}

#[test]
fn try_new_accepts_an_empty_shape() {
    let none: [i32; 0] = [];
    let m = Matrix::try_new(0, 7, &none).unwrap();
    assert_eq!(m.size(), (0, 7));
    assert!(m.data().is_empty());
}

#[test]
fn try_new_refuses_too_few_values() {
    let r = Matrix::try_new(2, 3, &[1, 2, 3, 4, 5]);
    assert_eq!(r, Err(MatrixError::MalformedConstruction { rows: 2, cols: 3, len: 5 }));
}

#[test]
fn try_new_refuses_too_many_values() {
    let r = Matrix::try_new(1, 1, &[1, 2]);
    assert_eq!(r, Err(MatrixError::MalformedConstruction { rows: 1, cols: 1, len: 2 }));
}

#[test]
fn try_new_refuses_a_shape_beyond_the_machine() {
    let none: [i32; 0] = [];
    let r = Matrix::try_new(usize::MAX, 2, &none);
    assert_eq!(
        r,
        Err(MatrixError::MalformedConstruction { rows: usize::MAX, cols: 2, len: 0 })
    );
}

#[test]
fn equal_matrices_compare_equal() {
    assert_eq!(Matrix::new(2, 2, &[1, 2, 3, 4]), Matrix::new(2, 2, &[1, 2, 3, 4]));
}

#[test]
fn matrices_of_different_shape_differ() {
    assert_ne!(Matrix::new(2, 3, &[1, 2, 3, 4, 5, 6]), Matrix::new(3, 2, &[1, 2, 3, 4, 5, 6]));
    assert_ne!(Matrix::new(1, 6, &[1, 2, 3, 4, 5, 6]), Matrix::new(6, 1, &[1, 2, 3, 4, 5, 6]));
}

#[test]
fn matrices_of_different_elements_differ() {
    assert_ne!(Matrix::new(2, 2, &[1, 2, 3, 4]), Matrix::new(2, 2, &[1, 2, 3, 5]));
    assert_ne!(Matrix::new(2, 2, &[1, 2, 3, 4]), Matrix::new(2, 2, &[1, 2, 3]));
}
