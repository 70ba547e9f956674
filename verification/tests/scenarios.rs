use matrix::Matrix;

#[test]
fn product_of_two_by_three_and_three_by_two() {
    let a = Matrix::new(2, 3, &[-2, -1, 0, 1, 2, 3]);
    let b = Matrix::new(3, 2, &[1, 2, 3, 4, 5, 6]);
    let c = &a * &b;
    assert_eq!(c.size(), (2, 2));
    assert_eq!(c.data(), &vec![-5, -8, 22, 28]);
    assert_eq!(c, Matrix::new(2, 2, &[-5, -8, 22, 28]));
}

#[test]
fn text_of_two_by_three() {
    let a = Matrix::new(2, 3, &[-2, -1, 0, 1, 2, 3]);
    assert_eq!(a.to_string(), "-2 -1 0\n1 2 3\n");
}

#[test]
fn text_of_the_product() {
    let a = Matrix::new(2, 3, &[-2, -1, 0, 1, 2, 3]);
    let b = Matrix::new(3, 2, &[1, 2, 3, 4, 5, 6]);
    let c = &a * &b;
    assert_eq!(c.to_string(), "-5 -8\n22 28\n");
}
