use matrix::text::lay_out;
use matrix::Matrix;

#[test]
fn text_of_a_single_element() {
    assert_eq!(Matrix::new(1, 1, &[42]).to_string(), "42\n");
}

#[test]
fn text_of_a_single_row() {
    assert_eq!(Matrix::new(1, 3, &[1, 2, 3]).to_string(), "1 2 3\n");
}

#[test]
fn text_of_a_single_column() {
    assert_eq!(Matrix::new(3, 1, &[1, -2, 3]).to_string(), "1\n-2\n3\n");
}

#[test]
fn text_of_a_matrix_without_elements() {
    let none: [i32; 0] = [];
    assert_eq!(Matrix::new(0, 3, &none).to_string(), "");
    assert_eq!(Matrix::new(3, 0, &none).to_string(), "");
    assert_eq!(Matrix::<i32>::new_empty(2, 2).to_string(), "");
}

#[test]
fn text_of_an_unfinished_row_ends_in_a_space() {
    assert_eq!(Matrix::new(2, 3, &[1, 2, 3, 4]).to_string(), "1 2 3\n4 ");
}

#[test]
fn text_uses_the_display_form_of_the_elements() {
    let m = Matrix::new(1, 2, &["ab", "c d"]);
    assert_eq!(m.to_string(), "ab c d\n");
    let c = Matrix::new(2, 1, &['x', 'y']);
    assert_eq!(c.to_string(), "x\ny\n");
}

#[test]
fn lay_out_joins_the_texts_row_by_row() {
    let texts: Vec<String> =
        vec!["a".to_string(), "bb".to_string(), "ccc".to_string(), "".to_string()];
    assert_eq!(lay_out(&texts, 2), "a bb\nccc \n");
    assert_eq!(lay_out(&texts, 4), "a bb ccc \n");
    assert_eq!(lay_out(&texts, 1), "a\nbb\nccc\n\n");
    assert_eq!(lay_out(&texts, 3), "a bb ccc\n ");
}

#[test]
fn lay_out_of_nothing_is_empty() {
    assert_eq!(lay_out(&Vec::new(), 3), "");
    assert_eq!(lay_out(&Vec::new(), 0), "");
}
