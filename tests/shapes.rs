use iris_net::shape::{DimensionMismatch, Shape};

#[test]
fn transpose_swaps_rows_and_columns() {
    let a = Shape::new(2, 3);
    assert_eq!(a.transpose(), Shape::new(3, 2));
}

#[test]
fn transpose_twice_gives_back_the_shape() {
    let a = Shape::new(4, 7);
    assert_eq!(a.transpose().transpose(), a);
}

#[test]
fn multiply_by_identity_keeps_the_shape() {
    let a = Shape::new(2, 3);
    assert_eq!(a.multiply(&Shape::identity(3)), Ok(a));
}

#[test]
fn multiply_gives_rows_of_left_and_columns_of_right() {
    let a = Shape::new(2, 3);
    let b = Shape::new(3, 5);
    assert_eq!(a.multiply(&b), Ok(Shape::new(2, 5)));
}

#[test]
fn multiply_of_mismatched_shapes_fails() {
    let a = Shape::new(2, 3);
    assert_eq!(
        a.multiply(&a),
        Err(DimensionMismatch { expected: Shape::new(3, 3), actual: Shape::new(2, 3) })
    );
}

#[test]
fn elementwise_needs_identical_shapes() {
    let a = Shape::new(2, 3);
    assert_eq!(a.elementwise(&Shape::new(2, 3)), Ok(a));
    assert_eq!(
        a.elementwise(&Shape::new(3, 2)),
        Err(DimensionMismatch { expected: a, actual: Shape::new(3, 2) })
    );
}

#[test]
fn empty_shapes_multiply() {
    let a = Shape::new(0, 0);
    assert_eq!(a.multiply(&Shape::new(0, 4)), Ok(Shape::new(0, 4)));
}
