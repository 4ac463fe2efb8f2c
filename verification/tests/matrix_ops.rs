use tracer_core::Float;
use tracer_core::Matrix;

fn fl(v: f64) -> Float {
    Float::new(v.to_bits())
}

#[test]
fn can_construct_a_matrix() {
    let matrix = Matrix::from_vec(
        4,
        4,
        vec![
            fl(1.0),
            fl(2.0),
            fl(3.0),
            fl(4.0),
            fl(5.5),
            fl(6.5),
            fl(7.5),
            fl(8.5),
            fl(9.0),
            fl(10.0),
            fl(11.0),
            fl(12.0),
            fl(13.5),
            fl(14.5),
            fl(15.5),
            fl(16.5),
        ],
    )
    .unwrap();

    assert_eq!(matrix.value_at(0, 0), fl(1.0));
    assert_eq!(matrix.value_at(0, 3), fl(4.0));
    assert_eq!(matrix.value_at(1, 0), fl(5.5));
    assert_eq!(matrix.value_at(1, 2), fl(7.5));
    assert_eq!(matrix.value_at(2, 2), fl(11.0));
    assert_eq!(matrix.value_at(3, 0), fl(13.5));
    assert_eq!(matrix.value_at(3, 2), fl(15.5));
}

#[test]
fn can_compare_equal() {
    let matrix1 = Matrix::from_vec(
        4,
        4,
        vec![
            fl(1.0),
            fl(2.0),
            fl(3.0),
            fl(4.0),
            fl(5.5),
            fl(6.5),
            fl(7.5),
            fl(8.5),
            fl(9.0),
            fl(10.0),
            fl(11.0),
            fl(12.0),
            fl(13.5),
            fl(14.5),
            fl(15.5),
            fl(16.5),
        ],
    )
    .unwrap();
    let matrix2 = Matrix::from_vec(
        4,
        4,
        vec![
            fl(1.0),
            fl(2.0),
            fl(3.0),
            fl(4.0),
            fl(5.5),
            fl(6.5),
            fl(7.5),
            fl(8.5),
            fl(9.0),
            fl(10.0),
            fl(11.0),
            fl(12.0),
            fl(13.5),
            fl(14.5),
            fl(15.5),
            fl(16.5),
        ],
    )
    .unwrap();
    assert_eq!(matrix1, matrix2);

    let matrix3 = Matrix::from_vec(
        4,
        4,
        vec![
            fl(1.0),
            fl(2.0),
            fl(3.0),
            fl(4.0),
            fl(5.5),
            fl(6.5),
            fl(7.5),
            fl(8.9),
            fl(9.0),
            fl(10.0),
            fl(11.0),
            fl(12.0),
            fl(13.5),
            fl(14.5),
            fl(15.5),
            fl(16.5),
        ],
    )
    .unwrap();
    assert_ne!(matrix1, matrix3);

    let matrix4 = Matrix::from_vec(
        2,
        8,
        vec![
            fl(1.0),
            fl(2.0),
            fl(3.0),
            fl(4.0),
            fl(5.5),
            fl(6.5),
            fl(7.5),
            fl(8.9),
            fl(9.0),
            fl(10.0),
            fl(11.0),
            fl(12.0),
            fl(13.5),
            fl(14.5),
            fl(15.5),
            fl(16.5),
        ],
    )
    .unwrap();
    assert_ne!(matrix1, matrix4);
}

#[test]
fn can_multiply_matrices() {
    let matrix1 = Matrix::from_vec(2, 3, vec![fl(1.0), fl(2.0), fl(3.0), fl(4.0), fl(5.0), fl(6.0)])
        .unwrap();

    let matrix2 = Matrix::from_vec(
        3,
        2,
        vec![fl(7.0), fl(8.0), fl(9.0), fl(10.0), fl(11.0), fl(12.0)],
    )
    .unwrap();

    assert_eq!(
        matrix1.mul(&matrix2).unwrap(),
        Matrix::from_vec(2, 2, vec![fl(58.0), fl(64.0), fl(139.0), fl(154.0)]).unwrap()
    );
}

#[test]
fn construction_fails_on_a_size_mismatch() {
    let r = Matrix::from_vec(2, 3, vec![fl(1.0), fl(2.0), fl(3.0), fl(4.0), fl(5.0)]);
    assert!(r.is_err());
    assert_eq!(r.unwrap_err(), "dimension mismatched".to_string());
}

#[test]
fn multiplication_fails_on_a_dimension_mismatch() {
    let a = Matrix::from_vec(2, 3, vec![fl(1.0), fl(2.0), fl(3.0), fl(4.0), fl(5.0), fl(6.0)])
        .unwrap();
    let b = Matrix::from_vec(2, 2, vec![fl(1.0), fl(2.0), fl(3.0), fl(4.0)]).unwrap();
    let r = a.mul(&b);
    assert!(r.is_err());
    assert_eq!(r.unwrap_err(), "Dimension mismatched".to_string());
}

#[test]
fn indexing_is_row_major_on_rectangular_matrices() {
    let m = Matrix::from_vec(2, 3, vec![fl(1.0), fl(2.0), fl(3.0), fl(4.0), fl(5.0), fl(6.0)])
        .unwrap();
    assert_eq!(m.value_at(0, 0), fl(1.0));
    assert_eq!(m.value_at(0, 2), fl(3.0));
    assert_eq!(m.value_at(1, 0), fl(4.0));
    assert_eq!(m.value_at(1, 2), fl(6.0));
}
