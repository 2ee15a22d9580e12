use neural_net::matrix::Matrix;

fn m_from(rows: Vec<Vec<f64>>) -> Matrix {
    Matrix::from(rows.into_iter().map(|r| r.into_iter().map(|x| x.to_bits()).collect()).collect())
}

fn m_get(m: &Matrix, i: usize, j: usize) -> f64 {
    f64::from_bits(m.data[i][j])
}

#[test]
fn test_matrix_zero_pass() {
    let res = Matrix::zero(2, 2);
    assert!(res.rows == 2);
    assert!(res.cols == 2);
    assert!(m_get(&res, 0, 0) == 0.0);
    assert!(m_get(&res, 1, 1) == 0.0);
}

#[test]
fn test_matrix_random_pass() {
    let res = Matrix::random(2, 2);
    assert!(res.rows == 2);
    assert!(res.cols == 2);
    assert!(m_get(&res, 0, 0) != 0.0);
    assert!(m_get(&res, 1, 1) != 0.0);
}

#[test]
fn test_matrix_multiply_pass() {
    let a = Matrix::random(2, 2);
    let b = Matrix::random(2, 2);
    let res = a.multiply(&b).unwrap();
    assert!(res.rows == 2);
    assert!(res.cols == 2);
    assert!(m_get(&res, 0, 0) != 0.0);
    assert!(m_get(&res, 1, 1) != 0.0);
}

#[test]
fn test_matrix_add_pass() {
    let a = Matrix::random(2, 2);
    let b = Matrix::random(2, 2);
    let res = a.add(&b).unwrap();
    assert!(res.rows == 2);
    assert!(res.cols == 2);
    assert!(m_get(&res, 0, 0) != 0.0);
    assert!(m_get(&res, 1, 1) != 0.0);
}

#[test]
fn test_matrix_dot_multiply_pass() {
    let a = Matrix::random(2, 2);
    let b = Matrix::random(2, 2);
    let res = a.dot_multiply(&b).unwrap();
    assert!(res.rows == 2);
    assert!(res.cols == 2);
    assert!(m_get(&res, 0, 0) != 0.0);
    assert!(m_get(&res, 1, 1) != 0.0);
}

#[test]
fn test_matrix_subtract_pass() {
    let a = Matrix::random(2, 2);
    let b = Matrix::random(2, 2);
    let res = a.subtract(&b).unwrap();
    assert!(res.rows == 2);
    assert!(res.cols == 2);
    assert!(m_get(&res, 0, 0) != 0.0);
    assert!(m_get(&res, 1, 1) != 0.0);
}

#[test]
fn test_matrix_transpose_pass() {
    let a = Matrix::random(2, 2);
    let res = a.transpose();
    assert!(res.rows == 2);
    assert!(res.cols == 2);
}

#[test]
fn add_then_subtract_returns_left_operand() {
    let a = m_from(vec![vec![1.5, -2.25], vec![0.5, 3.0]]);
    let b = m_from(vec![vec![0.25, 1.0], vec![-1.5, 2.0]]);
    let sum = a.add(&b).unwrap();
    let back = sum.subtract(&b).unwrap();
    for i in 0..2 {
        for j in 0..2 {
            assert!((m_get(&back, i, j) - m_get(&a, i, j)).abs() < 1e-12);
        }
    }
}

#[test]
fn multiply_shape_and_exact_product() {
    let a = m_from(vec![vec![1.0, 2.0, 3.0], vec![4.0, 5.0, 6.0]]);
    let b = m_from(vec![vec![7.0, 8.0], vec![9.0, 10.0], vec![11.0, 12.0]]);
    let res = a.multiply(&b).unwrap();
    assert_eq!(res.rows, a.rows);
    assert_eq!(res.cols, b.cols);
    assert_eq!(m_get(&res, 0, 0), 58.0);
    assert_eq!(m_get(&res, 0, 1), 64.0);
    assert_eq!(m_get(&res, 1, 0), 139.0);
    assert_eq!(m_get(&res, 1, 1), 154.0);
}

#[test]
fn multiply_incompatible_inner_dimension_fails() {
    let a = m_from(vec![vec![1.0, 2.0, 3.0], vec![4.0, 5.0, 6.0]]);
    let err = a.multiply(&a).unwrap_err();
    assert_eq!(err.description(), "Can't multiply a matrix of incorrect dimension");
}

#[test]
fn elementwise_ops_mismatched_shapes_fail() {
    let a = m_from(vec![vec![1.0, 2.0], vec![3.0, 4.0]]);
    let b = m_from(vec![vec![1.0, 2.0, 3.0], vec![4.0, 5.0, 6.0]]);
    assert_eq!(a.add(&b).unwrap_err().description(), "Can't add a matrix of incorrect dimension");
    assert_eq!(
        a.subtract(&b).unwrap_err().description(),
        "Can't subtract a matrix of incorrect dimension"
    );
    assert_eq!(
        a.dot_multiply(&b).unwrap_err().description(),
        "Can't dot_multiply a matrix of incorrect dimension"
    );
}

#[test]
fn elementwise_exact_values() {
    let a = m_from(vec![vec![1.0, 2.0], vec![3.0, 4.0]]);
    let b = m_from(vec![vec![10.0, 20.0], vec![30.0, 40.0]]);
    let sum = a.add(&b).unwrap();
    assert_eq!(m_get(&sum, 0, 0), 11.0);
    assert_eq!(m_get(&sum, 1, 1), 44.0);
    let diff = b.subtract(&a).unwrap();
    assert_eq!(m_get(&diff, 0, 1), 18.0);
    let prod = a.dot_multiply(&b).unwrap();
    assert_eq!(m_get(&prod, 1, 0), 90.0);
}

#[test]
fn transpose_twice_returns_original() {
    let a = m_from(vec![vec![1.0, -2.0, 3.5], vec![4.0, 0.25, -6.0]]);
    let t = a.transpose();
    assert_eq!(t.rows, 3);
    assert_eq!(t.cols, 2);
    assert_eq!(m_get(&t, 2, 1), -6.0);
    let back = t.transpose();
    assert_eq!(back.rows, a.rows);
    assert_eq!(back.cols, a.cols);
    assert_eq!(back.data, a.data);
}

#[test]
fn random_entries_lie_in_symmetric_unit_interval() {
    let res = Matrix::random(3, 3);
    let mut all_zero = true;
    for i in 0..3 {
        for j in 0..3 {
            let x = m_get(&res, i, j);
            assert!(x >= -1.0);
            assert!(x < 1.0);
            if x != 0.0 {
                all_zero = false;
            }
        }
    }
    assert!(!all_zero);
}

#[test]
fn map_applies_function_to_every_entry() {
    let a = m_from(vec![vec![-1.0, 2.0], vec![0.5, -0.25]]);
    let doubled = a.map(|b| (f64::from_bits(b) * 2.0).to_bits());
    assert_eq!(doubled.rows, a.rows);
    assert_eq!(doubled.cols, a.cols);
    assert_eq!(m_get(&doubled, 0, 0), -2.0);
    assert_eq!(m_get(&doubled, 0, 1), 4.0);
    assert_eq!(m_get(&doubled, 1, 0), 1.0);
    assert_eq!(m_get(&doubled, 1, 1), -0.5);
}
