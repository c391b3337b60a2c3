use linalg::matrix::{LUPDecomposed, Matrix};

fn sample() -> Matrix<i32> {
    Matrix::new(vec![vec![5, -4, 5], vec![-5, 0, 4], vec![5, -2, 3]]).unwrap()
}

#[test]
fn pivot_of_a_matrix_in_order_is_the_identity() {
    let m = Matrix::new(vec![vec![9, 1, 1], vec![1, 8, 1], vec![1, 1, 7]]).unwrap();
    let p = m.pivot();
    assert_eq!(p.shape(), (3, 3));
    assert_eq!(p.v, vec![vec![1, 0, 0], vec![0, 1, 0], vec![0, 0, 1]]);
}

#[test]
fn pivot_compares_magnitudes() {
    let m = Matrix::new(vec![vec![1, 0], vec![-5, 1]]).unwrap();
    assert_eq!(m.pivot().v, vec![vec![0, 1], vec![1, 0]]);
    let m = Matrix::new(vec![vec![1i64, 0], vec![-5, 1]]).unwrap();
    assert_eq!(m.pivot().v, vec![vec![0, 1], vec![1, 0]]);
    let m = Matrix::new(vec![vec![1i128, 0], vec![-5, 1]]).unwrap();
    assert_eq!(m.pivot().v, vec![vec![0, 1], vec![1, 0]]);
    let m = Matrix::new(vec![vec![-7, 0], vec![5, 1]]).unwrap();
    assert_eq!(m.pivot().v, vec![vec![1, 0], vec![0, 1]]);
}

#[test]
fn pivot_leaves_equal_magnitudes_in_place() {
    let m = Matrix::new(vec![vec![3, 0], vec![-3, 1]]).unwrap();
    assert_eq!(m.pivot().v, vec![vec![1, 0], vec![0, 1]]);
}

#[test]
fn pivot_exchanges_at_every_larger_entry() {
    // Column 0 is scanned against the entry 1 of the matrix itself: row 1
    // and then row 2 are each exchanged with row 0.
    let m = Matrix::new(vec![vec![1, 0, 0], vec![2, 9, 0], vec![3, 0, 9]]).unwrap();
    assert_eq!(m.pivot().v, vec![vec![0, 0, 1], vec![1, 0, 0], vec![0, 1, 0]]);
}

#[test]
fn pivot_reads_the_matrix_and_not_the_exchanged_rows() {
    let m = sample();
    assert_eq!(m.pivot().v, vec![vec![1, 0, 0], vec![0, 0, 1], vec![0, 1, 0]]);
}

#[test]
fn pivot_of_a_wide_matrix_has_the_size_of_its_rows() {
    let m = Matrix::new(vec![vec![1, 2, 3], vec![4, 5, 6]]).unwrap();
    let p = m.pivot();
    assert_eq!(p.shape(), (2, 2));
    assert_eq!(p.v, vec![vec![0, 1], vec![1, 0]]);
}

#[test]
fn decompose_gives_the_factors() {
    let LUPDecomposed { P, L, U } = sample().decompose();
    assert_eq!(P.v, vec![vec![1, 0, 0], vec![0, 0, 1], vec![0, 1, 0]]);
    assert_eq!(L.v, vec![vec![1, 0, 0], vec![1, 1, 0], vec![-1, -2, 1]]);
    assert_eq!(U.v, vec![vec![5, -4, 5], vec![0, 2, -2], vec![0, 0, 5]]);
    assert_eq!(P.shape(), (3, 3));
    assert_eq!(L.shape(), (3, 3));
    assert_eq!(U.shape(), (3, 3));
}

#[test]
fn decompose_reproduces_the_matrix() {
    let m = sample();
    let d = m.decompose();
    let pa = d.P.mul(&m).unwrap();
    let lu = d.L.mul(&d.U).unwrap();
    assert_eq!(pa.v, lu.v);
    assert_eq!(pa.v, vec![vec![5, -4, 5], vec![5, -2, 3], vec![-5, 0, 4]]);
}

#[test]
fn decompose_of_one_entry() {
    let m = Matrix::new(vec![vec![-4i64]]).unwrap();
    let d = m.decompose();
    assert_eq!(d.P.v, vec![vec![1]]);
    assert_eq!(d.L.v, vec![vec![1]]);
    assert_eq!(d.U.v, vec![vec![-4]]);
}

#[test]
fn decompose_rounds_quotients_towards_zero() {
    let m = Matrix::new(vec![vec![4, 3], vec![-6, 3]]).unwrap();
    let d = m.decompose();
    assert_eq!(d.P.v, vec![vec![0, 1], vec![1, 0]]);
    // 4 / -6 is 0 for integers, so the second row of U is that of P A.
    assert_eq!(d.L.v, vec![vec![1, 0], vec![0, 1]]);
    assert_eq!(d.U.v, vec![vec![-6, 3], vec![0, 3]]);
}

#[test]
fn determinant_multiplies_sign_and_diagonals() {
    // P keeps row 0 and exchanges rows 1 and 2: the sign is
    // -1 * -1 * 1 * 1, and the diagonals give 1 * 1 * 1 and 5 * 2 * 5.
    assert_eq!(sample().decompose().determinant(), 50);
}

#[test]
fn determinant_of_the_identity() {
    let one: Matrix<i32> = Matrix::diag(vec![1; 1]);
    assert_eq!(one.decompose().determinant(), 1);
    let two: Matrix<i32> = Matrix::diag(vec![1; 2]);
    assert_eq!(two.decompose().determinant(), -1);
    let three: Matrix<i32> = Matrix::diag(vec![1; 3]);
    assert_eq!(three.decompose().determinant(), 1);
}

#[test]
fn determinant_from_given_factors() {
    let d = LUPDecomposed {
        P: Matrix::new(vec![vec![0, 1], vec![1, 0]]).unwrap(),
        L: Matrix::new(vec![vec![1, 0], vec![3, 1]]).unwrap(),
        U: Matrix::new(vec![vec![2, 7], vec![0, -5]]).unwrap(),
    };
    assert_eq!(d.determinant(), 10);
}
