use linalg::matrix::{LUPDecomposed, Matrix};
use linalg::scalar::Scalar;
use linalg::vector::Vector;

/// A double-precision number as a scalar.
#[derive(Clone, Copy, Debug, PartialEq)]
struct Real(f64);

impl Scalar for Real {
    fn zero_value() -> Self {
        Real(0.0)
    }

    fn one_value() -> Self {
        Real(1.0)
    }

    fn sum(self, rhs: Self) -> Self {
        Real(self.0 + rhs.0)
    }

    fn difference(self, rhs: Self) -> Self {
        Real(self.0 - rhs.0)
    }

    fn product(self, rhs: Self) -> Self {
        Real(self.0 * rhs.0)
    }

    fn quotient(self, rhs: Self) -> Self {
        Real(self.0 / rhs.0)
    }

    fn negation(self) -> Self {
        Real(-self.0)
    }

    fn magnitude(self) -> Self {
        Real(num::Signed::abs(&self.0))
    }

    fn exceeds(self, rhs: Self) -> bool {
        self.0 > rhs.0
    }

    fn equals(self, rhs: Self) -> bool {
        self.0 == rhs.0
    }

    fn sum_defined(self, _rhs: Self) -> bool {
        true
    }

    fn difference_defined(self, _rhs: Self) -> bool {
        true
    }

    fn product_defined(self, _rhs: Self) -> bool {
        true
    }

    fn quotient_defined(self, _rhs: Self) -> bool {
        true
    }

    fn negation_defined(self) -> bool {
        true
    }

    fn magnitude_defined(self) -> bool {
        true
    }

    fn zero() -> Self {
        Self::zero_value()
    }

    fn one() -> Self {
        Self::one_value()
    }

    fn plus(self, rhs: Self) -> Self {
        self.sum(rhs)
    }

    fn minus(self, rhs: Self) -> Self {
        self.difference(rhs)
    }

    fn times(self, rhs: Self) -> Self {
        self.product(rhs)
    }

    fn divide(self, rhs: Self) -> Self {
        self.quotient(rhs)
    }

    fn negate(self) -> Self {
        self.negation()
    }

    fn absolute(self) -> Self {
        self.magnitude()
    }

    fn is_greater(self, rhs: Self) -> bool {
        self.exceeds(rhs)
    }

    fn is_equal(self, rhs: Self) -> bool {
        self.equals(rhs)
    }
}

fn reals(rows: Vec<Vec<f64>>) -> Matrix<Real> {
    let wrapped = rows.into_iter().map(|row| row.into_iter().map(Real).collect()).collect();
    Matrix::new(wrapped).unwrap()
}

fn numbers(m: &Matrix<Real>) -> Vec<Vec<f64>> {
    m.v.iter().map(|row| row.iter().map(|x| x.0).collect()).collect()
}

#[test]
fn vector_test_vector_dot() {
    let v1 = Vector::new(vec![Real(1.0), Real(2.0), Real(3.0)]);
    let v2 = Vector::new(vec![Real(1.0), Real(2.0), Real(3.0)]);
    let r = v1.dot(&v2).unwrap();
    assert_eq!(r.0, 14.0);
}

#[test]
fn test_matrix_decompose() {
    let m = reals(vec![
        vec![7.0, 3.0, -1.0, 2.0],
        vec![3.0, 8.0, 1.0, -4.0],
        vec![-1.0, 1.0, 4.0, -1.0],
        vec![2.0, -4.0, -1.0, 6.0],
    ]);
    let decomposed = m.decompose();

    assert_eq!(
        numbers(&decomposed.L),
        vec![
            vec![1.0, 0.0, 0.0, 0.0],
            vec![0.42857142857142855, 1.0, 0.0, 0.0],
            vec![-0.14285714285714285, 0.2127659574468085, 1.0, 0.0],
            vec![0.2857142857142857, -0.7234042553191489, 0.0898203592814371, 1.0]
        ]
    );

    assert_eq!(
        numbers(&decomposed.U),
        vec![
            vec![7.0, 3.0, -1.0, 2.0],
            vec![0.0, 6.714285714285714, 1.4285714285714286, -4.857142857142857],
            vec![0.0, 0.0, 3.5531914893617023, 0.31914893617021267],
            vec![0.0, 0.0, 0.0, 1.88622754491018],
        ]
    );
}

#[test]
#[allow(non_snake_case)]
fn test_LUPDecomposed_determinant() {
    let m = reals(vec![
        vec![3.0, 1.0, 1.0, 2.0],
        vec![5.0, 1.0, 3.0, 4.0],
        vec![2.0, 0.0, 1.0, 0.0],
        vec![1.0, 3.0, 2.0, 1.0],
    ]);
    assert_eq!(m.decompose().determinant().0.round(), -22.0)
}

#[test]
fn pivot_compares_magnitudes_of_reals() {
    let m = reals(vec![vec![1.0, 0.0], vec![-5.0, 1.0]]);
    assert_eq!(numbers(&m.pivot()), vec![vec![0.0, 1.0], vec![1.0, 0.0]]);
}

#[test]
fn decomposition_reproduces_the_matrix_with_exact_quotients() {
    let m = reals(vec![vec![2.0, 1.0, 1.0], vec![4.0, 3.0, 3.0], vec![8.0, 7.0, 9.0]]);
    let d = m.decompose();
    let pa = d.P.mul(&m).unwrap();
    let lu = d.L.mul(&d.U).unwrap();
    assert_eq!(numbers(&pa), numbers(&lu));
}

#[test]
fn a_zero_pivot_gives_no_number() {
    let m = reals(vec![vec![0.0, 0.0], vec![0.0, 0.0]]);
    let d = m.decompose();
    assert!(d.L.v[0][0].0.is_nan());
    assert!(d.determinant().0.is_nan());
}

#[test]
fn decomposition_has_three_square_matrices() {
    let m = reals(vec![vec![4.0, 3.0], vec![6.0, 3.0]]);
    let LUPDecomposed { P, L, U } = m.decompose();
    assert_eq!(P.shape(), (2, 2));
    assert_eq!(L.shape(), (2, 2));
    assert_eq!(U.shape(), (2, 2));
    assert_eq!(numbers(&P), vec![vec![0.0, 1.0], vec![1.0, 0.0]]);
    assert_eq!(numbers(&L), vec![vec![1.0, 0.0], vec![4.0 / 6.0, 1.0]]);
    assert_eq!(numbers(&U), vec![vec![6.0, 3.0], vec![0.0, 3.0 - 4.0 / 6.0 * 3.0]]);
}
