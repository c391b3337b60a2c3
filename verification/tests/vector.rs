use linalg::vector::Vector;
use linalg::LinalgError;

#[test]
fn lib_test_vector_add() {
    let v1 = Vector::new(vec![1, 2, 3]);
    let v2 = Vector::new(vec![1, 2, 3]);
    let v3 = v1.add(&v2).unwrap();
    assert_eq!(v3.v, vec![2, 4, 6]);
}

#[test]
fn lib_test_vector_dot() {
    let v1 = Vector::new(vec![1, 2, 3]);
    let v2 = Vector::new(vec![1, 2, 3]);
    let r = v1.dot(&v2).unwrap();
    assert_eq!(r, 14);
}

#[test]
fn lib_test_vector_inverse() {
    let v1 = Vector::new(vec![1, 2, 3]);
    let v2 = Vector::new(vec![-1, -2, -3]);
    let r = v1.inverse();
    assert_eq!(r.v, v2.v);
}

#[test]
fn lib_test_vector_cross() {
    let v1 = Vector::new(vec![1, 2, 3]);
    let v2 = Vector::new(vec![1, 2, 3]);
    let r = v1.cross(&v2).unwrap();
    assert_eq!(r.v, vec![2 * 3 - 3 * 2, 3 * 1 - 1 * 3, 1 * 2 - 2 * 1]);
}

#[test]
fn lib_test_vector_scalar() {
    let v1 = Vector::new(vec![1, 2, 3]);
    let r = v1.scalar(3);
    assert_eq!(r.v, vec![3, 6, 9]);
}

#[test]
fn vector_test_vector_add() {
    let v1 = Vector::new(vec![1, 2, 3]);
    let v2 = Vector::new(vec![1, 2, 3]);
    let v3 = v1.add(&v2).unwrap();
    assert_eq!(v3.v, vec![2, 4, 6]);
}

#[test]
fn vector_test_vector_inverse() {
    let v1 = Vector::new(vec![1, 2, 3]);
    let v2 = Vector::new(vec![-1, -2, -3]);
    let r = v1.inverse();
    assert_eq!(r.v, v2.v);
}

#[test]
fn vector_test_vector_cross() {
    let v1 = Vector::new(vec![1, 2, 3]);
    let v2 = Vector::new(vec![1, 2, 3]);
    let r = v1.cross(&v2).unwrap();
    assert_eq!(r.v, vec![2 * 3 - 3 * 2, 3 * 1 - 1 * 3, 1 * 2 - 2 * 1]);
}

#[test]
fn vector_test_vector_scalar() {
    let v1 = Vector::new(vec![1, 2, 3]);
    let r = v1.scalar(3);
    assert_eq!(r.v, vec![3, 6, 9]);
}

#[test]
fn new_records_the_dimension() {
    let v = Vector::new(vec![4i64, 5, 6, 7]);
    assert_eq!(v.dim, 4);
    assert_eq!(v.v, vec![4, 5, 6, 7]);
    let empty: Vector<i32> = Vector::new(vec![]);
    assert_eq!(empty.dim, 0);
}

#[test]
fn add_refuses_different_dimensions() {
    let v1 = Vector::new(vec![1, 2, 3]);
    let v2 = Vector::new(vec![1, 2]);
    assert_eq!(v1.add(&v2).err(), Some(LinalgError::DimensionMismatch));
}

#[test]
fn dot_refuses_different_dimensions() {
    let v1 = Vector::new(vec![1, 2, 3]);
    let v2 = Vector::new(vec![1, 2, 3, 4]);
    assert_eq!(v1.dot(&v2).err(), Some(LinalgError::DimensionMismatch));
}

#[test]
fn dot_of_empty_vectors_is_zero() {
    let v1: Vector<i32> = Vector::new(vec![]);
    let v2: Vector<i32> = Vector::new(vec![]);
    assert_eq!(v1.dot(&v2), Ok(0));
}

#[test]
fn dot_of_mixed_signs() {
    let v1 = Vector::new(vec![2i64, -3, 4]);
    let v2 = Vector::new(vec![-5i64, 6, 7]);
    assert_eq!(v1.dot(&v2), Ok(-10 - 18 + 28));
}

#[test]
fn cross_in_two_dimensions_is_one_number() {
    let v1 = Vector::new(vec![2, 3]);
    let v2 = Vector::new(vec![5, 7]);
    let r = v1.cross(&v2).unwrap();
    assert_eq!(r.dim, 1);
    assert_eq!(r.v, vec![2 * 7 - 3 * 5]);
}

#[test]
fn cross_in_three_dimensions() {
    let v1 = Vector::new(vec![1, 0, 0]);
    let v2 = Vector::new(vec![0, 1, 0]);
    assert_eq!(v1.cross(&v2).unwrap().v, vec![0, 0, 1]);
    assert_eq!(v2.cross(&v1).unwrap().v, vec![0, 0, -1]);
    let v3 = Vector::new(vec![2, 3, 4]);
    let v4 = Vector::new(vec![5, 6, 7]);
    assert_eq!(v3.cross(&v4).unwrap().v, vec![3 * 7 - 4 * 6, 4 * 5 - 2 * 7, 2 * 6 - 3 * 5]);
}

#[test]
fn cross_refuses_other_dimensions() {
    let one = Vector::new(vec![1]);
    assert_eq!(one.cross(&one).err(), Some(LinalgError::InvalidDimension));
    let four = Vector::new(vec![1, 2, 3, 4]);
    assert_eq!(four.cross(&four).err(), Some(LinalgError::InvalidDimension));
    let empty: Vector<i32> = Vector::new(vec![]);
    assert_eq!(empty.cross(&empty).err(), Some(LinalgError::InvalidDimension));
}

#[test]
fn cross_refuses_different_dimensions() {
    let two = Vector::new(vec![1, 2]);
    let three = Vector::new(vec![1, 2, 3]);
    assert_eq!(two.cross(&three).err(), Some(LinalgError::InvalidDimension));
    assert_eq!(three.cross(&two).err(), Some(LinalgError::InvalidDimension));
}

#[test]
fn scalar_by_zero_and_by_one() {
    let v = Vector::new(vec![7, -8, 9]);
    assert_eq!(v.scalar(1).v, vec![7, -8, 9]);
    assert_eq!(v.scalar(0).v, vec![0, 0, 0]);
}

#[test]
fn inverse_twice_is_the_vector() {
    let v = Vector::new(vec![7i64, -8, 0]);
    assert_eq!(v.inverse().v, vec![-7, 8, 0]);
    assert_eq!(v.inverse().inverse().v, v.v);
}
