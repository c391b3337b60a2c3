use linalg::scalar::Scalar;

#[test]
fn identities_of_the_integers() {
    assert_eq!(<i32 as Scalar>::zero(), 0);
    assert_eq!(<i32 as Scalar>::one(), 1);
    assert_eq!(<i64 as Scalar>::zero(), 0);
    assert_eq!(<i64 as Scalar>::one(), 1);
    assert_eq!(<i128 as Scalar>::zero(), 0);
    assert_eq!(<i128 as Scalar>::one(), 1);
}

#[test]
fn arithmetic_of_i32() {
    assert_eq!(Scalar::plus(7i32, -9), -2);
    assert_eq!(Scalar::minus(7i32, -9), 16);
    assert_eq!(Scalar::times(7i32, -9), -63);
    assert_eq!(Scalar::negate(7i32), -7);
    assert_eq!(Scalar::negate(-7i32), 7);
    assert_eq!(Scalar::plus(i32::MAX - 1, 1), i32::MAX);
    assert_eq!(Scalar::minus(i32::MIN + 1, 1), i32::MIN);
}

#[test]
fn division_rounds_towards_zero() {
    assert_eq!(Scalar::divide(7i32, 2), 3);
    assert_eq!(Scalar::divide(-7i32, 2), -3);
    assert_eq!(Scalar::divide(7i32, -2), -3);
    assert_eq!(Scalar::divide(-7i32, -2), 3);
    assert_eq!(Scalar::divide(-7i64, 2), -3);
    assert_eq!(Scalar::divide(7i128, -2), -3);
    assert_eq!(Scalar::divide(i32::MIN, 1), i32::MIN);
    assert_eq!(Scalar::divide(i32::MIN + 1, -1), i32::MAX);
    assert_eq!(Scalar::divide(6i32, 6), 1);
    assert_eq!(Scalar::divide(-6i32, -6), 1);
}

#[test]
fn absolute_value_of_the_integers() {
    assert_eq!(Scalar::absolute(-5i32), 5);
    assert_eq!(Scalar::absolute(5i32), 5);
    assert_eq!(Scalar::absolute(0i32), 0);
    assert_eq!(Scalar::absolute(i32::MIN + 1), i32::MAX);
    assert_eq!(Scalar::absolute(-5i64), 5);
    assert_eq!(Scalar::absolute(i64::MIN + 1), i64::MAX);
    assert_eq!(Scalar::absolute(-5i128), 5);
    assert_eq!(Scalar::absolute(i128::MIN + 1), i128::MAX);
}

#[test]
fn comparisons_of_the_integers() {
    assert!(Scalar::is_greater(3i32, 2));
    assert!(!Scalar::is_greater(2i32, 2));
    assert!(!Scalar::is_greater(-3i32, 2));
    assert!(Scalar::is_equal(2i64, 2));
    assert!(!Scalar::is_equal(2i64, -2));
    assert!(Scalar::is_greater(-2i128, -3));
}

#[test]
fn arithmetic_of_i64_and_i128() {
    assert_eq!(Scalar::plus(7i64, -9), -2);
    assert_eq!(Scalar::minus(7i64, -9), 16);
    assert_eq!(Scalar::times(3_000_000_000i64, 3), 9_000_000_000);
    assert_eq!(Scalar::negate(7i64), -7);
    assert_eq!(Scalar::plus(7i128, -9), -2);
    assert_eq!(Scalar::minus(7i128, -9), 16);
    assert_eq!(Scalar::times(10_000_000_000_000_000_000i128, 10), 100_000_000_000_000_000_000);
    assert_eq!(Scalar::negate(7i128), -7);
}
