//! The machine integers `i32`, `i64` and `i128` as scalars.
//!
//! The mathematical meaning of their arithmetic is arithmetic modulo a power
//! of two, with the quotient rounded towards zero. An executable operation is
//! defined where its exact result fits the type (and, for a division, the
//! divisor is not zero), and then the two agree.
use vstd::prelude::*;
use vstd::arithmetic::div_mod::lemma_add_mod_noop_right;
use crate::scalar::{ExactScalar, Scalar};

verus! {

/// The quotient of `a` by `b` rounded towards zero, as machine integers
/// divide. It is left open for `b == 0`.
pub open spec fn quotient_toward_zero(a: int, b: int) -> int {
    if a >= 0 {
        a / b
    } else {
        -((-a) / b)
    }
}

/// The one `i32` that differs from `x` by a multiple of `2^32`.
pub open spec fn wrap_i32(x: int) -> i32 {
    ((x + 0x8000_0000) % 0x1_0000_0000 - 0x8000_0000) as i32
}

/// The one `i64` that differs from `x` by a multiple of `2^64`.
pub open spec fn wrap_i64(x: int) -> i64 {
    ((x + 0x8000_0000_0000_0000) % 0x1_0000_0000_0000_0000 - 0x8000_0000_0000_0000) as i64
}

/// The one `i128` that differs from `x` by a multiple of `2^128`.
pub open spec fn wrap_i128(x: int) -> i128 {
    ((x + 0x8000_0000_0000_0000_0000_0000_0000_0000int)
        % 0x1_0000_0000_0000_0000_0000_0000_0000_0000int
        - 0x8000_0000_0000_0000_0000_0000_0000_0000int) as i128
}

/// A quotient rounded towards zero is no larger in magnitude than the dividend.
pub proof fn lemma_quotient_toward_zero_bounded(a: int, b: int)
    requires
        b != 0,
    ensures
        a >= 0 ==> -a <= quotient_toward_zero(a, b) <= a,
        a < 0 ==> a <= quotient_toward_zero(a, b) <= -a,
        a < 0 && b != -1 ==> quotient_toward_zero(a, b) < -a,
{
    let n: int = if a >= 0 { a } else { -a };
    let q: int = n / b;
    let r: int = n % b;
    assert(n == b * q + r && 0 <= r && (b > 0 ==> r < b) && (b < 0 ==> r < -b))
        by (nonlinear_arith)
        requires
            b != 0,
            q == n / b,
            r == n % b,
    ;
    assert(-n <= q <= n) by (nonlinear_arith)
        requires
            n >= 0,
            b != 0,
            n == b * q + r,
            0 <= r,
            b > 0 ==> r < b,
            b < 0 ==> r < -b,
    ;
    if a < 0 && b != -1 {
        assert(q != -n) by (nonlinear_arith)
            requires
                n > 0,
                b != 0,
                b != -1,
                n == b * q + r,
                0 <= r,
                b > 0 ==> r < b,
                b < 0 ==> r < -b,
        ;
    }
}

/// The absolute value of an `i32`, computed by `num::Signed::abs`.
///
/// Left unproved: that for an argument other than `i32::MIN` the call returns
/// the argument itself where that is not negative, and else its negative. The
/// negative of `i32::MIN` does not fit, so that argument is excluded.
#[verifier::external_body]
fn signed_abs_i32(x: i32) -> (r: i32)
    requires
        x != i32::MIN,
    ensures
        r == if x < 0 { -x } else { x as int },
{
    num::Signed::abs(&x)
}

/// The absolute value of an `i64`, computed by `num::Signed::abs`.
///
/// Left unproved: that for an argument other than `i64::MIN` the call returns
/// the argument itself where that is not negative, and else its negative. The
/// negative of `i64::MIN` does not fit, so that argument is excluded.
#[verifier::external_body]
fn signed_abs_i64(x: i64) -> (r: i64)
    requires
        x != i64::MIN,
    ensures
        r == if x < 0 { -x } else { x as int },
{
    num::Signed::abs(&x)
}

/// The absolute value of an `i128`, computed by `num::Signed::abs`.
///
/// Left unproved: that for an argument other than `i128::MIN` the call
/// returns the argument itself where that is not negative, and else its
/// negative. The negative of `i128::MIN` does not fit, so that argument is
/// excluded.
#[verifier::external_body]
fn signed_abs_i128(x: i128) -> (r: i128)
    requires
        x != i128::MIN,
    ensures
        r == if x < 0 { -x } else { x as int },
{
    num::Signed::abs(&x)
}

impl Scalar for i32 {
    open spec fn zero_value() -> Self {
        0i32
    }

    open spec fn one_value() -> Self {
        1i32
    }

    open spec fn sum(self, rhs: Self) -> Self {
        wrap_i32(self + rhs)
    }

    open spec fn difference(self, rhs: Self) -> Self {
        wrap_i32(self - rhs)
    }

    open spec fn product(self, rhs: Self) -> Self {
        wrap_i32(self * rhs)
    }

    open spec fn quotient(self, rhs: Self) -> Self {
        wrap_i32(quotient_toward_zero(self as int, rhs as int))
    }

    open spec fn negation(self) -> Self {
        wrap_i32(-self)
    }

    open spec fn magnitude(self) -> Self {
        if self < 0 {
            wrap_i32(-self)
        } else {
            self
        }
    }

    open spec fn exceeds(self, rhs: Self) -> bool {
        self > rhs
    }

    open spec fn equals(self, rhs: Self) -> bool {
        self == rhs
    }

    open spec fn sum_defined(self, rhs: Self) -> bool {
        i32::MIN <= self + rhs <= i32::MAX
    }

    open spec fn difference_defined(self, rhs: Self) -> bool {
        i32::MIN <= self - rhs <= i32::MAX
    }

    open spec fn product_defined(self, rhs: Self) -> bool {
        i32::MIN <= self * rhs <= i32::MAX
    }

    open spec fn quotient_defined(self, rhs: Self) -> bool {
        rhs != 0 && !(self == i32::MIN && rhs == -1)
    }

    open spec fn negation_defined(self) -> bool {
        self != i32::MIN
    }

    open spec fn magnitude_defined(self) -> bool {
        self != i32::MIN
    }

    fn zero() -> (r: Self) {
        0
    }

    fn one() -> (r: Self) {
        1
    }

    fn plus(self, rhs: Self) -> (r: Self) {
        self + rhs
    }

    fn minus(self, rhs: Self) -> (r: Self) {
        self - rhs
    }

    fn times(self, rhs: Self) -> (r: Self) {
        self * rhs
    }

    fn divide(self, rhs: Self) -> (r: Self) {
        proof {
            lemma_quotient_toward_zero_bounded(self as int, rhs as int);
        }
        self / rhs
    }

    fn negate(self) -> (r: Self) {
        -self
    }

    fn absolute(self) -> (r: Self) {
        signed_abs_i32(self)
    }

    fn is_greater(self, rhs: Self) -> (r: bool) {
        self > rhs
    }

    fn is_equal(self, rhs: Self) -> (r: bool) {
        self == rhs
    }
}

impl ExactScalar for i32 {
    proof fn sum_commutative(a: Self, b: Self) {
    }

    proof fn sum_associative(a: Self, b: Self, c: Self) {
        lemma_add_mod_noop_right(c as int, a + b + 0x8000_0000, 0x1_0000_0000);
        lemma_add_mod_noop_right(a as int, b + c + 0x8000_0000, 0x1_0000_0000);
    }

    proof fn sum_with_zero(a: Self) {
    }

    proof fn product_commutative(a: Self, b: Self) {
        assert(a * b == b * a) by (nonlinear_arith);
    }

    proof fn product_with_one(a: Self) {
    }

    proof fn product_with_zero(a: Self) {
    }

    proof fn difference_restored(a: Self, b: Self) {
    }

    proof fn quotient_by_self(a: Self) {
        let x: int = a as int;
        if x > 0 {
            assert(x / x == 1) by (nonlinear_arith)
                requires
                    x > 0,
            ;
        } else {
            assert((-x) / x == -1) by (nonlinear_arith)
                requires
                    x < 0,
            ;
        }
    }
}

impl Scalar for i64 {
    open spec fn zero_value() -> Self {
        0i64
    }

    open spec fn one_value() -> Self {
        1i64
    }

    open spec fn sum(self, rhs: Self) -> Self {
        wrap_i64(self + rhs)
    }

    open spec fn difference(self, rhs: Self) -> Self {
        wrap_i64(self - rhs)
    }

    open spec fn product(self, rhs: Self) -> Self {
        wrap_i64(self * rhs)
    }

    open spec fn quotient(self, rhs: Self) -> Self {
        wrap_i64(quotient_toward_zero(self as int, rhs as int))
    }

    open spec fn negation(self) -> Self {
        wrap_i64(-self)
    }

    open spec fn magnitude(self) -> Self {
        if self < 0 {
            wrap_i64(-self)
        } else {
            self
        }
    }

    open spec fn exceeds(self, rhs: Self) -> bool {
        self > rhs
    }

    open spec fn equals(self, rhs: Self) -> bool {
        self == rhs
    }

    open spec fn sum_defined(self, rhs: Self) -> bool {
        i64::MIN <= self + rhs <= i64::MAX
    }

    open spec fn difference_defined(self, rhs: Self) -> bool {
        i64::MIN <= self - rhs <= i64::MAX
    }

    open spec fn product_defined(self, rhs: Self) -> bool {
        i64::MIN <= self * rhs <= i64::MAX
    }

    open spec fn quotient_defined(self, rhs: Self) -> bool {
        rhs != 0 && !(self == i64::MIN && rhs == -1)
    }

    open spec fn negation_defined(self) -> bool {
        self != i64::MIN
    }

    open spec fn magnitude_defined(self) -> bool {
        self != i64::MIN
    }

    fn zero() -> (r: Self) {
        0
    }

    fn one() -> (r: Self) {
        1
    }

    fn plus(self, rhs: Self) -> (r: Self) {
        self + rhs
    }

    fn minus(self, rhs: Self) -> (r: Self) {
        self - rhs
    }

    fn times(self, rhs: Self) -> (r: Self) {
        self * rhs
    }

    fn divide(self, rhs: Self) -> (r: Self) {
        proof {
            lemma_quotient_toward_zero_bounded(self as int, rhs as int);
        }
        self / rhs
    }

    fn negate(self) -> (r: Self) {
        -self
    }

    fn absolute(self) -> (r: Self) {
        signed_abs_i64(self)
    }

    fn is_greater(self, rhs: Self) -> (r: bool) {
        self > rhs
    }

    fn is_equal(self, rhs: Self) -> (r: bool) {
        self == rhs
    }
}

impl ExactScalar for i64 {
    proof fn sum_commutative(a: Self, b: Self) {
    }

    proof fn sum_associative(a: Self, b: Self, c: Self) {
        lemma_add_mod_noop_right(c as int, a + b + 0x8000_0000_0000_0000, 0x1_0000_0000_0000_0000);
        lemma_add_mod_noop_right(a as int, b + c + 0x8000_0000_0000_0000, 0x1_0000_0000_0000_0000);
    }

    proof fn sum_with_zero(a: Self) {
    }

    proof fn product_commutative(a: Self, b: Self) {
        assert(a * b == b * a) by (nonlinear_arith);
    }

    proof fn product_with_one(a: Self) {
    }

    proof fn product_with_zero(a: Self) {
    }

    proof fn difference_restored(a: Self, b: Self) {
    }

    proof fn quotient_by_self(a: Self) {
        let x: int = a as int;
        if x > 0 {
            assert(x / x == 1) by (nonlinear_arith)
                requires
                    x > 0,
            ;
        } else {
            assert((-x) / x == -1) by (nonlinear_arith)
                requires
                    x < 0,
            ;
        }
    }
}

impl Scalar for i128 {
    open spec fn zero_value() -> Self {
        0i128
    }

    open spec fn one_value() -> Self {
        1i128
    }

    open spec fn sum(self, rhs: Self) -> Self {
        wrap_i128(self + rhs)
    }

    open spec fn difference(self, rhs: Self) -> Self {
        wrap_i128(self - rhs)
    }

    open spec fn product(self, rhs: Self) -> Self {
        wrap_i128(self * rhs)
    }

    open spec fn quotient(self, rhs: Self) -> Self {
        wrap_i128(quotient_toward_zero(self as int, rhs as int))
    }

    open spec fn negation(self) -> Self {
        wrap_i128(-self)
    }

    open spec fn magnitude(self) -> Self {
        if self < 0 {
            wrap_i128(-self)
        } else {
            self
        }
    }

    open spec fn exceeds(self, rhs: Self) -> bool {
        self > rhs
    }

    open spec fn equals(self, rhs: Self) -> bool {
        self == rhs
    }

    open spec fn sum_defined(self, rhs: Self) -> bool {
        i128::MIN <= self + rhs <= i128::MAX
    }

    open spec fn difference_defined(self, rhs: Self) -> bool {
        i128::MIN <= self - rhs <= i128::MAX
    }

    open spec fn product_defined(self, rhs: Self) -> bool {
        i128::MIN <= self * rhs <= i128::MAX
    }

    open spec fn quotient_defined(self, rhs: Self) -> bool {
        rhs != 0 && !(self == i128::MIN && rhs == -1)
    }

    open spec fn negation_defined(self) -> bool {
        self != i128::MIN
    }

    open spec fn magnitude_defined(self) -> bool {
        self != i128::MIN
    }

    fn zero() -> (r: Self) {
        0
    }

    fn one() -> (r: Self) {
        1
    }

    fn plus(self, rhs: Self) -> (r: Self) {
        self + rhs
    }

    fn minus(self, rhs: Self) -> (r: Self) {
        self - rhs
    }

    fn times(self, rhs: Self) -> (r: Self) {
        self * rhs
    }

    fn divide(self, rhs: Self) -> (r: Self) {
        proof {
            lemma_quotient_toward_zero_bounded(self as int, rhs as int);
        }
        self / rhs
    }

    fn negate(self) -> (r: Self) {
        -self
    }

    fn absolute(self) -> (r: Self) {
        signed_abs_i128(self)
    }

    fn is_greater(self, rhs: Self) -> (r: bool) {
        self > rhs
    }

    fn is_equal(self, rhs: Self) -> (r: bool) {
        self == rhs
    }
}

impl ExactScalar for i128 {
    proof fn sum_commutative(a: Self, b: Self) {
    }

    proof fn sum_associative(a: Self, b: Self, c: Self) {
        lemma_add_mod_noop_right(c as int, a + b + 0x8000_0000_0000_0000_0000_0000_0000_0000int, 0x1_0000_0000_0000_0000_0000_0000_0000_0000int);
        lemma_add_mod_noop_right(a as int, b + c + 0x8000_0000_0000_0000_0000_0000_0000_0000int, 0x1_0000_0000_0000_0000_0000_0000_0000_0000int);
    }

    proof fn sum_with_zero(a: Self) {
    }

    proof fn product_commutative(a: Self, b: Self) {
        assert(a * b == b * a) by (nonlinear_arith);
    }

    proof fn product_with_one(a: Self) {
    }

    proof fn product_with_zero(a: Self) {
    }

    proof fn difference_restored(a: Self, b: Self) {
    }

    proof fn quotient_by_self(a: Self) {
        let x: int = a as int;
        if x > 0 {
            assert(x / x == 1) by (nonlinear_arith)
                requires
                    x > 0,
            ;
        } else {
            assert((-x) / x == -1) by (nonlinear_arith)
                requires
                    x < 0,
            ;
        }
    }
}

} // verus!
