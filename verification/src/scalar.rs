//! What a type has to offer to serve as the entries of a vector or a matrix.
use vstd::prelude::*;

verus! {

/// A signed numeric type: it has an additive and a multiplicative identity,
/// the four arithmetic operations, negation, an absolute value, and can be
/// compared for order and for equality.
///
/// Each executable operation comes with two specification functions. One gives
/// the mathematical result (`sum`, `product`, ...). It is total, so that
/// contracts can speak of it on all values. The other (`sum_defined`,
/// `product_defined`, ...) says on which operands the executable operation can
/// be carried out at all: a machine integer cannot hold every sum, and cannot
/// be divided by zero. On those operands the executable operation returns
/// exactly the mathematical result.
pub trait Scalar: Copy {
    /// The additive identity.
    spec fn zero_value() -> Self;

    /// The multiplicative identity.
    spec fn one_value() -> Self;

    /// The mathematical value of `self + rhs`.
    spec fn sum(self, rhs: Self) -> Self;

    /// The mathematical value of `self - rhs`.
    spec fn difference(self, rhs: Self) -> Self;

    /// The mathematical value of `self * rhs`.
    spec fn product(self, rhs: Self) -> Self;

    /// The mathematical value of `self / rhs`.
    spec fn quotient(self, rhs: Self) -> Self;

    /// The mathematical value of `-self`.
    spec fn negation(self) -> Self;

    /// The mathematical value of `|self|`.
    spec fn magnitude(self) -> Self;

    /// Whether `self > rhs`.
    spec fn exceeds(self, rhs: Self) -> bool;

    /// Whether `self == rhs`, as the type itself compares its values.
    spec fn equals(self, rhs: Self) -> bool;

    /// Whether `self + rhs` can be computed.
    spec fn sum_defined(self, rhs: Self) -> bool;

    /// Whether `self - rhs` can be computed.
    spec fn difference_defined(self, rhs: Self) -> bool;

    /// Whether `self * rhs` can be computed.
    spec fn product_defined(self, rhs: Self) -> bool;

    /// Whether `self / rhs` can be computed.
    spec fn quotient_defined(self, rhs: Self) -> bool;

    /// Whether `-self` can be computed.
    spec fn negation_defined(self) -> bool;

    /// Whether `|self|` can be computed.
    spec fn magnitude_defined(self) -> bool;

    /// The additive identity.
    fn zero() -> (r: Self)
        ensures
            r == Self::zero_value(),
    ;

    /// The multiplicative identity.
    fn one() -> (r: Self)
        ensures
            r == Self::one_value(),
    ;

    /// `self + rhs`.
    fn plus(self, rhs: Self) -> (r: Self)
        requires
            self.sum_defined(rhs),
        ensures
            r == self.sum(rhs),
    ;

    /// `self - rhs`.
    fn minus(self, rhs: Self) -> (r: Self)
        requires
            self.difference_defined(rhs),
        ensures
            r == self.difference(rhs),
    ;

    /// `self * rhs`.
    fn times(self, rhs: Self) -> (r: Self)
        requires
            self.product_defined(rhs),
        ensures
            r == self.product(rhs),
    ;

    /// `self / rhs`.
    fn divide(self, rhs: Self) -> (r: Self)
        requires
            self.quotient_defined(rhs),
        ensures
            r == self.quotient(rhs),
    ;

    /// `-self`.
    fn negate(self) -> (r: Self)
        requires
            self.negation_defined(),
        ensures
            r == self.negation(),
    ;

    /// `|self|`.
    fn absolute(self) -> (r: Self)
        requires
            self.magnitude_defined(),
        ensures
            r == self.magnitude(),
    ;

    /// `self > rhs`.
    fn is_greater(self, rhs: Self) -> (r: bool)
        ensures
            r == self.exceeds(rhs),
    ;

    /// `self == rhs`.
    fn is_equal(self, rhs: Self) -> (r: bool)
        ensures
            r == self.equals(rhs),
    ;
}

/// A scalar type whose arithmetic is exact: the mathematical operations obey
/// the identities below, whatever the operands.
///
/// Machine integers qualify, their mathematical operations being arithmetic
/// modulo a power of two. Floating point numbers do not: their addition is not
/// associative.
pub trait ExactScalar: Scalar {
    proof fn sum_commutative(a: Self, b: Self)
        ensures
            a.sum(b) == b.sum(a),
    ;

    proof fn sum_associative(a: Self, b: Self, c: Self)
        ensures
            a.sum(b).sum(c) == a.sum(b.sum(c)),
    ;

    proof fn sum_with_zero(a: Self)
        ensures
            a.sum(Self::zero_value()) == a,
            Self::zero_value().sum(a) == a,
    ;

    proof fn product_commutative(a: Self, b: Self)
        ensures
            a.product(b) == b.product(a),
    ;

    proof fn product_with_one(a: Self)
        ensures
            a.product(Self::one_value()) == a,
            Self::one_value().product(a) == a,
    ;

    proof fn product_with_zero(a: Self)
        ensures
            a.product(Self::zero_value()) == Self::zero_value(),
            Self::zero_value().product(a) == Self::zero_value(),
    ;

    /// Adding back what was subtracted restores the value.
    proof fn difference_restored(a: Self, b: Self)
        ensures
            b.sum(a.difference(b)) == a,
    ;

    /// A value other than zero, divided by itself, is one.
    proof fn quotient_by_self(a: Self)
        requires
            a != Self::zero_value(),
        ensures
            a.quotient(a) == Self::one_value(),
    ;
}

} // verus!
