//! The arithmetic that a matrix entry has to offer.

use vstd::prelude::*;

verus! {

/// A scalar with addition, multiplication, their two identities and an
/// approximate comparison.
///
/// Each operation comes as a pair: a specification function that says what the
/// operation means for this type, and an executable method that computes it.
/// How a type rounds, wraps or tolerates noise is its own business; the matrix
/// code relies on nothing but these pairs.
pub trait Scalar: Copy + Sized {
    /// The additive identity.
    spec fn zero_spec() -> Self;

    /// The multiplicative identity.
    spec fn one_spec() -> Self;

    /// The sum `self + rhs`.
    spec fn plus_spec(self, rhs: Self) -> Self;

    /// The product `self * rhs`.
    spec fn times_spec(self, rhs: Self) -> Self;

    /// Whether `self` and `other` are equal up to the type's own tolerance.
    spec fn fuzzy_eq_spec(self, other: Self) -> bool;

    fn zero() -> (r: Self)
        ensures
            r == Self::zero_spec(),
    ;

    fn one() -> (r: Self)
        ensures
            r == Self::one_spec(),
    ;

    fn plus(self, rhs: Self) -> (r: Self)
        ensures
            r == self.plus_spec(rhs),
    ;

    fn times(self, rhs: Self) -> (r: Self)
        ensures
            r == self.times_spec(rhs),
    ;

    fn fuzzy_eq(&self, other: &Self) -> (b: bool)
        ensures
            b == self.fuzzy_eq_spec(*other),
    ;
}

/// A scalar that can also subtract, negate, divide and be made from a small
/// integer: what the projection matrices need beyond [`Scalar`].
pub trait DivScalar: Scalar {
    /// The difference `self - rhs`.
    spec fn minus_spec(self, rhs: Self) -> Self;

    /// The negation `-self`.
    spec fn negate_spec(self) -> Self;

    /// Whether dividing by `self` is defined for this type. A type whose
    /// division never fails, whatever the divisor, answers `true` throughout.
    spec fn is_divisor(self) -> bool;

    /// The quotient `self / rhs`, meaningful where `rhs.is_divisor()`.
    spec fn divide_spec(self, rhs: Self) -> Self;

    /// The scalar that stands for the integer `n`.
    spec fn from_int_spec(n: i32) -> Self;

    fn minus(self, rhs: Self) -> (r: Self)
        ensures
            r == self.minus_spec(rhs),
    ;

    fn negate(self) -> (r: Self)
        ensures
            r == self.negate_spec(),
    ;

    fn divide(self, rhs: Self) -> (r: Self)
        requires
            rhs.is_divisor(),
        ensures
            r == self.divide_spec(rhs),
    ;

    fn from_int(n: i32) -> (r: Self)
        ensures
            r == Self::from_int_spec(n),
    ;
}

/// A scalar whose approximate equality holds between every value and itself.
pub trait ReflexiveEq: Scalar {
    proof fn fuzzy_eq_reflexive(a: Self)
        ensures
            a.fuzzy_eq_spec(a),
    ;
}

/// A scalar whose sums and products are exact in the sense of a ring: they
/// associate, sums commute, products distribute over sums, and zero and one
/// behave as identities. Rounding arithmetic does not qualify; wrapping and
/// unbounded integer arithmetic do.
pub trait Ring: Scalar {
    proof fn plus_commutes(a: Self, b: Self)
        ensures
            a.plus_spec(b) == b.plus_spec(a),
    ;

    proof fn plus_associates(a: Self, b: Self, c: Self)
        ensures
            a.plus_spec(b).plus_spec(c) == a.plus_spec(b.plus_spec(c)),
    ;

    proof fn times_associates(a: Self, b: Self, c: Self)
        ensures
            a.times_spec(b).times_spec(c) == a.times_spec(b.times_spec(c)),
    ;

    proof fn times_distributes(a: Self, b: Self, c: Self)
        ensures
            a.times_spec(b.plus_spec(c)) == a.times_spec(b).plus_spec(a.times_spec(c)),
            b.plus_spec(c).times_spec(a) == b.times_spec(a).plus_spec(c.times_spec(a)),
    ;

    proof fn zero_is_neutral(a: Self)
        ensures
            Self::zero_spec().plus_spec(a) == a,
            a.plus_spec(Self::zero_spec()) == a,
    ;

    proof fn one_is_neutral(a: Self)
        ensures
            Self::one_spec().times_spec(a) == a,
            a.times_spec(Self::one_spec()) == a,
    ;

    proof fn zero_absorbs(a: Self)
        ensures
            Self::zero_spec().times_spec(a) == Self::zero_spec(),
            a.times_spec(Self::zero_spec()) == Self::zero_spec(),
    ;
}

} // verus!
