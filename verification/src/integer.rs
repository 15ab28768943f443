//! `i64` as a scalar. Sums, differences, products and negations wrap around
//! on overflow, so they never fail; division truncates towards zero and asks
//! for a divisor other than zero. Approximate equality is plain equality.

use vstd::prelude::*;
use vstd::arithmetic::div_mod::{lemma_add_mod_noop, lemma_mul_mod_noop_general};
use vstd::arithmetic::mul::{lemma_mul_is_associative, lemma_mul_is_distributive_add};
use vstd::arithmetic::mul::lemma_mul_is_distributive_add_other_way;
use crate::scalar::{DivScalar, ReflexiveEq, Ring, Scalar};

verus! {

/// The `i64` that differs from `x` by a multiple of 2^64.
pub open spec fn wrap(x: int) -> i64 {
    let r: int = x % 0x1_0000_0000_0000_0000;
    if r > i64::MAX {
        (r - 0x1_0000_0000_0000_0000) as i64
    } else {
        r as i64
    }
}

/// The quotient of `x` by `d`, rounded towards zero.
pub open spec fn trunc_div(x: int, d: int) -> int
    recommends
        d != 0,
{
    if x >= 0 && d > 0 {
        x / d
    } else if x < 0 && d < 0 {
        (-x) / (-d)
    } else if x < 0 {
        -((-x) / d)
    } else {
        -(x / (-d))
    }
}

/// `num::Zero::zero` at `i64`. The crate defines it as the literal `0`.
#[verifier::external_body]
fn zero_i64() -> (r: i64)
    ensures
        r == 0,
{
    num::Zero::zero()
}

/// `num::One::one` at `i64`. The crate defines it as the literal `1`.
#[verifier::external_body]
fn one_i64() -> (r: i64)
    ensures
        r == 1,
{
    num::One::one()
}

/// `num::cast` from `i32` to `i64`. The crate answers `Some` of the plain
/// integer conversion whenever the target is at least as wide as the source,
/// which it is here; so every `i32` comes back, unchanged in value.
#[verifier::external_body]
fn cast_i32_i64(n: i32) -> (r: Option<i64>)
    ensures
        r == Some(n as i64),
{
    num::cast(n)
}

impl Scalar for i64 {
    open spec fn zero_spec() -> i64 {
        0
    }

    open spec fn one_spec() -> i64 {
        1
    }

    open spec fn plus_spec(self, rhs: i64) -> i64 {
        wrap(self + rhs)
    }

    open spec fn times_spec(self, rhs: i64) -> i64 {
        wrap(self * rhs)
    }

    open spec fn fuzzy_eq_spec(self, other: i64) -> bool {
        self == other
    }

    fn zero() -> (r: i64) {
        zero_i64()
    }

    fn one() -> (r: i64) {
        one_i64()
    }

    fn plus(self, rhs: i64) -> (r: i64) {
        self.wrapping_add(rhs)
    }

    fn times(self, rhs: i64) -> (r: i64) {
        self.wrapping_mul(rhs)
    }

    fn fuzzy_eq(&self, other: &i64) -> (b: bool) {
        *self == *other
    }
}

impl DivScalar for i64 {
    open spec fn minus_spec(self, rhs: i64) -> i64 {
        wrap(self - rhs)
    }

    open spec fn negate_spec(self) -> i64 {
        wrap(-self)
    }

    open spec fn is_divisor(self) -> bool {
        self != 0
    }

    open spec fn divide_spec(self, rhs: i64) -> i64 {
        wrap(trunc_div(self as int, rhs as int))
    }

    open spec fn from_int_spec(n: i32) -> i64 {
        n as i64
    }

    fn minus(self, rhs: i64) -> (r: i64) {
        self.wrapping_sub(rhs)
    }

    fn negate(self) -> (r: i64) {
        0i64.wrapping_sub(self)
    }

    fn divide(self, rhs: i64) -> (r: i64) {
        match self.checked_div(rhs) {
            Some(q) => q,
            // Only `i64::MIN / -1` leaves the range; it wraps to `i64::MIN`.
            None => i64::MIN,
        }
    }

    fn from_int(n: i32) -> (r: i64) {
        cast_i32_i64(n).unwrap()
    }
}

/// Two integers with the same remainder modulo 2^64 wrap to the same `i64`,
/// and wrapping keeps the remainder.
proof fn lemma_wrap_congruent(x: int, y: int)
    ensures
        (wrap(x) as int) % 0x1_0000_0000_0000_0000 == x % 0x1_0000_0000_0000_0000,
        x % 0x1_0000_0000_0000_0000 == y % 0x1_0000_0000_0000_0000 ==> wrap(x) == wrap(y),
{
}

/// Wrapping one factor first does not change the wrapped product.
proof fn lemma_wrap_times(x: int, y: int)
    ensures
        wrap(wrap(x) * y) == wrap(x * y),
        wrap(y * wrap(x)) == wrap(y * x),
{
    let m: int = 0x1_0000_0000_0000_0000;
    lemma_wrap_congruent(x, x);
    lemma_mul_mod_noop_general(wrap(x) as int, y, m);
    lemma_mul_mod_noop_general(x, y, m);
    lemma_mul_mod_noop_general(y, wrap(x) as int, m);
    lemma_mul_mod_noop_general(y, x, m);
    lemma_wrap_congruent(wrap(x) * y, x * y);
    lemma_wrap_congruent(y * wrap(x), y * x);
}

/// Wrapping the terms first does not change the wrapped sum.
proof fn lemma_wrap_plus(x: int, y: int)
    ensures
        wrap(wrap(x) + wrap(y)) == wrap(x + y),
        wrap(wrap(x) + y) == wrap(x + y),
        wrap(x + wrap(y)) == wrap(x + y),
{
    let m: int = 0x1_0000_0000_0000_0000;
    lemma_wrap_congruent(x, x);
    lemma_wrap_congruent(y, y);
    lemma_add_mod_noop(wrap(x) as int, wrap(y) as int, m);
    lemma_add_mod_noop(x, y, m);
    lemma_add_mod_noop(wrap(x) as int, y, m);
    lemma_add_mod_noop(x, wrap(y) as int, m);
    lemma_wrap_congruent(wrap(x) + wrap(y), x + y);
    lemma_wrap_congruent(wrap(x) + y, x + y);
    lemma_wrap_congruent(x + wrap(y), x + y);
}

impl ReflexiveEq for i64 {
    proof fn fuzzy_eq_reflexive(a: i64) {
    }
}

impl Ring for i64 {
    proof fn plus_commutes(a: i64, b: i64) {
    }

    proof fn plus_associates(a: i64, b: i64, c: i64) {
        lemma_wrap_plus(a + b, c as int);
        lemma_wrap_plus(a as int, b + c);
    }

    proof fn times_associates(a: i64, b: i64, c: i64) {
        lemma_wrap_times(a * b, c as int);
        lemma_wrap_times(b * c, a as int);
        lemma_mul_is_associative(a as int, b as int, c as int);
    }

    proof fn times_distributes(a: i64, b: i64, c: i64) {
        lemma_wrap_times(b + c, a as int);
        lemma_mul_is_distributive_add(a as int, b as int, c as int);
        lemma_mul_is_distributive_add_other_way(a as int, b as int, c as int);
        lemma_wrap_plus(a * b, a * c);
        lemma_wrap_plus(b * a, c * a);
    }

    proof fn zero_is_neutral(a: i64) {
    }

    proof fn one_is_neutral(a: i64) {
    }

    proof fn zero_absorbs(a: i64) {
    }
}

} // verus!
