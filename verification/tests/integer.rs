//! The matrix operations over `i64`, where every result is exact.

use matrix4::{identity, ortho, DivScalar, Matrix4, Scalar};

fn from_rows(e: [i64; 16]) -> Matrix4<i64> {
    Matrix4(
        e[0], e[1], e[2], e[3], e[4], e[5], e[6], e[7],
        e[8], e[9], e[10], e[11], e[12], e[13], e[14], e[15],
    )
}

fn a() -> Matrix4<i64> {
    from_rows([1, 2, 3, 4, 5, 6, 7, 8, 9, 10, 11, 12, 13, 14, 15, 16])
}

fn b() -> Matrix4<i64> {
    from_rows([2, 0, -1, 3, 1, 1, 0, -2, 0, 4, 5, 1, -3, 2, 1, 0])
}

fn c() -> Matrix4<i64> {
    from_rows([0, 1, 0, 2, -1, 3, 1, 0, 2, 2, -2, 1, 1, 0, 0, 5])
}

#[test]
fn i64_identity_has_ones_on_the_diagonal() {
    assert_eq!(
        identity::<i64>().to_array(),
        [1, 0, 0, 0, 0, 1, 0, 0, 0, 0, 1, 0, 0, 0, 0, 1]
    );
}

#[test]
fn i64_zero_and_one() {
    assert_eq!(<i64 as Scalar>::zero(), 0);
    assert_eq!(<i64 as Scalar>::one(), 1);
    assert_eq!(<i64 as DivScalar>::from_int(2), 2);
    assert_eq!(<i64 as DivScalar>::from_int(-7), -7);
    assert_eq!(<i64 as DivScalar>::from_int(i32::MIN), -2147483648);
}

#[test]
fn i64_constructor_keeps_row_major_order() {
    let m = a();
    assert_eq!((m.m11, m.m12, m.m13, m.m14), (1, 2, 3, 4));
    assert_eq!((m.m21, m.m22, m.m23, m.m24), (5, 6, 7, 8));
    assert_eq!((m.m31, m.m32, m.m33, m.m34), (9, 10, 11, 12));
    assert_eq!((m.m41, m.m42, m.m43, m.m44), (13, 14, 15, 16));
    assert_eq!(m.to_array(), [1, 2, 3, 4, 5, 6, 7, 8, 9, 10, 11, 12, 13, 14, 15, 16]);
}

#[test]
fn i64_mul_applies_the_argument_after_the_receiver() {
    // a.mul(&b) is the matrix product b * a.
    let p = a().mul(&b());
    assert_eq!(
        p.to_array(),
        [32, 36, 40, 44, -20, -20, -20, -20, 78, 88, 98, 108, 16, 16, 16, 16]
    );
    let q = b().mul(&a());
    assert_eq!(
        q.to_array(),
        [-8, 22, 18, 2, -8, 50, 38, 10, -8, 78, 58, 18, -8, 106, 78, 26]
    );
}

#[test]
fn i64_identity_law_is_exact() {
    let m = b();
    assert_eq!(identity::<i64>().mul(&m).to_array(), m.to_array());
    assert_eq!(m.mul(&identity::<i64>()).to_array(), m.to_array());
    assert!(identity::<i64>().mul(&m).fuzzy_eq(&m));
}

#[test]
fn i64_product_is_associative() {
    let left = a().mul(&b()).mul(&c());
    let right = a().mul(&b().mul(&c()));
    assert_eq!(left.to_array(), right.to_array());
    assert!(left.fuzzy_eq(&right));
}

#[test]
fn i64_product_wraps_around() {
    let big = from_rows([i64::MAX, 0, 0, 0, 0, 1, 0, 0, 0, 0, 1, 0, 0, 0, 0, 1]);
    let two = from_rows([2, 0, 0, 0, 0, 1, 0, 0, 0, 0, 1, 0, 0, 0, 0, 1]);
    let p = big.mul(&two);
    assert_eq!(p.m11, -2);
    assert_eq!(big.mul_s(2).m11, -2);
    assert_eq!(i64::MAX.plus(1), i64::MIN);
    assert_eq!(i64::MIN.negate(), i64::MIN);
    assert_eq!(i64::MIN.minus(1), i64::MAX);
}

#[test]
fn i64_mul_s_multiplies_every_entry() {
    let m = b();
    let s = m.mul_s(-3).to_array();
    let e = m.to_array();
    for n in 0..16 {
        assert_eq!(s[n], e[n] * -3);
    }
}

#[test]
fn i64_scale_is_entry_wise() {
    let s = a().scale(2, 3, 4);
    assert_eq!(
        s.to_array(),
        [2, 2, 3, 4, 5, 18, 7, 8, 9, 10, 44, 12, 13, 14, 15, 16]
    );
}

#[test]
fn i64_translate_adds_through_composition() {
    let t = a().translate(2, -1, 3);
    assert_eq!(
        t.to_array(),
        [1, 2, 3, 4, 5, 6, 7, 8, 9, 10, 11, 12, 37, 42, 47, 52]
    );
    let u = identity::<i64>().translate(2, -1, 3);
    assert_eq!(u.to_array(), [1, 0, 0, 0, 0, 1, 0, 0, 0, 0, 1, 0, 2, -1, 3, 1]);
}

#[test]
fn i64_fuzzy_eq_is_exact_equality() {
    let m = a();
    assert!(m.fuzzy_eq(&m));
    for n in 0..16 {
        let mut e = m.to_array();
        e[n] += 1;
        assert!(!m.fuzzy_eq(&from_rows(e)));
    }
}

#[test]
fn i64_ortho_divides_with_truncation() {
    // Extents 2, 1 and 4.
    let m = ortho::<i64>(-1, 1, 0, 1, 1, 5);
    assert_eq!(
        m.to_array(),
        [1, 0, 0, 0, 0, 2, 0, 0, 0, 0, 0, 0, 0, -1, -1, 1]
    );
    let n = ortho::<i64>(0, 2, 0, 2, 0, 2);
    assert_eq!(
        n.to_array(),
        [1, 0, 0, 0, 0, 1, 0, 0, 0, 0, -1, 0, -1, -1, -1, 1]
    );
}

#[test]
fn i64_divide_truncates_towards_zero() {
    assert_eq!(7i64.divide(2), 3);
    assert_eq!((-7i64).divide(2), -3);
    assert_eq!(7i64.divide(-2), -3);
    assert_eq!((-7i64).divide(-2), 3);
    assert_eq!(i64::MIN.divide(-1), i64::MIN);
}
