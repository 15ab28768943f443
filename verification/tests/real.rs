//! The matrix operations over a floating-point scalar with a tolerance of
//! one millionth.

use matrix4::{identity, ortho, DivScalar, Matrix4, Scalar};

#[derive(Clone, Copy, Debug, PartialEq)]
struct Real(f64);

// The specification side of each operation is the operation itself.
impl Scalar for Real {
    fn zero_spec() -> Real {
        Real::zero()
    }

    fn one_spec() -> Real {
        Real::one()
    }

    fn plus_spec(self, rhs: Real) -> Real {
        self.plus(rhs)
    }

    fn times_spec(self, rhs: Real) -> Real {
        self.times(rhs)
    }

    fn fuzzy_eq_spec(self, other: Real) -> bool {
        self.fuzzy_eq(&other)
    }

    fn zero() -> Real {
        Real(0.0)
    }

    fn one() -> Real {
        Real(1.0)
    }

    fn plus(self, rhs: Real) -> Real {
        Real(self.0 + rhs.0)
    }

    fn times(self, rhs: Real) -> Real {
        Real(self.0 * rhs.0)
    }

    fn fuzzy_eq(&self, other: &Real) -> bool {
        (self.0 - other.0).abs() < 1.0e-6
    }
}

impl DivScalar for Real {
    fn minus_spec(self, rhs: Real) -> Real {
        self.minus(rhs)
    }

    fn negate_spec(self) -> Real {
        self.negate()
    }

    fn is_divisor(self) -> bool {
        true
    }

    fn divide_spec(self, rhs: Real) -> Real {
        self.divide(rhs)
    }

    fn from_int_spec(n: i32) -> Real {
        Real::from_int(n)
    }

    fn minus(self, rhs: Real) -> Real {
        Real(self.0 - rhs.0)
    }

    fn negate(self) -> Real {
        Real(-self.0)
    }

    fn divide(self, rhs: Real) -> Real {
        Real(self.0 / rhs.0)
    }

    fn from_int(n: i32) -> Real {
        Real(f64::from(n))
    }
}

fn real_matrix(e: [f64; 16]) -> Matrix4<Real> {
    Matrix4(
        Real(e[0]), Real(e[1]), Real(e[2]), Real(e[3]),
        Real(e[4]), Real(e[5]), Real(e[6]), Real(e[7]),
        Real(e[8]), Real(e[9]), Real(e[10]), Real(e[11]),
        Real(e[12]), Real(e[13]), Real(e[14]), Real(e[15]),
    )
}

fn sample_a() -> Matrix4<Real> {
    real_matrix([
        1.5, -2.0, 0.25, 3.0,
        0.0, 4.5, -1.0, 2.0,
        7.0, 0.5, 1.0, -3.5,
        2.0, 1.0, -0.75, 1.0,
    ])
}

fn sample_b() -> Matrix4<Real> {
    real_matrix([
        0.5, 1.0, -1.5, 2.0,
        3.0, -0.25, 0.0, 1.0,
        -2.0, 2.5, 1.0, 0.0,
        1.0, 0.0, 4.0, -1.0,
    ])
}

fn sample_c() -> Matrix4<Real> {
    real_matrix([
        2.0, 0.0, 1.0, -1.0,
        0.5, 1.5, -2.5, 0.0,
        1.0, -1.0, 0.0, 3.0,
        0.0, 2.0, 0.125, 1.0,
    ])
}

#[test]
fn test_ortho() {
    let (left, right, bottom, top) = (0.0, 1.0, 0.1, 1.0);
    let (near, far) = (-1.0, 1.0);
    let result = ortho(Real(left), Real(right), Real(bottom), Real(top), Real(near), Real(far));
    let expected = real_matrix([
        2.0, 0.0, 0.0, 0.0,
        0.0, 2.22222222, 0.0, 0.0,
        0.0, 0.0, -1.0, 0.0,
        -1.0, -1.22222222, -0.0, 1.0,
    ]);
    println!("result={:?} expected={:?}", result, expected);
    assert!(result.fuzzy_eq(&expected));
}

#[test]
fn ortho_entries_follow_the_formula() {
    // Extents 2, 4 and 2: every quotient is exact.
    let m = ortho(Real(0.0), Real(2.0), Real(0.0), Real(4.0), Real(1.0), Real(3.0));
    let e = m.to_array();
    let expected = [
        1.0, 0.0, 0.0, 0.0,
        0.0, 0.5, 0.0, 0.0,
        0.0, 0.0, -1.0, 0.0,
        -1.0, -1.0, -2.0, 1.0,
    ];
    for n in 0..16 {
        assert_eq!(e[n], Real(expected[n]), "entry {}", n);
    }
}

#[test]
fn ortho_maps_the_box_corners_to_the_cube_corners() {
    let m = ortho(Real(-3.0), Real(5.0), Real(1.0), Real(2.0), Real(0.5), Real(8.5));
    // A row vector (x, y, z, 1) times the matrix, with z = -near and z = -far.
    let apply = |x: f64, y: f64, z: f64| {
        (
            x * m.m11.0 + y * m.m21.0 + z * m.m31.0 + m.m41.0,
            x * m.m12.0 + y * m.m22.0 + z * m.m32.0 + m.m42.0,
            x * m.m13.0 + y * m.m23.0 + z * m.m33.0 + m.m43.0,
        )
    };
    let (x0, y0, z0) = apply(-3.0, 1.0, -0.5);
    let (x1, y1, z1) = apply(5.0, 2.0, -8.5);
    assert!((x0 + 1.0).abs() < 1.0e-9 && (y0 + 1.0).abs() < 1.0e-9 && (z0 + 1.0).abs() < 1.0e-9);
    assert!((x1 - 1.0).abs() < 1.0e-9 && (y1 - 1.0).abs() < 1.0e-9 && (z1 - 1.0).abs() < 1.0e-9);
}

#[test]
fn ortho_of_a_degenerate_box_is_not_rejected() {
    let m = ortho(Real(1.0), Real(1.0), Real(0.0), Real(2.0), Real(0.0), Real(2.0));
    assert!(m.m11.0.is_infinite());
    assert_eq!(m.m22, Real(1.0));
    assert_eq!(m.m33, Real(-1.0));
    assert_eq!(m.m44, Real(1.0));
}

#[test]
fn identity_is_neutral_on_both_sides() {
    let m = sample_a();
    assert!(identity::<Real>().mul(&m).fuzzy_eq(&m));
    assert!(m.mul(&identity::<Real>()).fuzzy_eq(&m));
}

#[test]
fn product_is_associative_within_tolerance() {
    let (a, b, c) = (sample_a(), sample_b(), sample_c());
    let left = a.mul(&b).mul(&c);
    let right = a.mul(&b.mul(&c));
    assert!(left.fuzzy_eq(&right));
}

#[test]
fn product_is_not_commutative() {
    let (a, b) = (sample_a(), sample_b());
    assert!(!a.mul(&b).fuzzy_eq(&b.mul(&a)));
}

#[test]
fn fuzzy_eq_is_reflexive() {
    let m = sample_b();
    assert!(m.fuzzy_eq(&m));
}

#[test]
fn fuzzy_eq_tolerates_noise_below_the_tolerance() {
    let m = sample_a();
    let mut noisy = m;
    noisy.m23 = Real(m.m23.0 + 1.0e-7);
    noisy.m41 = Real(m.m41.0 - 5.0e-7);
    assert!(m.fuzzy_eq(&noisy));
    assert!(noisy.fuzzy_eq(&m));
}

#[test]
fn fuzzy_eq_rejects_a_difference_above_the_tolerance() {
    let m = sample_a();
    for n in 0..16 {
        let mut e = m.to_array();
        e[n] = Real(e[n].0 + 1.0e-5);
        let other = Matrix4(
            e[0], e[1], e[2], e[3], e[4], e[5], e[6], e[7],
            e[8], e[9], e[10], e[11], e[12], e[13], e[14], e[15],
        );
        assert!(!m.fuzzy_eq(&other), "entry {} differs", n);
    }
}

#[test]
fn to_array_returns_the_constructor_arguments() {
    let e = [
        1.0, 2.0, 3.0, 4.0, 5.0, 6.0, 7.0, 8.0,
        9.0, 10.0, 11.0, 12.0, 13.0, 14.0, 15.0, 16.0,
    ];
    let a = real_matrix(e).to_array();
    for n in 0..16 {
        assert_eq!(a[n], Real(e[n]));
    }
}

#[test]
fn mul_s_multiplies_every_entry() {
    let m = sample_c();
    let k = Real(-2.5);
    let scaled = m.mul_s(k).to_array();
    let plain = m.to_array();
    for n in 0..16 {
        assert_eq!(scaled[n], Real(plain[n].0 * -2.5));
    }
}

#[test]
fn translate_composes_with_a_non_identity_matrix() {
    let m = sample_a();
    let t = m.translate(Real(2.0), Real(-1.0), Real(4.0));
    // The first three rows are those of `m`.
    assert!(t.m11.fuzzy_eq(&m.m11) && t.m12.fuzzy_eq(&m.m12));
    assert!(t.m23.fuzzy_eq(&m.m23) && t.m34.fuzzy_eq(&m.m34));
    // The last row is (2, -1, 4, 1) times `m`, not (2, -1, 4, 1) itself.
    assert_eq!(t.m41, Real(2.0 * 1.5 + -1.0 * 0.0 + 4.0 * 7.0 + 2.0));
    assert_eq!(t.m42, Real(2.0 * -2.0 + -1.0 * 4.5 + 4.0 * 0.5 + 1.0));
    assert_eq!(t.m43, Real(2.0 * 0.25 + -1.0 * -1.0 + 4.0 * 1.0 + -0.75));
    assert_eq!(t.m44, Real(2.0 * 3.0 + -1.0 * 2.0 + 4.0 * -3.5 + 1.0));
}

#[test]
fn translate_of_the_identity_shows_the_offset_in_row_four() {
    let t = identity::<Real>().translate(Real(3.0), Real(4.0), Real(5.0));
    let expected = real_matrix([
        1.0, 0.0, 0.0, 0.0,
        0.0, 1.0, 0.0, 0.0,
        0.0, 0.0, 1.0, 0.0,
        3.0, 4.0, 5.0, 1.0,
    ]);
    assert!(t.fuzzy_eq(&expected));
}

#[test]
fn scale_touches_only_three_diagonal_entries() {
    let m = sample_a();
    let s = m.scale(Real(2.0), Real(3.0), Real(4.0)).to_array();
    let e = m.to_array();
    for n in 0..16 {
        let factor = match n {
            0 => 2.0,
            5 => 3.0,
            10 => 4.0,
            _ => 1.0,
        };
        assert_eq!(s[n], Real(e[n].0 * factor));
    }
}
