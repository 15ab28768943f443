//! The matrix type and the operations on it.

use vstd::prelude::*;
use crate::scalar::{DivScalar, Scalar};

verus! {

/// A 4x4 matrix. Field `m_rc` is the entry in row `r`, column `c`, both
/// counted from 1. Any sixteen scalars form a valid matrix.
#[derive(Clone, Copy, Debug)]
pub struct Matrix4<T> {
    pub m11: T, pub m12: T, pub m13: T, pub m14: T,
    pub m21: T, pub m22: T, pub m23: T, pub m24: T,
    pub m31: T, pub m32: T, pub m33: T, pub m34: T,
    pub m41: T, pub m42: T, pub m43: T, pub m44: T,
}

/// Builds a matrix from its sixteen entries in row-major reading order.
#[allow(non_snake_case)]
pub fn Matrix4<T: Scalar>(
    m11: T, m12: T, m13: T, m14: T,
    m21: T, m22: T, m23: T, m24: T,
    m31: T, m32: T, m33: T, m34: T,
    m41: T, m42: T, m43: T, m44: T,
) -> (r: Matrix4<T>)
    ensures
        r == (Matrix4 {
            m11, m12, m13, m14,
            m21, m22, m23, m24,
            m31, m32, m33, m34,
            m41, m42, m43, m44,
        }),
{
    Matrix4 {
        m11, m12, m13, m14,
        m21, m22, m23, m24,
        m31, m32, m33, m34,
        m41, m42, m43, m44,
    }
}

/// The identity matrix: ones on the main diagonal, zeros elsewhere.
pub open spec fn identity_spec<T: Scalar>() -> Matrix4<T> {
    Matrix4 {
        m11: T::one_spec(), m12: T::zero_spec(), m13: T::zero_spec(), m14: T::zero_spec(),
        m21: T::zero_spec(), m22: T::one_spec(), m23: T::zero_spec(), m24: T::zero_spec(),
        m31: T::zero_spec(), m32: T::zero_spec(), m33: T::one_spec(), m34: T::zero_spec(),
        m41: T::zero_spec(), m42: T::zero_spec(), m43: T::zero_spec(), m44: T::one_spec(),
    }
}

/// Returns the identity matrix, built from the scalar's own zero and one.
pub fn identity<T: Scalar>() -> (r: Matrix4<T>)
    ensures
        r == identity_spec::<T>(),
{
    let o: T = T::zero();
    let i: T = T::one();
    Matrix4(i, o, o, o, o, i, o, o, o, o, i, o, o, o, o, i)
}


/// The orthographic projection that maps the box
/// `[left, right] x [bottom, top] x [near, far]` onto the cube `[-1, 1]^3`,
/// with `near` and `far` measured along the negative z axis.
pub open spec fn ortho_spec<T: DivScalar>(
    left: T,
    right: T,
    bottom: T,
    top: T,
    near: T,
    far: T,
) -> Matrix4<T> {
    let two = T::from_int_spec(2);
    let o = T::zero_spec();
    let width = right.minus_spec(left);
    let height = top.minus_spec(bottom);
    let depth = far.minus_spec(near);
    Matrix4 {
        m11: two.divide_spec(width), m12: o, m13: o, m14: o,
        m21: o, m22: two.divide_spec(height), m23: o, m24: o,
        m31: o, m32: o, m33: two.negate_spec().divide_spec(depth), m34: o,
        m41: right.plus_spec(left).divide_spec(width).negate_spec(),
        m42: top.plus_spec(bottom).divide_spec(height).negate_spec(),
        m43: far.plus_spec(near).divide_spec(depth).negate_spec(),
        m44: T::one_spec(),
    }
}

/// Builds the orthographic projection for the given box.
///
/// The three extents `right - left`, `top - bottom` and `far - near` are used
/// as divisors without any test of their own, so the caller has to hand in a
/// box for which the scalar type can divide by them. For a type whose division
/// is total the condition is empty and a degenerate box simply yields whatever
/// that division yields.
pub fn ortho<T: DivScalar>(left: T, right: T, bottom: T, top: T, near: T, far: T) -> (r: Matrix4<T>)
    requires
        right.minus_spec(left).is_divisor(),
        top.minus_spec(bottom).is_divisor(),
        far.minus_spec(near).is_divisor(),
    ensures
        r == ortho_spec(left, right, bottom, top, near, far),
{
    let two: T = T::from_int(2);
    let i: T = T::one();
    let o: T = T::zero();

    let tx = right.plus(left).divide(right.minus(left)).negate();
    let ty = top.plus(bottom).divide(top.minus(bottom)).negate();
    let tz = far.plus(near).divide(far.minus(near)).negate();

    Matrix4(
        two.divide(right.minus(left)), o, o, o,
        o, two.divide(top.minus(bottom)), o, o,
        o, o, two.negate().divide(far.minus(near)), o,
        tx, ty, tz, i,
    )
}

/// The sum of four scalars, added from left to right.
pub open spec fn sum4<T: Scalar>(a: T, b: T, c: T, d: T) -> T {
    a.plus_spec(b).plus_spec(c).plus_spec(d)
}

/// The sum of the four products `a1*b1`, `a2*b2`, `a3*b3`, `a4*b4`, added
/// from left to right.
pub open spec fn dot4<T: Scalar>(a1: T, b1: T, a2: T, b2: T, a3: T, b3: T, a4: T, b4: T) -> T {
    sum4(a1.times_spec(b1), a2.times_spec(b2), a3.times_spec(b3), a4.times_spec(b4))
}

/// Computes the sum of four products, multiplying pair by pair and adding
/// from left to right.
fn dot<T: Scalar>(a1: T, b1: T, a2: T, b2: T, a3: T, b3: T, a4: T, b4: T) -> (r: T)
    ensures
        r == dot4(a1, b1, a2, b2, a3, b3, a4, b4),
{
    a1.times(b1).plus(a2.times(b2)).plus(a3.times(b3)).plus(a4.times(b4))
}

impl<T: Scalar> View for Matrix4<T> {
    type V = Seq<T>;

    /// The sixteen entries in row-major order.
    open spec fn view(&self) -> Seq<T> {
        Seq::new(16, |n: int| self.at(n / 4, n % 4))
    }
}

impl<T: Scalar> Matrix4<T> {
    /// The entry in row `i`, column `j`, both counted from 0.
    pub open spec fn at(self, i: int, j: int) -> T {
        if i == 0 {
            if j == 0 { self.m11 } else if j == 1 { self.m12 } else if j == 2 { self.m13 } else { self.m14 }
        } else if i == 1 {
            if j == 0 { self.m21 } else if j == 1 { self.m22 } else if j == 2 { self.m23 } else { self.m24 }
        } else if i == 2 {
            if j == 0 { self.m31 } else if j == 1 { self.m32 } else if j == 2 { self.m33 } else { self.m34 }
        } else {
            if j == 0 { self.m41 } else if j == 1 { self.m42 } else if j == 2 { self.m43 } else { self.m44 }
        }
    }

    /// Row `i` of `m` times column `j` of `self`, both counted from 0.
    pub open spec fn product_entry(self, m: Self, i: int, j: int) -> T {
        dot4(
            m.at(i, 0), self.at(0, j),
            m.at(i, 1), self.at(1, j),
            m.at(i, 2), self.at(2, j),
            m.at(i, 3), self.at(3, j),
        )
    }

    /// The matrix product `m * self`: the transform of `self` followed by
    /// that of `m`. Entry `(r, c)` is row `r` of `m` times column `c` of
    /// `self`.
    pub open spec fn mul_spec(self, m: Self) -> Self {
        Matrix4 {
            m11: dot4(m.m11, self.m11, m.m12, self.m21, m.m13, self.m31, m.m14, self.m41),
            m12: dot4(m.m11, self.m12, m.m12, self.m22, m.m13, self.m32, m.m14, self.m42),
            m13: dot4(m.m11, self.m13, m.m12, self.m23, m.m13, self.m33, m.m14, self.m43),
            m14: dot4(m.m11, self.m14, m.m12, self.m24, m.m13, self.m34, m.m14, self.m44),
            m21: dot4(m.m21, self.m11, m.m22, self.m21, m.m23, self.m31, m.m24, self.m41),
            m22: dot4(m.m21, self.m12, m.m22, self.m22, m.m23, self.m32, m.m24, self.m42),
            m23: dot4(m.m21, self.m13, m.m22, self.m23, m.m23, self.m33, m.m24, self.m43),
            m24: dot4(m.m21, self.m14, m.m22, self.m24, m.m23, self.m34, m.m24, self.m44),
            m31: dot4(m.m31, self.m11, m.m32, self.m21, m.m33, self.m31, m.m34, self.m41),
            m32: dot4(m.m31, self.m12, m.m32, self.m22, m.m33, self.m32, m.m34, self.m42),
            m33: dot4(m.m31, self.m13, m.m32, self.m23, m.m33, self.m33, m.m34, self.m43),
            m34: dot4(m.m31, self.m14, m.m32, self.m24, m.m33, self.m34, m.m34, self.m44),
            m41: dot4(m.m41, self.m11, m.m42, self.m21, m.m43, self.m31, m.m44, self.m41),
            m42: dot4(m.m41, self.m12, m.m42, self.m22, m.m43, self.m32, m.m44, self.m42),
            m43: dot4(m.m41, self.m13, m.m42, self.m23, m.m43, self.m33, m.m44, self.m43),
            m44: dot4(m.m41, self.m14, m.m42, self.m24, m.m43, self.m34, m.m44, self.m44),
        }
    }

    /// Every entry of `self` times `x`.
    pub open spec fn mul_s_spec(self, x: T) -> Self {
        Matrix4 {
            m11: self.m11.times_spec(x),
            m12: self.m12.times_spec(x),
            m13: self.m13.times_spec(x),
            m14: self.m14.times_spec(x),
            m21: self.m21.times_spec(x),
            m22: self.m22.times_spec(x),
            m23: self.m23.times_spec(x),
            m24: self.m24.times_spec(x),
            m31: self.m31.times_spec(x),
            m32: self.m32.times_spec(x),
            m33: self.m33.times_spec(x),
            m34: self.m34.times_spec(x),
            m41: self.m41.times_spec(x),
            m42: self.m42.times_spec(x),
            m43: self.m43.times_spec(x),
            m44: self.m44.times_spec(x),
        }
    }

    /// `self` with its first three diagonal entries multiplied by `x`, `y`
    /// and `z`; every other entry is kept as it is.
    pub open spec fn scale_spec(self, x: T, y: T, z: T) -> Self {
        Matrix4 {
            m11: self.m11.times_spec(x),
            m22: self.m22.times_spec(y),
            m33: self.m33.times_spec(z),
            ..self
        }
    }

    /// The matrix that moves a point by `(x, y, z)`: the identity with its
    /// last row replaced by `(x, y, z, 1)`.
    pub open spec fn translation_spec(x: T, y: T, z: T) -> Self {
        Matrix4 { m41: x, m42: y, m43: z, ..identity_spec::<T>() }
    }

    /// `self` followed by a translation by `(x, y, z)`.
    pub open spec fn translate_spec(self, x: T, y: T, z: T) -> Self {
        self.mul_spec(Self::translation_spec(x, y, z))
    }

    /// Whether all sixteen pairs of corresponding entries are approximately
    /// equal, by the scalar's own comparison.
    pub open spec fn fuzzy_eq_spec(self, other: Self) -> bool {
        &&& self.m11.fuzzy_eq_spec(other.m11)
        &&& self.m12.fuzzy_eq_spec(other.m12)
        &&& self.m13.fuzzy_eq_spec(other.m13)
        &&& self.m14.fuzzy_eq_spec(other.m14)
        &&& self.m21.fuzzy_eq_spec(other.m21)
        &&& self.m22.fuzzy_eq_spec(other.m22)
        &&& self.m23.fuzzy_eq_spec(other.m23)
        &&& self.m24.fuzzy_eq_spec(other.m24)
        &&& self.m31.fuzzy_eq_spec(other.m31)
        &&& self.m32.fuzzy_eq_spec(other.m32)
        &&& self.m33.fuzzy_eq_spec(other.m33)
        &&& self.m34.fuzzy_eq_spec(other.m34)
        &&& self.m41.fuzzy_eq_spec(other.m41)
        &&& self.m42.fuzzy_eq_spec(other.m42)
        &&& self.m43.fuzzy_eq_spec(other.m43)
        &&& self.m44.fuzzy_eq_spec(other.m44)
    }

    /// Compares two matrices entry by entry with the scalar's approximate
    /// equality.
    pub fn fuzzy_eq(&self, other: &Matrix4<T>) -> (b: bool)
        ensures
            b == self.fuzzy_eq_spec(*other),
    {
        self.m11.fuzzy_eq(&other.m11)
            && self.m12.fuzzy_eq(&other.m12)
            && self.m13.fuzzy_eq(&other.m13)
            && self.m14.fuzzy_eq(&other.m14)
            && self.m21.fuzzy_eq(&other.m21)
            && self.m22.fuzzy_eq(&other.m22)
            && self.m23.fuzzy_eq(&other.m23)
            && self.m24.fuzzy_eq(&other.m24)
            && self.m31.fuzzy_eq(&other.m31)
            && self.m32.fuzzy_eq(&other.m32)
            && self.m33.fuzzy_eq(&other.m33)
            && self.m34.fuzzy_eq(&other.m34)
            && self.m41.fuzzy_eq(&other.m41)
            && self.m42.fuzzy_eq(&other.m42)
            && self.m43.fuzzy_eq(&other.m43)
            && self.m44.fuzzy_eq(&other.m44)
    }

    /// Multiplies `m` by `self`: the result applies the transform of `self`
    /// first and that of `m` after it. Each entry is the sum of four products,
    /// added from left to right.
    pub fn mul(&self, m: &Matrix4<T>) -> (r: Matrix4<T>)
        ensures
            r == self.mul_spec(*m),
    {
        Matrix4(
            dot(m.m11, self.m11, m.m12, self.m21, m.m13, self.m31, m.m14, self.m41),
            dot(m.m11, self.m12, m.m12, self.m22, m.m13, self.m32, m.m14, self.m42),
            dot(m.m11, self.m13, m.m12, self.m23, m.m13, self.m33, m.m14, self.m43),
            dot(m.m11, self.m14, m.m12, self.m24, m.m13, self.m34, m.m14, self.m44),
            dot(m.m21, self.m11, m.m22, self.m21, m.m23, self.m31, m.m24, self.m41),
            dot(m.m21, self.m12, m.m22, self.m22, m.m23, self.m32, m.m24, self.m42),
            dot(m.m21, self.m13, m.m22, self.m23, m.m23, self.m33, m.m24, self.m43),
            dot(m.m21, self.m14, m.m22, self.m24, m.m23, self.m34, m.m24, self.m44),
            dot(m.m31, self.m11, m.m32, self.m21, m.m33, self.m31, m.m34, self.m41),
            dot(m.m31, self.m12, m.m32, self.m22, m.m33, self.m32, m.m34, self.m42),
            dot(m.m31, self.m13, m.m32, self.m23, m.m33, self.m33, m.m34, self.m43),
            dot(m.m31, self.m14, m.m32, self.m24, m.m33, self.m34, m.m34, self.m44),
            dot(m.m41, self.m11, m.m42, self.m21, m.m43, self.m31, m.m44, self.m41),
            dot(m.m41, self.m12, m.m42, self.m22, m.m43, self.m32, m.m44, self.m42),
            dot(m.m41, self.m13, m.m42, self.m23, m.m43, self.m33, m.m44, self.m43),
            dot(m.m41, self.m14, m.m42, self.m24, m.m43, self.m34, m.m44, self.m44),
        )
    }

    /// Multiplies every entry by `x`.
    pub fn mul_s(&self, x: T) -> (r: Matrix4<T>)
        ensures
            r == self.mul_s_spec(x),
            forall|n: int| 0 <= n < 16 ==> #[trigger] r@[n] == self@[n].times_spec(x),
    {
        Matrix4(
            self.m11.times(x), self.m12.times(x), self.m13.times(x), self.m14.times(x),
            self.m21.times(x), self.m22.times(x), self.m23.times(x), self.m24.times(x),
            self.m31.times(x), self.m32.times(x), self.m33.times(x), self.m34.times(x),
            self.m41.times(x), self.m42.times(x), self.m43.times(x), self.m44.times(x),
        )
    }

    /// Multiplies the entries `m11`, `m22` and `m33` by `x`, `y` and `z` and
    /// leaves the other thirteen unchanged. This is an entry-wise shortcut,
    /// not a product with a scaling matrix: the two agree only where the
    /// off-diagonal entries in the first three rows and columns are zero.
    pub fn scale(&self, x: T, y: T, z: T) -> (r: Matrix4<T>)
        ensures
            r == self.scale_spec(x, y, z),
    {
        Matrix4(
            self.m11.times(x), self.m12, self.m13, self.m14,
            self.m21, self.m22.times(y), self.m23, self.m24,
            self.m31, self.m32, self.m33.times(z), self.m34,
            self.m41, self.m42, self.m43, self.m44,
        )
    }

    /// The sixteen entries as an array, in the order in which the
    /// constructor takes them.
    pub fn to_array(&self) -> (r: [T; 16])
        ensures
            r@ == self@,
            forall|i: int, j: int| 0 <= i < 4 && 0 <= j < 4 ==> r@[4 * i + j] == #[trigger] self.at(i, j),
    {
        let r: [T; 16] = [
            self.m11, self.m12, self.m13, self.m14,
            self.m21, self.m22, self.m23, self.m24,
            self.m31, self.m32, self.m33, self.m34,
            self.m41, self.m42, self.m43, self.m44,
        ];
        assert(r@ =~= self@);
        r
    }

    /// Appends a translation by `(x, y, z)` to `self`: the result applies
    /// `self` first and then moves by `(x, y, z)`.
    pub fn translate(&self, x: T, y: T, z: T) -> (r: Matrix4<T>)
        ensures
            r == self.translate_spec(x, y, z),
    {
        let o: T = T::zero();
        let i: T = T::one();
        let matrix = Matrix4(i, o, o, o, o, i, o, o, o, o, i, o, x, y, z, i);
        self.mul(&matrix)
    }
}

} // verus!
