//! What holds of the matrix operations as a whole: the laws of the product,
//! what a translation does to the rows, and how a matrix and its array of
//! entries correspond.

use vstd::prelude::*;
use crate::matrix::{dot4, identity_spec, sum4, Matrix4};
use crate::scalar::{ReflexiveEq, Ring, Scalar};

verus! {

/// Two matrices with the same entry at every position are the same matrix.
pub proof fn lemma_equal_entries<T: Scalar>(a: Matrix4<T>, b: Matrix4<T>)
    requires
        forall|i: int, j: int| 0 <= i < 4 && 0 <= j < 4 ==> #[trigger] a.at(i, j) == b.at(i, j),
    ensures
        a == b,
{
    assert(a.at(0, 0) == b.at(0, 0));
    assert(a.at(0, 1) == b.at(0, 1));
    assert(a.at(0, 2) == b.at(0, 2));
    assert(a.at(0, 3) == b.at(0, 3));
    assert(a.at(1, 0) == b.at(1, 0));
    assert(a.at(1, 1) == b.at(1, 1));
    assert(a.at(1, 2) == b.at(1, 2));
    assert(a.at(1, 3) == b.at(1, 3));
    assert(a.at(2, 0) == b.at(2, 0));
    assert(a.at(2, 1) == b.at(2, 1));
    assert(a.at(2, 2) == b.at(2, 2));
    assert(a.at(2, 3) == b.at(2, 3));
    assert(a.at(3, 0) == b.at(3, 0));
    assert(a.at(3, 1) == b.at(3, 1));
    assert(a.at(3, 2) == b.at(3, 2));
    assert(a.at(3, 3) == b.at(3, 3));
}

/// Entry `(i, j)` of the product that `mul` returns is row `i` of its
/// argument times column `j` of its receiver.
pub proof fn lemma_mul_entries<T: Scalar>(a: Matrix4<T>, m: Matrix4<T>)
    ensures
        forall|i: int, j: int|
            0 <= i < 4 && 0 <= j < 4 ==> #[trigger] a.mul_spec(m).at(i, j) == a.product_entry(
                m,
                i,
                j,
            ),
{
}

/// Two matrices are approximately equal exactly when their entries are, at
/// every position.
pub proof fn lemma_fuzzy_eq_entries<T: Scalar>(a: Matrix4<T>, b: Matrix4<T>)
    ensures
        a.fuzzy_eq_spec(b) <==> forall|i: int, j: int|
            0 <= i < 4 && 0 <= j < 4 ==> (#[trigger] a.at(i, j)).fuzzy_eq_spec(b.at(i, j)),
{
    if forall|i: int, j: int|
        0 <= i < 4 && 0 <= j < 4 ==> (#[trigger] a.at(i, j)).fuzzy_eq_spec(b.at(i, j)) {
        assert(a.at(0, 0) == a.m11 && b.at(0, 0) == b.m11);
        assert(a.at(0, 1) == a.m12 && b.at(0, 1) == b.m12);
        assert(a.at(0, 2) == a.m13 && b.at(0, 2) == b.m13);
        assert(a.at(0, 3) == a.m14 && b.at(0, 3) == b.m14);
        assert(a.at(1, 0) == a.m21 && b.at(1, 0) == b.m21);
        assert(a.at(1, 1) == a.m22 && b.at(1, 1) == b.m22);
        assert(a.at(1, 2) == a.m23 && b.at(1, 2) == b.m23);
        assert(a.at(1, 3) == a.m24 && b.at(1, 3) == b.m24);
        assert(a.at(2, 0) == a.m31 && b.at(2, 0) == b.m31);
        assert(a.at(2, 1) == a.m32 && b.at(2, 1) == b.m32);
        assert(a.at(2, 2) == a.m33 && b.at(2, 2) == b.m33);
        assert(a.at(2, 3) == a.m34 && b.at(2, 3) == b.m34);
        assert(a.at(3, 0) == a.m41 && b.at(3, 0) == b.m41);
        assert(a.at(3, 1) == a.m42 && b.at(3, 1) == b.m42);
        assert(a.at(3, 2) == a.m43 && b.at(3, 2) == b.m43);
        assert(a.at(3, 3) == a.m44 && b.at(3, 3) == b.m44);
    }
}

/// `(a + b) + (c + d)` is `(a + c) + (b + d)`.
proof fn lemma_interchange<T: Ring>(a: T, b: T, c: T, d: T)
    ensures
        a.plus_spec(b).plus_spec(c.plus_spec(d)) == a.plus_spec(c).plus_spec(b.plus_spec(d)),
{
    T::plus_associates(a, b, c.plus_spec(d));
    T::plus_associates(b, c, d);
    T::plus_commutes(b, c);
    T::plus_associates(c, b, d);
    T::plus_associates(a, c, b.plus_spec(d));
}

/// The sum of four scalars, added in two pairs.
spec fn pairs<T: Scalar>(a: T, b: T, c: T, d: T) -> T {
    a.plus_spec(b).plus_spec(c.plus_spec(d))
}

/// Adding four scalars from left to right is adding them in two pairs.
proof fn lemma_sum4_pairs<T: Ring>(a: T, b: T, c: T, d: T)
    ensures
        sum4(a, b, c, d) == pairs(a, b, c, d),
{
    T::plus_associates(a.plus_spec(b), c, d);
}

/// Adding sixteen scalars row by row is adding them column by column, with
/// every sum of four taken in pairs.
proof fn lemma_pairs_transpose<T: Ring>(x: Matrix4<T>)
    ensures
        pairs(
            pairs(x.m11, x.m12, x.m13, x.m14),
            pairs(x.m21, x.m22, x.m23, x.m24),
            pairs(x.m31, x.m32, x.m33, x.m34),
            pairs(x.m41, x.m42, x.m43, x.m44),
        ) == pairs(
            pairs(x.m11, x.m21, x.m31, x.m41),
            pairs(x.m12, x.m22, x.m32, x.m42),
            pairs(x.m13, x.m23, x.m33, x.m43),
            pairs(x.m14, x.m24, x.m34, x.m44),
        ),
{
    // Rows one and two, then rows three and four, regrouped by column.
    lemma_interchange(
        x.m11.plus_spec(x.m12), x.m13.plus_spec(x.m14),
        x.m21.plus_spec(x.m22), x.m23.plus_spec(x.m24),
    );
    lemma_interchange(x.m11, x.m12, x.m21, x.m22);
    lemma_interchange(x.m13, x.m14, x.m23, x.m24);
    lemma_interchange(
        x.m31.plus_spec(x.m32), x.m33.plus_spec(x.m34),
        x.m41.plus_spec(x.m42), x.m43.plus_spec(x.m44),
    );
    lemma_interchange(x.m31, x.m32, x.m41, x.m42);
    lemma_interchange(x.m33, x.m34, x.m43, x.m44);
    let u = x.m11.plus_spec(x.m21).plus_spec(x.m12.plus_spec(x.m22));
    let v = x.m13.plus_spec(x.m23).plus_spec(x.m14.plus_spec(x.m24));
    let w = x.m31.plus_spec(x.m41).plus_spec(x.m32.plus_spec(x.m42));
    let z = x.m33.plus_spec(x.m43).plus_spec(x.m34.plus_spec(x.m44));
    // The two halves, brought together column by column.
    lemma_interchange(u, v, w, z);
    lemma_interchange(
        x.m11.plus_spec(x.m21), x.m12.plus_spec(x.m22),
        x.m31.plus_spec(x.m41), x.m32.plus_spec(x.m42),
    );
    lemma_interchange(
        x.m13.plus_spec(x.m23), x.m14.plus_spec(x.m24),
        x.m33.plus_spec(x.m43), x.m34.plus_spec(x.m44),
    );
}

/// Adding sixteen scalars row by row is adding them column by column.
proof fn lemma_sum4_transpose<T: Ring>(x: Matrix4<T>)
    ensures
        sum4(
            sum4(x.m11, x.m12, x.m13, x.m14),
            sum4(x.m21, x.m22, x.m23, x.m24),
            sum4(x.m31, x.m32, x.m33, x.m34),
            sum4(x.m41, x.m42, x.m43, x.m44),
        ) == sum4(
            sum4(x.m11, x.m21, x.m31, x.m41),
            sum4(x.m12, x.m22, x.m32, x.m42),
            sum4(x.m13, x.m23, x.m33, x.m43),
            sum4(x.m14, x.m24, x.m34, x.m44),
        ),
{
    lemma_sum4_pairs(x.m11, x.m12, x.m13, x.m14);
    lemma_sum4_pairs(x.m21, x.m22, x.m23, x.m24);
    lemma_sum4_pairs(x.m31, x.m32, x.m33, x.m34);
    lemma_sum4_pairs(x.m41, x.m42, x.m43, x.m44);
    lemma_sum4_pairs(
        sum4(x.m11, x.m12, x.m13, x.m14),
        sum4(x.m21, x.m22, x.m23, x.m24),
        sum4(x.m31, x.m32, x.m33, x.m34),
        sum4(x.m41, x.m42, x.m43, x.m44),
    );
    lemma_pairs_transpose(x);
    lemma_sum4_pairs(x.m11, x.m21, x.m31, x.m41);
    lemma_sum4_pairs(x.m12, x.m22, x.m32, x.m42);
    lemma_sum4_pairs(x.m13, x.m23, x.m33, x.m43);
    lemma_sum4_pairs(x.m14, x.m24, x.m34, x.m44);
    lemma_sum4_pairs(
        sum4(x.m11, x.m21, x.m31, x.m41),
        sum4(x.m12, x.m22, x.m32, x.m42),
        sum4(x.m13, x.m23, x.m33, x.m43),
        sum4(x.m14, x.m24, x.m34, x.m44),
    );
}

/// A factor on either side distributes over a sum of four.
proof fn lemma_times_sum4<T: Ring>(f: T, p: T, q: T, r: T, s: T)
    ensures
        f.times_spec(sum4(p, q, r, s)) == sum4(
            f.times_spec(p),
            f.times_spec(q),
            f.times_spec(r),
            f.times_spec(s),
        ),
        sum4(p, q, r, s).times_spec(f) == sum4(
            p.times_spec(f),
            q.times_spec(f),
            r.times_spec(f),
            s.times_spec(f),
        ),
{
    T::times_distributes(f, p.plus_spec(q).plus_spec(r), s);
    T::times_distributes(f, p.plus_spec(q), r);
    T::times_distributes(f, p, q);
}

/// A row `c` times the columns of `b`, and the result times a column `a`, is
/// `c` times what the rows of `b` give with `a`.
proof fn lemma_dot4_regroups<T: Ring>(
    c1: T, c2: T, c3: T, c4: T,
    b: Matrix4<T>,
    a1: T, a2: T, a3: T, a4: T,
)
    ensures
        dot4(
            c1, dot4(b.m11, a1, b.m12, a2, b.m13, a3, b.m14, a4),
            c2, dot4(b.m21, a1, b.m22, a2, b.m23, a3, b.m24, a4),
            c3, dot4(b.m31, a1, b.m32, a2, b.m33, a3, b.m34, a4),
            c4, dot4(b.m41, a1, b.m42, a2, b.m43, a3, b.m44, a4),
        ) == dot4(
            dot4(c1, b.m11, c2, b.m21, c3, b.m31, c4, b.m41), a1,
            dot4(c1, b.m12, c2, b.m22, c3, b.m32, c4, b.m42), a2,
            dot4(c1, b.m13, c2, b.m23, c3, b.m33, c4, b.m43), a3,
            dot4(c1, b.m14, c2, b.m24, c3, b.m34, c4, b.m44), a4,
        ),
{
    // The sixteen triple products, grouped to the left.
    let x = Matrix4 {
        m11: c1.times_spec(b.m11).times_spec(a1),
        m12: c1.times_spec(b.m12).times_spec(a2),
        m13: c1.times_spec(b.m13).times_spec(a3),
        m14: c1.times_spec(b.m14).times_spec(a4),
        m21: c2.times_spec(b.m21).times_spec(a1),
        m22: c2.times_spec(b.m22).times_spec(a2),
        m23: c2.times_spec(b.m23).times_spec(a3),
        m24: c2.times_spec(b.m24).times_spec(a4),
        m31: c3.times_spec(b.m31).times_spec(a1),
        m32: c3.times_spec(b.m32).times_spec(a2),
        m33: c3.times_spec(b.m33).times_spec(a3),
        m34: c3.times_spec(b.m34).times_spec(a4),
        m41: c4.times_spec(b.m41).times_spec(a1),
        m42: c4.times_spec(b.m42).times_spec(a2),
        m43: c4.times_spec(b.m43).times_spec(a3),
        m44: c4.times_spec(b.m44).times_spec(a4),
    };
    T::times_associates(c1, b.m11, a1);
    T::times_associates(c1, b.m12, a2);
    T::times_associates(c1, b.m13, a3);
    T::times_associates(c1, b.m14, a4);
    T::times_associates(c2, b.m21, a1);
    T::times_associates(c2, b.m22, a2);
    T::times_associates(c2, b.m23, a3);
    T::times_associates(c2, b.m24, a4);
    T::times_associates(c3, b.m31, a1);
    T::times_associates(c3, b.m32, a2);
    T::times_associates(c3, b.m33, a3);
    T::times_associates(c3, b.m34, a4);
    T::times_associates(c4, b.m41, a1);
    T::times_associates(c4, b.m42, a2);
    T::times_associates(c4, b.m43, a3);
    T::times_associates(c4, b.m44, a4);
    lemma_times_sum4(c1, b.m11.times_spec(a1), b.m12.times_spec(a2), b.m13.times_spec(a3), b.m14.times_spec(a4));
    lemma_times_sum4(c2, b.m21.times_spec(a1), b.m22.times_spec(a2), b.m23.times_spec(a3), b.m24.times_spec(a4));
    lemma_times_sum4(c3, b.m31.times_spec(a1), b.m32.times_spec(a2), b.m33.times_spec(a3), b.m34.times_spec(a4));
    lemma_times_sum4(c4, b.m41.times_spec(a1), b.m42.times_spec(a2), b.m43.times_spec(a3), b.m44.times_spec(a4));
    lemma_sum4_transpose(x);
    lemma_times_sum4(a1, c1.times_spec(b.m11), c2.times_spec(b.m21), c3.times_spec(b.m31), c4.times_spec(b.m41));
    lemma_times_sum4(a2, c1.times_spec(b.m12), c2.times_spec(b.m22), c3.times_spec(b.m32), c4.times_spec(b.m42));
    lemma_times_sum4(a3, c1.times_spec(b.m13), c2.times_spec(b.m23), c3.times_spec(b.m33), c4.times_spec(b.m43));
    lemma_times_sum4(a4, c1.times_spec(b.m14), c2.times_spec(b.m24), c3.times_spec(b.m34), c4.times_spec(b.m44));
}

/// One entry of the two ways to multiply three matrices.
proof fn lemma_mul_associative_at<T: Ring>(
    a: Matrix4<T>,
    b: Matrix4<T>,
    c: Matrix4<T>,
    i: int,
    j: int,
)
    requires
        0 <= i < 4,
        0 <= j < 4,
    ensures
        a.mul_spec(b).mul_spec(c).at(i, j) == a.mul_spec(b.mul_spec(c)).at(i, j),
{
    lemma_dot4_regroups(
        c.at(i, 0), c.at(i, 1), c.at(i, 2), c.at(i, 3),
        b,
        a.at(0, j), a.at(1, j), a.at(2, j), a.at(3, j),
    );
}

/// The product is associative: multiplying `a` by `b` and the result by `c`
/// gives the same matrix as multiplying `a` by the product of `b` and `c`.
pub proof fn lemma_mul_associative<T: Ring>(a: Matrix4<T>, b: Matrix4<T>, c: Matrix4<T>)
    ensures
        a.mul_spec(b).mul_spec(c) == a.mul_spec(b.mul_spec(c)),
{
    assert forall|i: int, j: int| 0 <= i < 4 && 0 <= j < 4 implies #[trigger] a.mul_spec(
        b,
    ).mul_spec(c).at(i, j) == a.mul_spec(b.mul_spec(c)).at(i, j) by {
        lemma_mul_associative_at(a, b, c, i, j);
    }
    lemma_equal_entries(a.mul_spec(b).mul_spec(c), a.mul_spec(b.mul_spec(c)));
}

/// A matrix is approximately equal to itself, for every scalar whose own
/// comparison is reflexive.
pub proof fn lemma_fuzzy_eq_reflexive<T: ReflexiveEq>(m: Matrix4<T>)
    ensures
        m.fuzzy_eq_spec(m),
{
    T::fuzzy_eq_reflexive(m.m11);
    T::fuzzy_eq_reflexive(m.m12);
    T::fuzzy_eq_reflexive(m.m13);
    T::fuzzy_eq_reflexive(m.m14);
    T::fuzzy_eq_reflexive(m.m21);
    T::fuzzy_eq_reflexive(m.m22);
    T::fuzzy_eq_reflexive(m.m23);
    T::fuzzy_eq_reflexive(m.m24);
    T::fuzzy_eq_reflexive(m.m31);
    T::fuzzy_eq_reflexive(m.m32);
    T::fuzzy_eq_reflexive(m.m33);
    T::fuzzy_eq_reflexive(m.m34);
    T::fuzzy_eq_reflexive(m.m41);
    T::fuzzy_eq_reflexive(m.m42);
    T::fuzzy_eq_reflexive(m.m43);
    T::fuzzy_eq_reflexive(m.m44);
}

/// The view of a matrix lists the sixteen entries in the order in which the
/// constructor takes them, so the array that `to_array` returns for a
/// freshly built matrix holds the constructor's arguments, in their order.
pub proof fn lemma_view_is_row_major<T: Scalar>(m: Matrix4<T>)
    ensures
        m@ == seq![
            m.m11, m.m12, m.m13, m.m14,
            m.m21, m.m22, m.m23, m.m24,
            m.m31, m.m32, m.m33, m.m34,
            m.m41, m.m42, m.m43, m.m44,
        ],
        forall|i: int, j: int| 0 <= i < 4 && 0 <= j < 4 ==> m@[4 * i + j] == #[trigger] m.at(i, j),
{
    assert(m@ =~= seq![
        m.m11, m.m12, m.m13, m.m14,
        m.m21, m.m22, m.m23, m.m24,
        m.m31, m.m32, m.m33, m.m34,
        m.m41, m.m42, m.m43, m.m44,
    ]);
}

/// Sixteen scalars put into a matrix come back from it as an array in the
/// order in which they went in.
pub proof fn lemma_to_array_round_trip<T: Scalar>(
    m11: T, m12: T, m13: T, m14: T,
    m21: T, m22: T, m23: T, m24: T,
    m31: T, m32: T, m33: T, m34: T,
    m41: T, m42: T, m43: T, m44: T,
)
    ensures
        (Matrix4 {
            m11, m12, m13, m14,
            m21, m22, m23, m24,
            m31, m32, m33, m34,
            m41, m42, m43, m44,
        })@ == seq![
            m11, m12, m13, m14,
            m21, m22, m23, m24,
            m31, m32, m33, m34,
            m41, m42, m43, m44,
        ],
{
    lemma_view_is_row_major(Matrix4 {
        m11, m12, m13, m14,
        m21, m22, m23, m24,
        m31, m32, m33, m34,
        m41, m42, m43, m44,
    });
}

/// Multiplying a matrix by a scalar multiplies each of its sixteen entries,
/// position by position.
pub proof fn lemma_mul_s_entries<T: Scalar>(m: Matrix4<T>, k: T)
    ensures
        forall|n: int| 0 <= n < 16 ==> #[trigger] m.mul_s_spec(k)@[n] == m@[n].times_spec(k),
{
}

/// A sum of four products in which one factor of each pair is zero, but for
/// a single one, is the partner of that one.
proof fn lemma_dot4_unit<T: Ring>(a1: T, a2: T, a3: T, a4: T)
    ensures
        ({
            let o = T::zero_spec();
            let e = T::one_spec();
            &&& dot4(a1, e, a2, o, a3, o, a4, o) == a1
            &&& dot4(a1, o, a2, e, a3, o, a4, o) == a2
            &&& dot4(a1, o, a2, o, a3, e, a4, o) == a3
            &&& dot4(a1, o, a2, o, a3, o, a4, e) == a4
            &&& dot4(e, a1, o, a2, o, a3, o, a4) == a1
            &&& dot4(o, a1, e, a2, o, a3, o, a4) == a2
            &&& dot4(o, a1, o, a2, e, a3, o, a4) == a3
            &&& dot4(o, a1, o, a2, o, a3, e, a4) == a4
        }),
{
    T::one_is_neutral(a1);
    T::one_is_neutral(a2);
    T::one_is_neutral(a3);
    T::one_is_neutral(a4);
    T::zero_absorbs(a1);
    T::zero_absorbs(a2);
    T::zero_absorbs(a3);
    T::zero_absorbs(a4);
    T::zero_is_neutral(a1);
    T::zero_is_neutral(a2);
    T::zero_is_neutral(a3);
    T::zero_is_neutral(a4);
    T::zero_is_neutral(T::zero_spec());
}

/// The identity matrix is neutral for the product on both sides.
pub proof fn lemma_identity_neutral<T: Ring>(m: Matrix4<T>)
    ensures
        identity_spec::<T>().mul_spec(m) == m,
        m.mul_spec(identity_spec::<T>()) == m,
{
    let id = identity_spec::<T>();
    assert forall|i: int, j: int| 0 <= i < 4 && 0 <= j < 4 implies #[trigger] id.mul_spec(m).at(
        i,
        j,
    ) == m.at(i, j) by {
        lemma_dot4_unit(m.at(i, 0), m.at(i, 1), m.at(i, 2), m.at(i, 3));
    }
    lemma_equal_entries(id.mul_spec(m), m);
    assert forall|i: int, j: int| 0 <= i < 4 && 0 <= j < 4 implies #[trigger] m.mul_spec(id).at(
        i,
        j,
    ) == m.at(i, j) by {
        lemma_dot4_unit(m.at(0, j), m.at(1, j), m.at(2, j), m.at(3, j));
    }
    lemma_equal_entries(m.mul_spec(id), m);
}

/// The product of a matrix with the identity, on either side, is
/// approximately equal to the matrix, for every scalar with exact arithmetic
/// and a reflexive comparison.
pub proof fn lemma_identity_neutral_fuzzy<T: Ring + ReflexiveEq>(m: Matrix4<T>)
    ensures
        identity_spec::<T>().mul_spec(m).fuzzy_eq_spec(m),
        m.mul_spec(identity_spec::<T>()).fuzzy_eq_spec(m),
{
    lemma_identity_neutral(m);
    lemma_fuzzy_eq_reflexive(m);
}

/// The two ways to multiply three matrices are approximately equal, for
/// every scalar with exact arithmetic and a reflexive comparison.
pub proof fn lemma_mul_associative_fuzzy<T: Ring + ReflexiveEq>(
    a: Matrix4<T>,
    b: Matrix4<T>,
    c: Matrix4<T>,
)
    ensures
        a.mul_spec(b).mul_spec(c).fuzzy_eq_spec(a.mul_spec(b.mul_spec(c))),
{
    lemma_mul_associative(a, b, c);
    lemma_fuzzy_eq_reflexive(a.mul_spec(b).mul_spec(c));
}

/// A translation appended to `m` keeps the first three rows of `m` and adds
/// to its last row `x` times the first, `y` times the second and `z` times
/// the third: the offset enters through the product and does not replace
/// what the last row held.
pub proof fn lemma_translate_rows<T: Ring>(m: Matrix4<T>, x: T, y: T, z: T)
    ensures
        forall|i: int, j: int|
            0 <= i < 3 && 0 <= j < 4 ==> #[trigger] m.translate_spec(x, y, z).at(i, j) == m.at(
                i,
                j,
            ),
        forall|j: int|
            0 <= j < 4 ==> #[trigger] m.translate_spec(x, y, z).at(3, j) == sum4(
                x.times_spec(m.at(0, j)),
                y.times_spec(m.at(1, j)),
                z.times_spec(m.at(2, j)),
                m.at(3, j),
            ),
{
    let t = m.translate_spec(x, y, z);
    assert forall|i: int, j: int| 0 <= i < 3 && 0 <= j < 4 implies #[trigger] t.at(i, j) == m.at(
        i,
        j,
    ) by {
        lemma_dot4_unit(m.at(0, j), m.at(1, j), m.at(2, j), m.at(3, j));
    }
    assert forall|j: int| 0 <= j < 4 implies #[trigger] t.at(3, j) == sum4(
        x.times_spec(m.at(0, j)),
        y.times_spec(m.at(1, j)),
        z.times_spec(m.at(2, j)),
        m.at(3, j),
    ) by {
        T::one_is_neutral(m.at(3, j));
    }
}

/// A translation appended to the identity is the translation matrix itself:
/// its last row reads `(x, y, z, 1)`.
pub proof fn lemma_translate_identity<T: Ring>(x: T, y: T, z: T)
    ensures
        identity_spec::<T>().translate_spec(x, y, z) == Matrix4::<T>::translation_spec(x, y, z),
        identity_spec::<T>().translate_spec(x, y, z).at(3, 0) == x,
        identity_spec::<T>().translate_spec(x, y, z).at(3, 1) == y,
        identity_spec::<T>().translate_spec(x, y, z).at(3, 2) == z,
        identity_spec::<T>().translate_spec(x, y, z).at(3, 3) == T::one_spec(),
{
    lemma_identity_neutral(Matrix4::<T>::translation_spec(x, y, z));
}

} // verus!
