//! Determinants of the matrices of dimension two to four: they change
//! their sign when two rows change places, are linear in each row, and
//! multiply when matrices are multiplied.
use crate::matrix::{Mat2, Mat3, Mat4};
use crate::ring::{
    lemma_assoc, lemma_comm, lemma_dist_diff, lemma_dist_left3, lemma_dist_left4, lemma_dist_right3,
    lemma_dist_right4, lemma_mono3, lemma_mul_zero, lemma_pairs,
};
use crate::vector::{lemma_cross_anticommutative, lemma_cross_self, Vec3, Vec4};
use vstd::prelude::*;

verus! {

/// The triple product of three vectors keeps its value when the vectors
/// change places in a cycle.
pub proof fn lemma_triple_product_cyclic(a: Vec3<int>, b: Vec3<int>, c: Vec3<int>)
    ensures
        a.dot(b.cross(c)) == b.dot(c.cross(a)),
        a.dot(b.cross(c)) == c.dot(a.cross(b)),
{
    lemma_dist_diff(b.y * c.z, b.z * c.y, a.x);
    lemma_dist_diff(b.z * c.x, b.x * c.z, a.y);
    lemma_dist_diff(b.x * c.y, b.y * c.x, a.z);
    lemma_dist_diff(c.y * a.z, c.z * a.y, b.x);
    lemma_dist_diff(c.z * a.x, c.x * a.z, b.y);
    lemma_dist_diff(c.x * a.y, c.y * a.x, b.z);
    lemma_dist_diff(a.y * b.z, a.z * b.y, c.x);
    lemma_dist_diff(a.z * b.x, a.x * b.z, c.y);
    lemma_dist_diff(a.x * b.y, a.y * b.x, c.z);
    lemma_mono3(a.x, b.y, c.z);
    lemma_mono3(a.x, b.z, c.y);
    lemma_mono3(a.y, b.x, c.z);
    lemma_mono3(a.y, b.z, c.x);
    lemma_mono3(a.z, b.x, c.y);
    lemma_mono3(a.z, b.y, c.x);
}

/// The inner product of a combination of the rows of a matrix and a vector
/// is the combination of the inner products of the rows and the vector.
pub proof fn lemma_dot_apply_left3(m: Mat3<int>, k: Vec3<int>, w: Vec3<int>)
    ensures
        m.apply_left(k).dot(w) == k.x * m.row1().dot(w) + k.y * m.row2().dot(w) + k.z
            * m.row3().dot(w),
{
    lemma_dist_left3(k.x * m.m11, k.y * m.m21, k.z * m.m31, w.x);
    lemma_assoc(k.x, m.m11, w.x);
    lemma_assoc(k.y, m.m21, w.x);
    lemma_assoc(k.z, m.m31, w.x);
    lemma_dist_left3(k.x * m.m12, k.y * m.m22, k.z * m.m32, w.y);
    lemma_assoc(k.x, m.m12, w.y);
    lemma_assoc(k.y, m.m22, w.y);
    lemma_assoc(k.z, m.m32, w.y);
    lemma_dist_left3(k.x * m.m13, k.y * m.m23, k.z * m.m33, w.z);
    lemma_assoc(k.x, m.m13, w.z);
    lemma_assoc(k.y, m.m23, w.z);
    lemma_assoc(k.z, m.m33, w.z);
    lemma_dist_right3(k.x, m.m11 * w.x, m.m12 * w.y, m.m13 * w.z);
    lemma_dist_right3(k.y, m.m21 * w.x, m.m22 * w.y, m.m23 * w.z);
    lemma_dist_right3(k.z, m.m31 * w.x, m.m32 * w.y, m.m33 * w.z);
}

/// The triple product is linear in each of its vectors: that of a
/// combination of the rows of a matrix with two vectors is the combination
/// of the triple products of the rows with the two vectors.
pub proof fn lemma_triple_product_linear(m: Mat3<int>, k: Vec3<int>, b: Vec3<int>, c: Vec3<int>)
    ensures
        m.apply_left(k).triple(b, c) == k.x * m.row1().triple(b, c) + k.y * m.row2().triple(b, c)
            + k.z * m.row3().triple(b, c),
        b.triple(m.apply_left(k), c) == k.x * b.triple(m.row1(), c) + k.y * b.triple(m.row2(), c)
            + k.z * b.triple(m.row3(), c),
        b.triple(c, m.apply_left(k)) == k.x * b.triple(c, m.row1()) + k.y * b.triple(c, m.row2())
            + k.z * b.triple(c, m.row3()),
{
    let v = m.apply_left(k);
    lemma_dot_apply_left3(m, k, b.cross(c));
    lemma_dot_apply_left3(m, k, c.cross(b));
    lemma_triple_product_cyclic(b, v, c);
    lemma_triple_product_cyclic(b, m.row1(), c);
    lemma_triple_product_cyclic(b, m.row2(), c);
    lemma_triple_product_cyclic(b, m.row3(), c);
    lemma_triple_product_cyclic(b, c, v);
    lemma_triple_product_cyclic(b, c, m.row1());
    lemma_triple_product_cyclic(b, c, m.row2());
    lemma_triple_product_cyclic(b, c, m.row3());
}

/// The triple product changes its sign when two of its vectors change
/// places, and is zero when two of its vectors are the same.
pub proof fn lemma_triple_product_alternating(a: Vec3<int>, b: Vec3<int>, c: Vec3<int>)
    ensures
        a.triple(c, b) == -a.triple(b, c),
        b.triple(a, c) == -a.triple(b, c),
        c.triple(b, a) == -a.triple(b, c),
        a.triple(a, c) == 0,
        a.triple(c, a) == 0,
        c.triple(a, a) == 0,
{
    lemma_cross_anticommutative(b, c);
    lemma_pairs(a.x, c.cross(b).x);
    lemma_pairs(a.y, c.cross(b).y);
    lemma_pairs(a.z, c.cross(b).z);
    lemma_triple_product_cyclic(a, b, c);
    lemma_triple_product_cyclic(b, a, c);
    lemma_triple_product_cyclic(c, b, a);
    lemma_cross_anticommutative(a, c);
    lemma_pairs(b.x, c.cross(a).x);
    lemma_pairs(b.y, c.cross(a).y);
    lemma_pairs(b.z, c.cross(a).z);
    lemma_cross_anticommutative(a, b);
    lemma_pairs(c.x, b.cross(a).x);
    lemma_pairs(c.y, b.cross(a).y);
    lemma_pairs(c.z, b.cross(a).z);
    lemma_cross_self(a);
    lemma_mul_zero(c.x, 0);
    lemma_mul_zero(c.y, 0);
    lemma_mul_zero(c.z, 0);
    lemma_triple_product_cyclic(c, a, a);
}

/// A combination of two products with a common factor `d`, one with `d`
/// and one with its inverse.
proof fn lemma_minor_times(p: int, q: int, r: int, s: int, d: int) by (nonlinear_arith)
    ensures
        p * (q * d) + r * (s * (-d)) == (p * q - r * s) * d,
{
}

/// The determinant of a product of matrices of dimension 3 is the product
/// of their determinants.
pub proof fn lemma_det_times3(a: Mat3<int>, b: Mat3<int>)
    ensures
        a.times(b).det() == a.det() * b.det(),
{
    let p = a.times(b);
    let x1 = b.row1();
    let x2 = b.row2();
    let x3 = b.row3();
    let d = b.det();
    assert(p.row1() == b.apply_left(a.row1()));
    assert(p.row2() == b.apply_left(a.row2()));
    assert(p.row3() == b.apply_left(a.row3()));
    assert(d == x1.triple(x2, x3));
    assert(p.det() == p.row1().triple(p.row2(), p.row3()));
    lemma_triple_product_linear(b, a.row1(), p.row2(), p.row3());
    lemma_triple_product_linear(b, a.row2(), x1, p.row3());
    lemma_triple_product_linear(b, a.row2(), x2, p.row3());
    lemma_triple_product_linear(b, a.row2(), x3, p.row3());
    lemma_triple_product_linear(b, a.row3(), x1, x1);
    lemma_triple_product_linear(b, a.row3(), x1, x2);
    lemma_triple_product_linear(b, a.row3(), x1, x3);
    lemma_triple_product_linear(b, a.row3(), x2, x1);
    lemma_triple_product_linear(b, a.row3(), x2, x2);
    lemma_triple_product_linear(b, a.row3(), x2, x3);
    lemma_triple_product_linear(b, a.row3(), x3, x1);
    lemma_triple_product_linear(b, a.row3(), x3, x2);
    lemma_triple_product_linear(b, a.row3(), x3, x3);
    lemma_triple_product_alternating(x1, x2, x3);
    lemma_triple_product_alternating(x2, x3, x1);
    lemma_triple_product_alternating(x3, x1, x2);
    lemma_triple_product_cyclic(x1, x2, x3);
    lemma_triple_product_alternating(x1, x2, x2);
    lemma_triple_product_alternating(x1, x3, x3);
    lemma_triple_product_alternating(x2, x1, x1);
    lemma_triple_product_alternating(x2, x3, x3);
    lemma_triple_product_alternating(x3, x1, x1);
    lemma_triple_product_alternating(x3, x2, x2);
    let r3 = a.row3();
    assert(x1.triple(x1, x1) == 0);
    lemma_mul_zero(r3.x, x1.triple(x1, x1));
    assert(x1.triple(x1, x2) == 0);
    lemma_mul_zero(r3.y, x1.triple(x1, x2));
    assert(x1.triple(x1, x3) == 0);
    lemma_mul_zero(r3.z, x1.triple(x1, x3));
    assert(x1.triple(x2, x1) == 0);
    lemma_mul_zero(r3.x, x1.triple(x2, x1));
    assert(x1.triple(x2, x2) == 0);
    lemma_mul_zero(r3.y, x1.triple(x2, x2));
    assert(x1.triple(x2, x3) == d);
    assert(x1.triple(x3, x1) == 0);
    lemma_mul_zero(r3.x, x1.triple(x3, x1));
    assert(x1.triple(x3, x2) == -d);
    assert(x1.triple(x3, x3) == 0);
    lemma_mul_zero(r3.z, x1.triple(x3, x3));
    assert(x2.triple(x1, x1) == 0);
    lemma_mul_zero(r3.x, x2.triple(x1, x1));
    assert(x2.triple(x1, x2) == 0);
    lemma_mul_zero(r3.y, x2.triple(x1, x2));
    assert(x2.triple(x1, x3) == -d);
    assert(x2.triple(x2, x1) == 0);
    lemma_mul_zero(r3.x, x2.triple(x2, x1));
    assert(x2.triple(x2, x2) == 0);
    lemma_mul_zero(r3.y, x2.triple(x2, x2));
    assert(x2.triple(x2, x3) == 0);
    lemma_mul_zero(r3.z, x2.triple(x2, x3));
    assert(x2.triple(x3, x1) == d);
    assert(x2.triple(x3, x2) == 0);
    lemma_mul_zero(r3.y, x2.triple(x3, x2));
    assert(x2.triple(x3, x3) == 0);
    lemma_mul_zero(r3.z, x2.triple(x3, x3));
    assert(x3.triple(x1, x1) == 0);
    lemma_mul_zero(r3.x, x3.triple(x1, x1));
    assert(x3.triple(x1, x2) == d);
    assert(x3.triple(x1, x3) == 0);
    lemma_mul_zero(r3.z, x3.triple(x1, x3));
    assert(x3.triple(x2, x1) == -d);
    assert(x3.triple(x2, x2) == 0);
    lemma_mul_zero(r3.y, x3.triple(x2, x2));
    assert(x3.triple(x2, x3) == 0);
    lemma_mul_zero(r3.z, x3.triple(x2, x3));
    assert(x3.triple(x3, x1) == 0);
    lemma_mul_zero(r3.x, x3.triple(x3, x1));
    assert(x3.triple(x3, x2) == 0);
    lemma_mul_zero(r3.y, x3.triple(x3, x2));
    assert(x3.triple(x3, x3) == 0);
    lemma_mul_zero(r3.z, x3.triple(x3, x3));
    assert(x1.triple(x1, p.row3()) == 0);
    lemma_mul_zero(a.row2().x, x1.triple(x1, p.row3()));
    assert(x1.triple(x2, p.row3()) == r3.z * (d));
    assert(x1.triple(x3, p.row3()) == r3.y * (-d));
    assert(x2.triple(x1, p.row3()) == r3.z * (-d));
    assert(x2.triple(x2, p.row3()) == 0);
    lemma_mul_zero(a.row2().y, x2.triple(x2, p.row3()));
    assert(x2.triple(x3, p.row3()) == r3.x * (d));
    assert(x3.triple(x1, p.row3()) == r3.y * (d));
    assert(x3.triple(x2, p.row3()) == r3.x * (-d));
    assert(x3.triple(x3, p.row3()) == 0);
    lemma_mul_zero(a.row2().z, x3.triple(x3, p.row3()));
    lemma_minor_times(a.m22, a.m33, a.m23, a.m32, d);
    assert(x1.triple(p.row2(), p.row3()) == (a.m22 * a.m33 - a.m23 * a.m32) * d);
    lemma_minor_times(a.m23, a.m31, a.m21, a.m33, d);
    assert(x2.triple(p.row2(), p.row3()) == (a.m23 * a.m31 - a.m21 * a.m33) * d);
    lemma_minor_times(a.m21, a.m32, a.m22, a.m31, d);
    assert(x3.triple(p.row2(), p.row3()) == (a.m21 * a.m32 - a.m22 * a.m31) * d);
    let c = a.cofactors();
    lemma_dist_left3(a.m11 * c.m11, a.m12 * c.m12, a.m13 * c.m13, d);
    lemma_assoc(a.m11, c.m11, d);
    lemma_assoc(a.m12, c.m12, d);
    lemma_assoc(a.m13, c.m13, d);
}

/// The determinant of a product of matrices of dimension 2 is the product
/// of their determinants.
pub proof fn lemma_det_times2(a: Mat2<int>, b: Mat2<int>)
    ensures
        a.times(b).det() == a.det() * b.det(),
{
    lemma_det_times2_terms(a.m11, a.m12, a.m21, a.m22, b.m11, b.m12, b.m21, b.m22);
}

/// The determinant of a product of matrices of dimension 2, component by
/// component.
proof fn lemma_det_times2_terms(a: int, b: int, c: int, d: int, p: int, q: int, r: int, s: int)
    ensures
        (a * p + b * r) * (c * q + d * s) - (a * q + b * s) * (c * p + d * r) == (a * d - b * c)
            * (p * s - q * r),
{
    lemma_four_terms(a * p, b * r, c * q, d * s);
    lemma_four_terms(a * q, b * s, c * p, d * r);
    lemma_four_terms(a * d, -(b * c), p * s, -(q * r));
    lemma_mono4(a, p, c, q);
    lemma_mono4(a, q, c, p);
    lemma_mono4(b, r, d, s);
    lemma_mono4(b, s, d, r);
    lemma_mono4(a, p, d, s);
    lemma_mono4(a, d, p, s);
    lemma_mono4(b, r, c, q);
    lemma_mono4(b, c, q, r);
    lemma_mono4(a, q, d, r);
    lemma_mono4(a, d, q, r);
    lemma_mono4(b, s, c, p);
    lemma_mono4(b, c, p, s);
    lemma_pairs(b * c, p * s);
    lemma_pairs(a * d, q * r);
    lemma_pairs(b * c, q * r);
}

/// The product of two sums of two terms is the sum of the four products.
proof fn lemma_four_terms(a: int, b: int, c: int, d: int) by (nonlinear_arith)
    ensures
        (a + b) * (c + d) == a * c + a * d + b * c + b * d,
{
}

/// A product of two products does not depend on how its four factors are
/// paired.
proof fn lemma_mono4(a: int, b: int, c: int, d: int) by (nonlinear_arith)
    ensures
        (a * b) * (c * d) == (a * c) * (b * d),
        (a * b) * (c * d) == (a * d) * (b * c),
        (a * b) * (c * d) == (a * d) * (c * b),
        (a * b) * (c * d) == (a * c) * (d * b),
        (a * b) * (c * d) == (c * d) * (a * b),
{
}

/// Two integers whose product is one are both `1` or both `-1`.
pub proof fn lemma_unit_factors(a: int, b: int) by (nonlinear_arith)
    requires
        a * b == 1,
    ensures
        a == 1 || a == -1,
{
}

/// A product does not depend on how its second factor is written.
proof fn lemma_mul_eq(a: int, x: int, y: int)
    requires
        x == y,
    ensures
        a * x == a * y,
{
}

/// Multiplication from the left distributes over a sum of three terms of
/// which the second is taken away.
proof fn lemma_dist_right_pmp(a: int, x: int, y: int, z: int) by (nonlinear_arith)
    ensures
        a * (x - y + z) == a * x - a * y + a * z,
{
}

/// Multiplication from the left distributes over a sum of three terms of
/// which the second and the third are taken away.
proof fn lemma_dist_right_pmm(a: int, x: int, y: int, z: int) by (nonlinear_arith)
    ensures
        a * (x - y - z) == a * x - a * y - a * z,
{
}

/// A combination of three products with a common factor `d`, the second
/// with its inverse.
proof fn lemma_three_times(u1: int, v1: int, u2: int, v2: int, u3: int, v3: int, d: int)
    ensures
        u1 * (v1 * d) + u2 * (v2 * (-d)) + u3 * (v3 * d) == (u1 * v1 - u2 * v2 + u3 * v3) * d,
{
    lemma_assoc(u1, v1, d);
    lemma_assoc(u2, v2, d);
    lemma_assoc(u3, v3, d);
    lemma_pairs(v2, d);
    lemma_pairs(u2, v2 * d);
    lemma_dist_left3(u1 * v1, -(u2 * v2), u3 * v3, d);
    lemma_pairs(u2 * v2, d);
}

/// A combination of four products with a common factor `d`, the second and
/// the fourth with its inverse.
proof fn lemma_four_times(u1: int, v1: int, u2: int, v2: int, u3: int, v3: int, u4: int, v4: int,
    d: int)
    ensures
        u1 * (v1 * d) + u2 * (v2 * (-d)) + u3 * (v3 * d) + u4 * (v4 * (-d)) == (u1 * v1 - u2 * v2
            + u3 * v3 - u4 * v4) * d,
{
    lemma_assoc(u1, v1, d);
    lemma_assoc(u2, v2, d);
    lemma_assoc(u3, v3, d);
    lemma_assoc(u4, v4, d);
    lemma_pairs(v2, d);
    lemma_pairs(u2, v2 * d);
    lemma_pairs(v4, d);
    lemma_pairs(u4, v4 * d);
    lemma_dist_left4(u1 * v1, -(u2 * v2), u3 * v3, -(u4 * v4), d);
    lemma_pairs(u2 * v2, d);
    lemma_pairs(u4 * v4, d);
}

/// The inner product with the additive inverse of a vector is the additive
/// inverse of the inner product.
pub proof fn lemma_dot_opposite4(a: Vec4<int>, v: Vec4<int>)
    ensures
        a.dot(v.opposite()) == -a.dot(v),
{
    lemma_pairs(a.x, v.x);
    lemma_pairs(a.y, v.y);
    lemma_pairs(a.z, v.z);
    lemma_pairs(a.w, v.w);
}

/// The cross product of three vectors changes its sign when the last two
/// change places.
pub proof fn lemma_cross3_swap_last(b: Vec4<int>, c: Vec4<int>, d: Vec4<int>)
    ensures
        b.cross3(d, c) == b.cross3(c, d).opposite(),
{
    lemma_comm(d.x, c.y);
    lemma_comm(d.y, c.x);
    lemma_comm(d.x, c.z);
    lemma_comm(d.z, c.x);
    lemma_comm(d.x, c.w);
    lemma_comm(d.w, c.x);
    lemma_comm(d.y, c.z);
    lemma_comm(d.z, c.y);
    lemma_comm(d.y, c.w);
    lemma_comm(d.w, c.y);
    lemma_comm(d.z, c.w);
    lemma_comm(d.w, c.z);
    lemma_mul_eq(b.y, (d.z * c.w - d.w * c.z), -(c.z * d.w - c.w * d.z));
    lemma_pairs(b.y, (c.z * d.w - c.w * d.z));
    lemma_mul_eq(b.z, (d.y * c.w - d.w * c.y), -(c.y * d.w - c.w * d.y));
    lemma_pairs(b.z, (c.y * d.w - c.w * d.y));
    lemma_mul_eq(b.w, (d.y * c.z - d.z * c.y), -(c.y * d.z - c.z * d.y));
    lemma_pairs(b.w, (c.y * d.z - c.z * d.y));
    lemma_mul_eq(b.z, (d.x * c.w - d.w * c.x), -(c.x * d.w - c.w * d.x));
    lemma_pairs(b.z, (c.x * d.w - c.w * d.x));
    lemma_mul_eq(b.x, (d.z * c.w - d.w * c.z), -(c.z * d.w - c.w * d.z));
    lemma_pairs(b.x, (c.z * d.w - c.w * d.z));
    lemma_mul_eq(b.w, (d.x * c.z - d.z * c.x), -(c.x * d.z - c.z * d.x));
    lemma_pairs(b.w, (c.x * d.z - c.z * d.x));
    lemma_mul_eq(b.x, (d.y * c.w - d.w * c.y), -(c.y * d.w - c.w * d.y));
    lemma_pairs(b.x, (c.y * d.w - c.w * d.y));
    lemma_mul_eq(b.y, (d.x * c.w - d.w * c.x), -(c.x * d.w - c.w * d.x));
    lemma_pairs(b.y, (c.x * d.w - c.w * d.x));
    lemma_mul_eq(b.w, (d.x * c.y - d.y * c.x), -(c.x * d.y - c.y * d.x));
    lemma_pairs(b.w, (c.x * d.y - c.y * d.x));
    lemma_mul_eq(b.y, (d.x * c.z - d.z * c.x), -(c.x * d.z - c.z * d.x));
    lemma_pairs(b.y, (c.x * d.z - c.z * d.x));
    lemma_mul_eq(b.x, (d.y * c.z - d.z * c.y), -(c.y * d.z - c.z * d.y));
    lemma_pairs(b.x, (c.y * d.z - c.z * d.y));
    lemma_mul_eq(b.z, (d.x * c.y - d.y * c.x), -(c.x * d.y - c.y * d.x));
    lemma_pairs(b.z, (c.x * d.y - c.y * d.x));
}

/// The cross product of three vectors changes its sign when the first two
/// change places.
pub proof fn lemma_cross3_swap_first(b: Vec4<int>, c: Vec4<int>, d: Vec4<int>)
    ensures
        c.cross3(b, d) == b.cross3(c, d).opposite(),
{
    lemma_dist_diff(c.z * d.w, c.w * d.z, b.y);
    lemma_dist_diff(b.z * d.w, b.w * d.z, c.y);
    lemma_dist_diff(c.y * d.w, c.w * d.y, b.z);
    lemma_dist_diff(b.y * d.w, b.w * d.y, c.z);
    lemma_dist_diff(c.y * d.z, c.z * d.y, b.w);
    lemma_dist_diff(b.y * d.z, b.z * d.y, c.w);
    lemma_dist_diff(c.x * d.w, c.w * d.x, b.z);
    lemma_dist_diff(b.x * d.w, b.w * d.x, c.z);
    lemma_dist_diff(c.z * d.w, c.w * d.z, b.x);
    lemma_dist_diff(b.z * d.w, b.w * d.z, c.x);
    lemma_dist_diff(c.x * d.z, c.z * d.x, b.w);
    lemma_dist_diff(b.x * d.z, b.z * d.x, c.w);
    lemma_dist_diff(c.y * d.w, c.w * d.y, b.x);
    lemma_dist_diff(b.y * d.w, b.w * d.y, c.x);
    lemma_dist_diff(c.x * d.w, c.w * d.x, b.y);
    lemma_dist_diff(b.x * d.w, b.w * d.x, c.y);
    lemma_dist_diff(c.x * d.y, c.y * d.x, b.w);
    lemma_dist_diff(b.x * d.y, b.y * d.x, c.w);
    lemma_dist_diff(c.x * d.z, c.z * d.x, b.y);
    lemma_dist_diff(b.x * d.z, b.z * d.x, c.y);
    lemma_dist_diff(c.y * d.z, c.z * d.y, b.x);
    lemma_dist_diff(b.y * d.z, b.z * d.y, c.x);
    lemma_dist_diff(c.x * d.y, c.y * d.x, b.z);
    lemma_dist_diff(b.x * d.y, b.y * d.x, c.z);
    lemma_mono3(b.x, c.y, d.z);
    lemma_mono3(b.x, c.y, d.w);
    lemma_mono3(b.x, c.z, d.y);
    lemma_mono3(b.x, c.z, d.w);
    lemma_mono3(b.x, c.w, d.y);
    lemma_mono3(b.x, c.w, d.z);
    lemma_mono3(b.y, c.x, d.z);
    lemma_mono3(b.y, c.x, d.w);
    lemma_mono3(b.y, c.z, d.x);
    lemma_mono3(b.y, c.z, d.w);
    lemma_mono3(b.y, c.w, d.x);
    lemma_mono3(b.y, c.w, d.z);
    lemma_mono3(b.z, c.x, d.y);
    lemma_mono3(b.z, c.x, d.w);
    lemma_mono3(b.z, c.y, d.x);
    lemma_mono3(b.z, c.y, d.w);
    lemma_mono3(b.z, c.w, d.x);
    lemma_mono3(b.z, c.w, d.y);
    lemma_mono3(b.w, c.x, d.y);
    lemma_mono3(b.w, c.x, d.z);
    lemma_mono3(b.w, c.y, d.x);
    lemma_mono3(b.w, c.y, d.z);
    lemma_mono3(b.w, c.z, d.x);
    lemma_mono3(b.w, c.z, d.y);
}

/// The determinant of four rows changes its sign when the first two rows
/// change places.
pub proof fn lemma_det4_swap_first(a: Vec4<int>, b: Vec4<int>, c: Vec4<int>, d: Vec4<int>)
    ensures
        b.det4(a, c, d) == -a.det4(b, c, d),
{
    lemma_dist_right_pmp(a.x, b.y * (c.z * d.w - c.w * d.z), b.z * (c.y * d.w - c.w * d.y), b.w
        * (c.y * d.z - c.z * d.y));
    lemma_dist_right_pmp(b.x, a.y * (c.z * d.w - c.w * d.z), a.z * (c.y * d.w - c.w * d.y), a.w
        * (c.y * d.z - c.z * d.y));
    lemma_mono3(a.x, b.y, (c.z * d.w - c.w * d.z));
    lemma_mono3(a.x, b.z, (c.y * d.w - c.w * d.y));
    lemma_mono3(a.x, b.w, (c.y * d.z - c.z * d.y));
    lemma_dist_right_pmm(a.y, b.z * (c.x * d.w - c.w * d.x), b.x * (c.z * d.w - c.w * d.z), b.w
        * (c.x * d.z - c.z * d.x));
    lemma_dist_right_pmm(b.y, a.z * (c.x * d.w - c.w * d.x), a.x * (c.z * d.w - c.w * d.z), a.w
        * (c.x * d.z - c.z * d.x));
    lemma_mono3(a.y, b.z, (c.x * d.w - c.w * d.x));
    lemma_mono3(a.y, b.x, (c.z * d.w - c.w * d.z));
    lemma_mono3(a.y, b.w, (c.x * d.z - c.z * d.x));
    lemma_dist_right_pmp(a.z, b.x * (c.y * d.w - c.w * d.y), b.y * (c.x * d.w - c.w * d.x), b.w
        * (c.x * d.y - c.y * d.x));
    lemma_dist_right_pmp(b.z, a.x * (c.y * d.w - c.w * d.y), a.y * (c.x * d.w - c.w * d.x), a.w
        * (c.x * d.y - c.y * d.x));
    lemma_mono3(a.z, b.x, (c.y * d.w - c.w * d.y));
    lemma_mono3(a.z, b.y, (c.x * d.w - c.w * d.x));
    lemma_mono3(a.z, b.w, (c.x * d.y - c.y * d.x));
    lemma_dist_right_pmm(a.w, b.y * (c.x * d.z - c.z * d.x), b.x * (c.y * d.z - c.z * d.y), b.z
        * (c.x * d.y - c.y * d.x));
    lemma_dist_right_pmm(b.w, a.y * (c.x * d.z - c.z * d.x), a.x * (c.y * d.z - c.z * d.y), a.z
        * (c.x * d.y - c.y * d.x));
    lemma_mono3(a.w, b.y, (c.x * d.z - c.z * d.x));
    lemma_mono3(a.w, b.x, (c.y * d.z - c.z * d.y));
    lemma_mono3(a.w, b.z, (c.x * d.y - c.y * d.x));
}

/// The determinant of four rows changes its sign when two neighbouring
/// rows change places.
pub proof fn lemma_det4_adjacent(a: Vec4<int>, b: Vec4<int>, c: Vec4<int>, d: Vec4<int>)
    ensures
        b.det4(a, c, d) == -a.det4(b, c, d),
        a.det4(c, b, d) == -a.det4(b, c, d),
        a.det4(b, d, c) == -a.det4(b, c, d),
{
    lemma_det4_swap_first(a, b, c, d);
    lemma_cross3_swap_first(b, c, d);
    lemma_dot_opposite4(a, b.cross3(c, d));
    lemma_cross3_swap_last(b, c, d);
}

/// The determinant of four rows changes its sign when any two rows change
/// places.
pub proof fn lemma_det4_alternating(a: Vec4<int>, b: Vec4<int>, c: Vec4<int>, d: Vec4<int>)
    ensures
        b.det4(a, c, d) == -a.det4(b, c, d),
        a.det4(c, b, d) == -a.det4(b, c, d),
        a.det4(b, d, c) == -a.det4(b, c, d),
        c.det4(b, a, d) == -a.det4(b, c, d),
        a.det4(d, c, b) == -a.det4(b, c, d),
        d.det4(b, c, a) == -a.det4(b, c, d),
{
    lemma_det4_adjacent(a, b, c, d);
    lemma_det4_adjacent(b, a, c, d);
    lemma_det4_adjacent(b, c, a, d);
    lemma_det4_adjacent(a, c, b, d);
    lemma_det4_adjacent(a, c, d, b);
    lemma_det4_adjacent(b, c, d, a);
    lemma_det4_adjacent(b, d, c, a);
}

/// The determinant of four rows is zero when two of the rows are the same.
pub proof fn lemma_det4_repeated(a: Vec4<int>, b: Vec4<int>, c: Vec4<int>)
    ensures
        a.det4(a, b, c) == 0,
        a.det4(b, a, c) == 0,
        a.det4(b, c, a) == 0,
        b.det4(a, a, c) == 0,
        b.det4(a, c, a) == 0,
        b.det4(c, a, a) == 0,
{
    lemma_det4_alternating(a, a, b, c);
    lemma_det4_alternating(a, b, a, c);
    lemma_det4_alternating(a, b, c, a);
    lemma_det4_alternating(b, a, a, c);
    lemma_det4_alternating(b, a, c, a);
    lemma_det4_alternating(b, c, a, a);
}

/// The inner product of a combination of the rows of a matrix and a vector
/// is the combination of the inner products of the rows and the vector.
pub proof fn lemma_dot_apply_left4(m: Mat4<int>, k: Vec4<int>, w: Vec4<int>)
    ensures
        m.apply_left(k).dot(w) == k.x * m.row1().dot(w) + k.y * m.row2().dot(w) + k.z
            * m.row3().dot(w) + k.w * m.row4().dot(w),
{
    lemma_dist_left4(k.x * m.m11, k.y * m.m21, k.z * m.m31, k.w * m.m41, w.x);
    lemma_assoc(k.x, m.m11, w.x);
    lemma_assoc(k.y, m.m21, w.x);
    lemma_assoc(k.z, m.m31, w.x);
    lemma_assoc(k.w, m.m41, w.x);
    lemma_dist_left4(k.x * m.m12, k.y * m.m22, k.z * m.m32, k.w * m.m42, w.y);
    lemma_assoc(k.x, m.m12, w.y);
    lemma_assoc(k.y, m.m22, w.y);
    lemma_assoc(k.z, m.m32, w.y);
    lemma_assoc(k.w, m.m42, w.y);
    lemma_dist_left4(k.x * m.m13, k.y * m.m23, k.z * m.m33, k.w * m.m43, w.z);
    lemma_assoc(k.x, m.m13, w.z);
    lemma_assoc(k.y, m.m23, w.z);
    lemma_assoc(k.z, m.m33, w.z);
    lemma_assoc(k.w, m.m43, w.z);
    lemma_dist_left4(k.x * m.m14, k.y * m.m24, k.z * m.m34, k.w * m.m44, w.w);
    lemma_assoc(k.x, m.m14, w.w);
    lemma_assoc(k.y, m.m24, w.w);
    lemma_assoc(k.z, m.m34, w.w);
    lemma_assoc(k.w, m.m44, w.w);
    lemma_dist_right4(k.x, m.m11 * w.x, m.m12 * w.y, m.m13 * w.z, m.m14 * w.w);
    lemma_dist_right4(k.y, m.m21 * w.x, m.m22 * w.y, m.m23 * w.z, m.m24 * w.w);
    lemma_dist_right4(k.z, m.m31 * w.x, m.m32 * w.y, m.m33 * w.z, m.m34 * w.w);
    lemma_dist_right4(k.w, m.m41 * w.x, m.m42 * w.y, m.m43 * w.z, m.m44 * w.w);
}

/// The determinant of four rows keeps its value when its rows change places
/// by an even permutation.
pub proof fn lemma_det4_even(a: Vec4<int>, b: Vec4<int>, c: Vec4<int>, d: Vec4<int>)
    ensures
        b.det4(a, d, c) == a.det4(b, c, d),
        b.det4(c, a, d) == a.det4(b, c, d),
        c.det4(b, d, a) == a.det4(b, c, d),
        c.det4(a, b, d) == a.det4(b, c, d),
        d.det4(a, c, b) == a.det4(b, c, d),
{
    lemma_det4_alternating(a, b, c, d);
    lemma_det4_adjacent(b, a, c, d);
    lemma_det4_adjacent(c, b, a, d);
    lemma_det4_alternating(d, b, c, a);
}

/// The determinant of four rows is linear in each row: with a combination
/// of the rows of a matrix in the place of a row, it is the combination of
/// the determinants with each row of the matrix in that place.
pub proof fn lemma_det4_linear(m: Mat4<int>, k: Vec4<int>, b: Vec4<int>, c: Vec4<int>, d: Vec4<int>)
    ensures
        m.apply_left(k).det4(b, c, d) == k.x * m.row1().det4(b, c, d) + k.y
            * m.row2().det4(b, c, d) + k.z * m.row3().det4(b, c, d) + k.w * m.row4().det4(b, c, d),
        b.det4(m.apply_left(k), c, d) == k.x * b.det4(m.row1(), c, d) + k.y
            * b.det4(m.row2(), c, d) + k.z * b.det4(m.row3(), c, d) + k.w * b.det4(m.row4(), c, d),
        b.det4(c, m.apply_left(k), d) == k.x * b.det4(c, m.row1(), d) + k.y
            * b.det4(c, m.row2(), d) + k.z * b.det4(c, m.row3(), d) + k.w * b.det4(c, m.row4(), d),
        b.det4(c, d, m.apply_left(k)) == k.x * b.det4(c, d, m.row1()) + k.y
            * b.det4(c, d, m.row2()) + k.z * b.det4(c, d, m.row3()) + k.w * b.det4(c, d, m.row4()),
{
    let v = m.apply_left(k);
    lemma_dot_apply_left4(m, k, b.cross3(c, d));
    lemma_dot_apply_left4(m, k, b.cross3(d, c));
    lemma_dot_apply_left4(m, k, c.cross3(b, d));
    lemma_det4_even(v, b, d, c);
    lemma_det4_even(m.row1(), b, d, c);
    lemma_det4_even(m.row2(), b, d, c);
    lemma_det4_even(m.row3(), b, d, c);
    lemma_det4_even(m.row4(), b, d, c);
    lemma_det4_even(v, b, c, d);
    lemma_det4_even(m.row1(), b, c, d);
    lemma_det4_even(m.row2(), b, c, d);
    lemma_det4_even(m.row3(), b, c, d);
    lemma_det4_even(m.row4(), b, c, d);
    lemma_det4_even(v, c, b, d);
    lemma_det4_even(m.row1(), c, b, d);
    lemma_det4_even(m.row2(), c, b, d);
    lemma_det4_even(m.row3(), c, b, d);
    lemma_det4_even(m.row4(), c, b, d);
}

/// The determinant of three rows of a matrix and a combination of its rows
/// is the determinant of the matrix times the weight of the fourth row.
pub proof fn lemma_det4_expand1(y: Mat4<int>, k4: Vec4<int>)
    ensures
        y.row1().det4(y.row2(), y.row3(), y.apply_left(k4)) == k4.w * y.det(),
{
    let r1 = y.row1();
    let r2 = y.row2();
    let r3 = y.row3();
    lemma_det4_linear(y, k4, r1, r2, r3);
    lemma_det4_repeated(r1, r2, r3);
    lemma_det4_repeated(r2, r1, r3);
    lemma_det4_repeated(r3, r1, r2);
    lemma_mul_zero(k4.x, r1.det4(r2, r3, r1));
    lemma_mul_zero(k4.y, r1.det4(r2, r3, r2));
    lemma_mul_zero(k4.z, r1.det4(r2, r3, r3));
}

/// The determinant of two rows of a matrix and two combinations of its rows
/// is the determinant of the matrix times the determinant of the weights of
/// the other two rows.
pub proof fn lemma_det4_expand2(y: Mat4<int>, k3: Vec4<int>, k4: Vec4<int>)
    ensures
        y.row1().det4(y.row2(), y.apply_left(k3), y.apply_left(k4)) == (k3.z * k4.w - k3.w * k4.z)
            * y.det(),
{
    let r1 = y.row1();
    let r2 = y.row2();
    let r3 = y.row3();
    let r4 = y.row4();
    let v4 = y.apply_left(k4);
    let d = y.det();
    lemma_det4_linear(y, k3, r1, r2, v4);
    lemma_det4_repeated(r1, r2, v4);
    lemma_det4_repeated(r2, r1, v4);
    lemma_mul_zero(k3.x, r1.det4(r2, r1, v4));
    lemma_mul_zero(k3.y, r1.det4(r2, r2, v4));
    lemma_det4_expand1(y, k4);
    let y2 = Mat4::<int>::from_rows(y.row1(), y.row2(), y.row4(), y.row3());
    let j4 = Vec4 { x: k4.x, y: k4.y, z: k4.w, w: k4.z };
    assert(y2.apply_left(j4) == v4);
    lemma_det4_expand1(y2, j4);
    lemma_det4_adjacent(r1, r2, r3, r4);
    assert(r1.det4(r2, r3, v4) == k4.w * d);
    assert(r1.det4(r2, r4, v4) == k4.z * (-d));
    lemma_mul_eq(k3.z, r1.det4(r2, r3, v4), k4.w * d);
    lemma_mul_eq(k3.w, r1.det4(r2, r4, v4), k4.z * (-d));
    lemma_minor_times(k3.z, k4.w, k3.w, k4.z, d);
}

/// The determinant of a row of a matrix and three combinations of its rows
/// is the determinant of the matrix times the determinant of the weights of
/// the other three rows.
pub proof fn lemma_det4_expand3(y: Mat4<int>, k2: Vec4<int>, k3: Vec4<int>, k4: Vec4<int>)
    ensures
        y.row1().det4(y.apply_left(k2), y.apply_left(k3), y.apply_left(k4)) == k2.cross3(k3, k4).x
            * y.det(),
{
    let r1 = y.row1();
    let r2 = y.row2();
    let r3 = y.row3();
    let r4 = y.row4();
    let v3 = y.apply_left(k3);
    let v4 = y.apply_left(k4);
    let d = y.det();
    lemma_det4_linear(y, k2, r1, v3, v4);
    lemma_det4_repeated(r1, v3, v4);
    lemma_mul_zero(k2.x, r1.det4(r1, v3, v4));
    lemma_det4_expand2(y, k3, k4);
    let y3 = Mat4::<int>::from_rows(y.row1(), y.row3(), y.row2(), y.row4());
    let j3 = Vec4 { x: k3.x, y: k3.z, z: k3.y, w: k3.w };
    let j4 = Vec4 { x: k4.x, y: k4.z, z: k4.y, w: k4.w };
    assert(y3.apply_left(j3) == v3);
    assert(y3.apply_left(j4) == v4);
    lemma_det4_expand2(y3, j3, j4);
    let y4 = Mat4::<int>::from_rows(y.row1(), y.row4(), y.row2(), y.row3());
    let l3 = Vec4 { x: k3.x, y: k3.w, z: k3.y, w: k3.z };
    let l4 = Vec4 { x: k4.x, y: k4.w, z: k4.y, w: k4.z };
    assert(y4.apply_left(l3) == v3);
    assert(y4.apply_left(l4) == v4);
    lemma_det4_expand2(y4, l3, l4);
    lemma_det4_adjacent(r1, r2, r3, r4);
    lemma_det4_even(r2, r3, r4, r1);
    lemma_det4_even(r1, r2, r3, r4);
    lemma_det4_alternating(r1, r2, r3, r4);
    lemma_det4_adjacent(r1, r2, r4, r3);
    assert(y3.det() == -d);
    assert(y4.det() == d);
    let zw = k3.z * k4.w - k3.w * k4.z;
    let yw = k3.y * k4.w - k3.w * k4.y;
    let yz = k3.y * k4.z - k3.z * k4.y;
    assert(r1.det4(r2, v3, v4) == zw * d);
    assert(r1.det4(r3, v3, v4) == yw * (-d));
    assert(r1.det4(r4, v3, v4) == yz * d);
    lemma_mul_eq(k2.y, r1.det4(r2, v3, v4), zw * d);
    lemma_mul_eq(k2.z, r1.det4(r3, v3, v4), yw * (-d));
    lemma_mul_eq(k2.w, r1.det4(r4, v3, v4), yz * d);
    lemma_three_times(k2.y, zw, k2.z, yw, k2.w, yz, d);
}

/// The determinant of a product of matrices of dimension 4 is the product
/// of their determinants.
pub proof fn lemma_det_times4(a: Mat4<int>, y: Mat4<int>)
    ensures
        a.times(y).det() == a.det() * y.det(),
{
    let p = a.times(y);
    let k1 = a.row1();
    let k2 = a.row2();
    let k3 = a.row3();
    let k4 = a.row4();
    let r1 = y.row1();
    let r2 = y.row2();
    let r3 = y.row3();
    let r4 = y.row4();
    let v2 = y.apply_left(k2);
    let v3 = y.apply_left(k3);
    let v4 = y.apply_left(k4);
    let d = y.det();
    assert(p.row1() == y.apply_left(k1));
    assert(p.row2() == v2);
    assert(p.row3() == v3);
    assert(p.row4() == v4);
    lemma_det4_linear(y, k1, v2, v3, v4);
    lemma_det4_expand3(y, k2, k3, k4);
    let y2 = Mat4::<int>::from_rows(y.row2(), y.row1(), y.row3(), y.row4());
    let j22 = Vec4 { x: k2.y, y: k2.x, z: k2.z, w: k2.w };
    assert(y2.apply_left(j22) == v2);
    let j23 = Vec4 { x: k3.y, y: k3.x, z: k3.z, w: k3.w };
    assert(y2.apply_left(j23) == v3);
    let j24 = Vec4 { x: k4.y, y: k4.x, z: k4.z, w: k4.w };
    assert(y2.apply_left(j24) == v4);
    lemma_det4_expand3(y2, j22, j23, j24);
    let y3 = Mat4::<int>::from_rows(y.row3(), y.row1(), y.row2(), y.row4());
    let j32 = Vec4 { x: k2.z, y: k2.x, z: k2.y, w: k2.w };
    assert(y3.apply_left(j32) == v2);
    let j33 = Vec4 { x: k3.z, y: k3.x, z: k3.y, w: k3.w };
    assert(y3.apply_left(j33) == v3);
    let j34 = Vec4 { x: k4.z, y: k4.x, z: k4.y, w: k4.w };
    assert(y3.apply_left(j34) == v4);
    lemma_det4_expand3(y3, j32, j33, j34);
    let y4 = Mat4::<int>::from_rows(y.row4(), y.row1(), y.row2(), y.row3());
    let j42 = Vec4 { x: k2.w, y: k2.x, z: k2.y, w: k2.z };
    assert(y4.apply_left(j42) == v2);
    let j43 = Vec4 { x: k3.w, y: k3.x, z: k3.y, w: k3.z };
    assert(y4.apply_left(j43) == v3);
    let j44 = Vec4 { x: k4.w, y: k4.x, z: k4.y, w: k4.z };
    assert(y4.apply_left(j44) == v4);
    lemma_det4_expand3(y4, j42, j43, j44);
    lemma_det4_alternating(r1, r2, r3, r4);
    lemma_det4_even(r1, r2, r3, r4);
    lemma_det4_adjacent(r3, r1, r2, r4);
    lemma_det4_adjacent(r4, r1, r2, r3);
    lemma_det4_adjacent(r4, r1, r3, r2);
    lemma_det4_adjacent(r4, r3, r1, r2);
    lemma_det4_adjacent(r1, r4, r2, r3);
    lemma_det4_adjacent(r1, r2, r4, r3);
    assert(y2.det() == -d);
    assert(y3.det() == d);
    assert(y4.det() == -d);
    let c = k2.cross3(k3, k4);
    let e2 = j22.cross3(j23, j24).x;
    let e4 = j42.cross3(j43, j44).x;
    assert(j32.cross3(j33, j34).x == c.z);
    assert(e2 == -c.y);
    assert(e4 == -c.w);
    assert(r1.det4(v2, v3, v4) == c.x * d);
    assert(r2.det4(v2, v3, v4) == e2 * (-d));
    assert(r3.det4(v2, v3, v4) == c.z * d);
    assert(r4.det4(v2, v3, v4) == e4 * (-d));
    lemma_mul_eq(k1.x, r1.det4(v2, v3, v4), c.x * d);
    lemma_mul_eq(k1.y, r2.det4(v2, v3, v4), e2 * (-d));
    lemma_mul_eq(k1.z, r3.det4(v2, v3, v4), c.z * d);
    lemma_mul_eq(k1.w, r4.det4(v2, v3, v4), e4 * (-d));
    lemma_four_times(k1.x, c.x, k1.y, e2, k1.z, c.z, k1.w, e4, d);
    lemma_pairs(k1.y, c.y);
    lemma_pairs(k1.w, c.w);
    lemma_mul_eq(k1.y, e2, -c.y);
    lemma_mul_eq(k1.w, e4, -c.w);
}

/// A matrix of dimension 4 times its adjugate is its determinant times the
/// identity.
pub proof fn lemma_adjugate4(m: Mat4<int>)
    ensures
        m.times(m.adjugate()).m11 == m.det(),
        m.times(m.adjugate()).m12 == 0,
        m.times(m.adjugate()).m13 == 0,
        m.times(m.adjugate()).m14 == 0,
        m.times(m.adjugate()).m21 == 0,
        m.times(m.adjugate()).m22 == m.det(),
        m.times(m.adjugate()).m23 == 0,
        m.times(m.adjugate()).m24 == 0,
        m.times(m.adjugate()).m31 == 0,
        m.times(m.adjugate()).m32 == 0,
        m.times(m.adjugate()).m33 == m.det(),
        m.times(m.adjugate()).m34 == 0,
        m.times(m.adjugate()).m41 == 0,
        m.times(m.adjugate()).m42 == 0,
        m.times(m.adjugate()).m43 == 0,
        m.times(m.adjugate()).m44 == m.det(),
{
    let r1 = m.row1();
    let r2 = m.row2();
    let r3 = m.row3();
    let r4 = m.row4();
    let c = m.cofactors();
    assert(m.adjugate().col1() == c.row1());
    assert(m.adjugate().col2() == c.row2());
    assert(m.adjugate().col3() == c.row3());
    assert(m.adjugate().col4() == c.row4());
    lemma_det4_repeated(r2, r3, r4);
    lemma_det4_repeated(r3, r2, r4);
    lemma_det4_repeated(r4, r2, r3);
    lemma_det4_repeated(r1, r4, r3);
    lemma_det4_repeated(r3, r1, r4);
    lemma_det4_repeated(r4, r1, r3);
    lemma_det4_repeated(r1, r2, r4);
    lemma_det4_repeated(r2, r1, r4);
    lemma_det4_repeated(r4, r1, r2);
    lemma_det4_repeated(r1, r3, r2);
    lemma_det4_repeated(r2, r1, r3);
    lemma_det4_repeated(r3, r1, r2);
    lemma_det4_even(r1, r2, r3, r4);
    lemma_det4_even(r2, r1, r4, r3);
    lemma_det4_even(r3, r1, r2, r4);
    lemma_det4_even(r4, r1, r3, r2);
    lemma_det4_alternating(r1, r2, r3, r4);
    lemma_det4_adjacent(r2, r1, r3, r4);
    lemma_det4_adjacent(r3, r1, r2, r4);
    lemma_det4_adjacent(r4, r1, r2, r3);
    lemma_det4_adjacent(r1, r3, r2, r4);
    lemma_det4_adjacent(r1, r2, r4, r3);
}

/// The determinant of the identity matrix of dimension 4 is one.
pub proof fn lemma_det_identity4()
    ensures
        Mat4::<int>::identity().det() == 1,
{
    let i = Mat4::<int>::identity();
    let b = i.row2();
    let c = i.row3();
    let d = i.row4();
    let x = b.cross3(c, d);
    assert(x.x == 1) by (nonlinear_arith)
        requires
            b.x == 0,
            b.y == 1,
            b.z == 0,
            b.w == 0,
            c.x == 0,
            c.y == 0,
            c.z == 1,
            c.w == 0,
            d.x == 0,
            d.y == 0,
            d.z == 0,
            d.w == 1,
            x.x == b.y * (c.z * d.w - c.w * d.z) - b.z * (c.y * d.w - c.w * d.y) + b.w * (c.y * d.z
                - c.z * d.y),
    ;
    assert(x.y == 0) by (nonlinear_arith)
        requires
            b.x == 0,
            b.y == 1,
            b.z == 0,
            b.w == 0,
            c.x == 0,
            c.y == 0,
            c.z == 1,
            c.w == 0,
            d.x == 0,
            d.y == 0,
            d.z == 0,
            d.w == 1,
            x.y == b.z * (c.x * d.w - c.w * d.x) - b.x * (c.z * d.w - c.w * d.z) - b.w * (c.x * d.z
                - c.z * d.x),
    ;
    assert(x.z == 0) by (nonlinear_arith)
        requires
            b.x == 0,
            b.y == 1,
            b.z == 0,
            b.w == 0,
            c.x == 0,
            c.y == 0,
            c.z == 1,
            c.w == 0,
            d.x == 0,
            d.y == 0,
            d.z == 0,
            d.w == 1,
            x.z == b.x * (c.y * d.w - c.w * d.y) - b.y * (c.x * d.w - c.w * d.x) + b.w * (c.x * d.y
                - c.y * d.x),
    ;
    assert(x.w == 0) by (nonlinear_arith)
        requires
            b.x == 0,
            b.y == 1,
            b.z == 0,
            b.w == 0,
            c.x == 0,
            c.y == 0,
            c.z == 1,
            c.w == 0,
            d.x == 0,
            d.y == 0,
            d.z == 0,
            d.w == 1,
            x.w == b.y * (c.x * d.z - c.z * d.x) - b.x * (c.y * d.z - c.z * d.y) - b.z * (c.x * d.y
                - c.y * d.x),
    ;
    assert(x == i.row1());
    assert(1int * 1int + 0int * 0int + 0int * 0int + 0int * 0int == 1);
}

} // verus!
