//! Laws of the algebra of square matrices: of the product, the transpose,
//! orthogonal matrices, the adjugate and the inverse.
use crate::determinant::{
    lemma_adjugate4, lemma_det_identity4, lemma_det_times2, lemma_det_times3, lemma_det_times4,
    lemma_triple_product_alternating, lemma_triple_product_cyclic, lemma_unit_factors,
};
use crate::matrix::{Mat1, Mat2, Mat3, Mat4, Mat5, Mat6};
use crate::ring::{
    lemma_abs_product, lemma_assoc, lemma_comm, lemma_dist_diff, lemma_dist_right2, lemma_mul_zero,
    lemma_pairs, lemma_row_mat_col2, lemma_row_mat_col3, lemma_row_mat_col4, lemma_row_mat_col5,
    lemma_row_mat_col6, lemma_square_le_one, lemma_square_nonneg, lemma_unit_product,
    lemma_unit_square,
};
use crate::scalar::{abs_int, fits, Scalar};
use crate::traits::{Dot, Inv};
use crate::vector::{Vec1, Vec2, Vec3, Vec4, Vec5, Vec6};
use vstd::prelude::*;

verus! {

/// The product of `-1`, `0` or `1` and an integer is zero, the integer or
/// its inverse.
pub proof fn lemma_unit_times(a: int, b: int) by (nonlinear_arith)
    requires
        -1 <= a <= 1,
    ensures
        a == 0 ==> a * b == 0,
        a == 1 ==> a * b == b,
        a == -1 ==> a * b == -b,
{
}

/// The cross-product matrix of `v` takes every vector `w` to the cross
/// product of `v` and `w`, and is skew-symmetric.
pub proof fn lemma_cross_matrix(v: Vec3<int>, w: Vec3<int>)
    ensures
        v.cross_matrix().apply(w) == v.cross(w),
        v.cross_matrix().transposed() == v.cross_matrix().opposite(),
{
    lemma_mul_zero(0, w.x);
    lemma_mul_zero(0, w.y);
    lemma_mul_zero(0, w.z);
    lemma_pairs(v.x, w.y);
    lemma_pairs(v.x, w.z);
    lemma_pairs(v.y, w.x);
    lemma_pairs(v.y, w.z);
    lemma_pairs(v.z, w.x);
    lemma_pairs(v.z, w.y);
}

/// The outer product of two vectors takes a vector `w` to the first,
/// scaled by the inner product of the second and `w`.
pub proof fn lemma_outer_apply3(a: Vec3<int>, b: Vec3<int>, w: Vec3<int>)
    ensures
        a.outer(b).apply(w) == a.scale(b.dot(w)),
{
    lemma_row_mat_col3(
        a.x, 0, 0,
        b.x, b.y, b.z,
        0, 0, 0,
        0, 0, 0,
        w.x, w.y, w.z,
    );
    lemma_row_mat_col3(
        a.y, 0, 0,
        b.x, b.y, b.z,
        0, 0, 0,
        0, 0, 0,
        w.x, w.y, w.z,
    );
    lemma_row_mat_col3(
        a.z, 0, 0,
        b.x, b.y, b.z,
        0, 0, 0,
        0, 0, 0,
        w.x, w.y, w.z,
    );
}

/// The identity is neutral for the product of matrices of dimension 1, and
/// takes every vector to itself.
pub proof fn lemma_times_identity1(a: Mat1<int>, v: Vec1<int>)
    ensures
        a.times(Mat1::<int>::identity()) == a,
        Mat1::<int>::identity().times(a) == a,
        Mat1::<int>::identity().apply(v) == v,
{
}

/// The product of matrices of dimension 1 is associative.
pub proof fn lemma_times_assoc1(a: Mat1<int>, b: Mat1<int>, c: Mat1<int>)
    ensures
        a.times(b).times(c) == a.times(b.times(c)),
{
    lemma_assoc(a.m11, b.m11, c.m11);
}

/// To lower the homogeneous form of a matrix of dimension 1 gives the matrix back.
pub proof fn lemma_homogeneous_round_trip_mat1(m: Mat1<int>)
    ensures
        m.lifted().lowered() == m,
{
}

/// A matrix of dimension 1 times its adjugate is its determinant times the
/// identity.
pub proof fn lemma_adjugate1(m: Mat1<int>)
    ensures
        m.times(m.adjugate()).m11 == m.det(),
{
}

/// The determinant of a product of matrices of dimension 1 is the product
/// of their determinants.
pub proof fn lemma_det_times1(a: Mat1<int>, b: Mat1<int>)
    ensures
        a.times(b).det() == a.det() * b.det(),
{
}

/// The determinant of the identity matrix of dimension 1 is one.
pub proof fn lemma_det_identity1()
    ensures
        Mat1::<int>::identity().det() == 1,
{
}

/// A matrix of dimension 1 whose determinant is `1` or `-1` has its
/// inverse on the right.
proof fn lemma_right_inverse_of1(m: Mat1<int>)
    requires
        m.is_unimodular(),
    ensures
        m.times(m.inverse()) == Mat1::<int>::identity(),
{
    lemma_adjugate1(m);
    if m.det() == -1 {
        let a = m.adjugate();
        lemma_pairs(m.m11, a.m11);
    }
}

/// Matrices of dimension 1 whose product is the identity have determinant
/// `1` or `-1`.
pub proof fn lemma_right_inverse1(m: Mat1<int>, x: Mat1<int>)
    requires
        m.times(x) == Mat1::<int>::identity(),
    ensures
        m.is_unimodular(),
        x.is_unimodular(),
{
    lemma_det_times1(m, x);
    lemma_det_identity1();
    lemma_unit_factors(m.det(), x.det());
    lemma_comm(m.det(), x.det());
    lemma_unit_factors(x.det(), m.det());
}

/// The inverse of a matrix of dimension 1 is unique: where `x` is an inverse
/// of `m` on the right and `y` one of `x`, `y` is `m`.
pub proof fn lemma_inverse_unique1(m: Mat1<int>, x: Mat1<int>, y: Mat1<int>)
    requires
        m.times(x) == Mat1::<int>::identity(),
        x.times(y) == Mat1::<int>::identity(),
    ensures
        y == m,
{
    lemma_times_assoc1(m, x, y);
    lemma_times_identity1(m, Vec1::<int>::origin());
    lemma_times_identity1(y, Vec1::<int>::origin());
}

/// A matrix of dimension 1 whose determinant is `1` or `-1` has its
/// inverse on both sides; the determinant of the inverse is `1` or `-1`, and
/// the inverse of the inverse is the matrix.
pub proof fn lemma_inverse1(m: Mat1<int>)
    requires
        m.is_unimodular(),
    ensures
        m.times(m.inverse()) == Mat1::<int>::identity(),
        m.inverse().times(m) == Mat1::<int>::identity(),
        m.inverse().is_unimodular(),
        m.inverse().inverse() == m,
{
    let x = m.inverse();
    lemma_right_inverse_of1(m);
    lemma_right_inverse1(m, x);
    lemma_right_inverse_of1(x);
    lemma_inverse_unique1(m, x, x.inverse());
}

/// A matrix of dimension 1 has an inverse with integer components where its
/// determinant is `1` or `-1`, and there only.
pub proof fn lemma_has_inverse1(m: Mat1<int>)
    ensures
        m.has_inverse() == m.is_unimodular(),
{
    if m.is_unimodular() {
        lemma_inverse1(m);
        assert(m.times(m.inverse()) == Mat1::<int>::identity());
    }
    if m.has_inverse() {
        let x = choose|x: Mat1<int>| #[trigger] m.times(x) == Mat1::<int>::identity();
        lemma_right_inverse1(m, x);
    }
}

/// The inverse of a matrix of dimension 1 with an inverse of integer
/// components is invertible, and its inverse is the matrix.
pub proof fn lemma_inverted_twice1<N: Scalar>(m: Mat1<int>)
    requires
        <Mat1<N> as Inv>::invertible(m),
        m.is_unimodular(),
    ensures
        <Mat1<N> as Inv>::invertible(<Mat1<N> as Inv>::inverse_model(m)),
        <Mat1<N> as Inv>::inverse_model(m).is_unimodular(),
        <Mat1<N> as Inv>::inverse_model(<Mat1<N> as Inv>::inverse_model(m)) == m,
{
    lemma_has_inverse1(m);
    lemma_inverse1(m);
    lemma_has_inverse1(m.inverse());
}

/// The identity is neutral for the product of matrices of dimension 2, and
/// takes every vector to itself.
pub proof fn lemma_times_identity2(a: Mat2<int>, v: Vec2<int>)
    ensures
        a.times(Mat2::<int>::identity()) == a,
        Mat2::<int>::identity().times(a) == a,
        Mat2::<int>::identity().apply(v) == v,
{
}

/// The product of matrices of dimension 2 is associative.
pub proof fn lemma_times_assoc2(a: Mat2<int>, b: Mat2<int>, c: Mat2<int>)
    ensures
        a.times(b).times(c) == a.times(b.times(c)),
{
    lemma_row_mat_col2(
        a.m11, a.m12,
        b.m11, b.m12,
        b.m21, b.m22,
        c.m11, c.m21,
    );
    lemma_row_mat_col2(
        a.m11, a.m12,
        b.m11, b.m12,
        b.m21, b.m22,
        c.m12, c.m22,
    );
    lemma_row_mat_col2(
        a.m21, a.m22,
        b.m11, b.m12,
        b.m21, b.m22,
        c.m11, c.m21,
    );
    lemma_row_mat_col2(
        a.m21, a.m22,
        b.m11, b.m12,
        b.m21, b.m22,
        c.m12, c.m22,
    );
}

/// To apply a product of matrices of dimension 2 is to apply one after the other.
pub proof fn lemma_apply_times2(a: Mat2<int>, b: Mat2<int>, v: Vec2<int>)
    ensures
        a.times(b).apply(v) == a.apply(b.apply(v)),
{
    lemma_row_mat_col2(
        a.m11, a.m12,
        b.m11, b.m12,
        b.m21, b.m22,
        v.x, v.y,
    );
    lemma_row_mat_col2(
        a.m21, a.m22,
        b.m11, b.m12,
        b.m21, b.m22,
        v.x, v.y,
    );
}

/// The transpose of a product is the product of the transposes, in the other order.
pub proof fn lemma_transpose_times2(a: Mat2<int>, b: Mat2<int>)
    ensures
        a.times(b).transposed() == b.transposed().times(a.transposed()),
{
    lemma_comm(a.m11, b.m11);
    lemma_comm(a.m11, b.m12);
    lemma_comm(a.m12, b.m21);
    lemma_comm(a.m12, b.m22);
    lemma_comm(a.m21, b.m11);
    lemma_comm(a.m21, b.m12);
    lemma_comm(a.m22, b.m21);
    lemma_comm(a.m22, b.m22);
}

/// The absolute value of a matrix of dimension 2 takes the absolute value of
/// a vector to a bound of what the matrix makes of the vector: no component
/// of the product of the matrix and the vector is larger in absolute value.
pub proof fn lemma_absolute_apply2(a: Mat2<int>, v: Vec2<int>)
    ensures
        a.apply(v).abs().x <= a.abs().apply(v.abs()).x,
        a.apply(v).abs().y <= a.abs().apply(v.abs()).y,
{
    lemma_abs_product(a.m11, v.x);
    lemma_abs_product(a.m12, v.y);
    lemma_abs_product(a.m21, v.x);
    lemma_abs_product(a.m22, v.y);
}

/// The product of a matrix of dimension 2 and a vector is linear in the vector.
pub proof fn lemma_apply_linear2(a: Mat2<int>, u: Vec2<int>, v: Vec2<int>)
    ensures
        a.apply(u.sum(v)) == a.apply(u).sum(a.apply(v)),
        a.apply(u.diff(v)) == a.apply(u).diff(a.apply(v)),
        a.apply(v.opposite()) == a.apply(v).opposite(),
{
    lemma_dist_right2(a.m11, u.x, v.x);
    lemma_dist_diff(u.x, v.x, a.m11);
    lemma_pairs(a.m11, v.x);
    lemma_dist_right2(a.m12, u.y, v.y);
    lemma_dist_diff(u.y, v.y, a.m12);
    lemma_pairs(a.m12, v.y);
    lemma_dist_right2(a.m21, u.x, v.x);
    lemma_dist_diff(u.x, v.x, a.m21);
    lemma_pairs(a.m21, v.x);
    lemma_dist_right2(a.m22, u.y, v.y);
    lemma_dist_diff(u.y, v.y, a.m22);
    lemma_pairs(a.m22, v.y);
}

/// The product of two orthogonal matrices of dimension 2 is orthogonal, and
/// so are the transpose of an orthogonal matrix and the identity.
pub proof fn lemma_orthogonal_closed2(a: Mat2<int>, b: Mat2<int>)
    requires
        a.is_orthogonal(),
        b.is_orthogonal(),
    ensures
        a.times(b).is_orthogonal(),
        a.transposed().is_orthogonal(),
        Mat2::<int>::identity().is_orthogonal(),
{
    let at = a.transposed();
    let bt = b.transposed();
    let i = Mat2::<int>::identity();
    let v = Vec2::<int>::origin();
    lemma_transpose_times2(a, b);
    lemma_times_assoc2(a.times(b), bt, at);
    lemma_times_assoc2(a, b, bt);
    lemma_times_identity2(a, v);
    assert(a.times(b).times(bt) == a);
    lemma_times_assoc2(bt.times(at), a, b);
    lemma_times_assoc2(bt, at, a);
    lemma_times_identity2(bt, v);
    assert(bt.times(at).times(a) == bt);
    assert(at.transposed() == a);
}

/// An orthogonal matrix of dimension 2 and its transpose undo each other on
/// every vector.
pub proof fn lemma_orthogonal_undo2(a: Mat2<int>, v: Vec2<int>)
    requires
        a.is_orthogonal(),
    ensures
        a.apply(a.transposed().apply(v)) == v,
        a.transposed().apply(a.apply(v)) == v,
{
    lemma_apply_times2(a, a.transposed(), v);
    lemma_apply_times2(a.transposed(), a, v);
    lemma_times_identity2(a, v);
}

/// The identity matrix of dimension 2 is orthogonal.
pub proof fn lemma_identity_orthogonal2()
    ensures
        Mat2::<int>::identity().is_orthogonal(),
{
}

/// A matrix of dimension 2 with components among `-1`, `0` and `1` is
/// representable in every scalar type, and so are its transpose and its
/// absolute value.
pub proof fn lemma_unit_fits2<N: Scalar>(a: Mat2<int>)
    requires
        a.within_unit(),
    ensures
        a.transposed().within_unit(),
        a.abs().within_unit(),
        a.fits::<N>(),
        a.opposite().fits::<N>(),
{
    N::lemma_range();
}

/// A row and a column of 2 components among `-1`, `0` and `1` have an
/// inner product every step of which is representable in every scalar type.
pub proof fn lemma_unit_dot_fits2<N: Scalar>(r: Vec2<int>, c: Vec2<int>)
    requires
        -1 <= r.x <= 1,
        -1 <= c.x <= 1,
        -1 <= r.y <= 1,
        -1 <= c.y <= 1,
    ensures
        <Vec2<N> as Dot<N>>::dot_fits(r, c),
        -2 <= r.dot(c) <= 2,
{
    N::lemma_range();
    lemma_unit_product(r.x, c.x);
    lemma_unit_product(r.y, c.y);
}

/// Matrices of dimension 2 with components among `-1`, `0` and `1` have a
/// product every step of which is representable in every scalar type.
pub proof fn lemma_unit_times_fits2<N: Scalar>(a: Mat2<int>, b: Mat2<int>)
    requires
        a.within_unit(),
        b.within_unit(),
    ensures
        Mat2::<int>::times_fits::<N>(a, b),
{
    lemma_unit_dot_fits2::<N>(a.row1(), b.col1());
    lemma_unit_dot_fits2::<N>(a.row1(), b.col2());
    lemma_unit_dot_fits2::<N>(a.row2(), b.col1());
    lemma_unit_dot_fits2::<N>(a.row2(), b.col2());
}

/// A row of 2 components, one of which is `1` or `-1` and the others zero,
/// has with a vector that is representable together with its inverse an
/// inner product every step of which is representable.
pub proof fn lemma_axis_dot_fits2<N: Scalar>(r: Vec2<int>, v: Vec2<int>)
    requires
        -1 <= r.x <= 1,
        -1 <= r.y <= 1,
        abs_int(r.x) + abs_int(r.y) == 1,
        v.fits::<N>(),
        v.opposite().fits::<N>(),
    ensures
        <Vec2<N> as Dot<N>>::dot_fits(r, v),
        fits::<N>(r.dot(v)),
        fits::<N>(-r.dot(v)),
{
    N::lemma_range();
    lemma_unit_times(r.x, v.x);
    lemma_unit_times(r.y, v.y);
}

/// An orthogonal matrix of dimension 2 has with a vector that is
/// representable together with its inverse a product every step of which is
/// representable, and so have its transpose and its absolute value.
pub proof fn lemma_orthogonal_apply_fits2<N: Scalar>(a: Mat2<int>, v: Vec2<int>)
    requires
        a.is_orthogonal(),
        v.fits::<N>(),
        v.opposite().fits::<N>(),
    ensures
        Mat2::<int>::apply_fits::<N>(a, v),
        Mat2::<int>::apply_fits::<N>(a.transposed(), v),
        Mat2::<int>::apply_fits::<N>(a.abs(), v),
        a.apply(v).fits::<N>(),
        a.apply(v).opposite().fits::<N>(),
        a.transposed().apply(v).fits::<N>(),
        a.transposed().apply(v).opposite().fits::<N>(),
{
    lemma_orthogonal_rows2(a);
    lemma_orthogonal_closed2(a, a);
    lemma_orthogonal_rows2(a.transposed());
    lemma_axis_dot_fits2::<N>(a.row1(), v);
    lemma_axis_dot_fits2::<N>(a.transposed().row1(), v);
    lemma_axis_dot_fits2::<N>(a.abs().row1(), v);
    lemma_axis_dot_fits2::<N>(a.row2(), v);
    lemma_axis_dot_fits2::<N>(a.transposed().row2(), v);
    lemma_axis_dot_fits2::<N>(a.abs().row2(), v);
}

/// Integers whose squares add up to one: one of them is `1` or `-1`, and the
/// others are zero.
proof fn lemma_unit_row2(x: int, y: int)
    requires
        x * x + y * y == 1,
    ensures
        -1 <= x <= 1,
        -1 <= y <= 1,
        abs_int(x) + abs_int(y) == 1,
{
    lemma_square_nonneg(x);
    lemma_square_nonneg(y);
    lemma_square_le_one(x);
    lemma_unit_square(x);
    lemma_square_le_one(y);
    lemma_unit_square(y);
}

/// Every row of an orthogonal matrix of dimension 2 has one component that
/// is `1` or `-1`, and zero for the others.
pub proof fn lemma_orthogonal_rows2(a: Mat2<int>)
    requires
        a.is_orthogonal(),
    ensures
        a.within_unit(),
        abs_int(a.m11) + abs_int(a.m12) == 1,
        abs_int(a.m21) + abs_int(a.m22) == 1,
{
    let p = a.times(a.transposed());
    assert(p.m11 == 1);
    lemma_unit_row2(a.m11, a.m12);
    assert(p.m22 == 1);
    lemma_unit_row2(a.m21, a.m22);
}

/// Every component of an orthogonal matrix of dimension 2 is `-1`, `0` or `1`.
pub proof fn lemma_orthogonal_entries2(a: Mat2<int>)
    requires
        a.is_orthogonal(),
    ensures
        a.within_unit(),
{
    lemma_orthogonal_rows2(a);
}

/// To lower the homogeneous form of a matrix of dimension 2 gives the matrix back.
pub proof fn lemma_homogeneous_round_trip_mat2(m: Mat2<int>)
    ensures
        m.lifted().lowered() == m,
{
}

/// A matrix of dimension 2 times its adjugate is its determinant times the
/// identity.
pub proof fn lemma_adjugate2(m: Mat2<int>)
    ensures
        m.times(m.adjugate()).m11 == m.det(),
        m.times(m.adjugate()).m12 == 0,
        m.times(m.adjugate()).m21 == 0,
        m.times(m.adjugate()).m22 == m.det(),
{
    lemma_pairs(m.m11, m.m22);
    lemma_pairs(m.m12, m.m21);
    lemma_pairs(m.m11, m.m12);
    lemma_pairs(m.m21, m.m22);
}

/// The determinant of the identity matrix of dimension 2 is one.
pub proof fn lemma_det_identity2()
    ensures
        Mat2::<int>::identity().det() == 1,
{
    assert(Mat2::<int>::identity().det() == 1int * 1int - 0int * 0int);
}

/// A matrix of dimension 2 whose determinant is `1` or `-1` has its
/// inverse on the right.
proof fn lemma_right_inverse_of2(m: Mat2<int>)
    requires
        m.is_unimodular(),
    ensures
        m.times(m.inverse()) == Mat2::<int>::identity(),
{
    lemma_adjugate2(m);
    if m.det() == -1 {
        let a = m.adjugate();
        lemma_pairs(m.m11, a.m11);
        lemma_pairs(m.m11, a.m12);
        lemma_pairs(m.m12, a.m21);
        lemma_pairs(m.m12, a.m22);
        lemma_pairs(m.m21, a.m11);
        lemma_pairs(m.m21, a.m12);
        lemma_pairs(m.m22, a.m21);
        lemma_pairs(m.m22, a.m22);
    }
}

/// Matrices of dimension 2 whose product is the identity have determinant
/// `1` or `-1`.
pub proof fn lemma_right_inverse2(m: Mat2<int>, x: Mat2<int>)
    requires
        m.times(x) == Mat2::<int>::identity(),
    ensures
        m.is_unimodular(),
        x.is_unimodular(),
{
    lemma_det_times2(m, x);
    lemma_det_identity2();
    lemma_unit_factors(m.det(), x.det());
    lemma_comm(m.det(), x.det());
    lemma_unit_factors(x.det(), m.det());
}

/// The inverse of a matrix of dimension 2 is unique: where `x` is an inverse
/// of `m` on the right and `y` one of `x`, `y` is `m`.
pub proof fn lemma_inverse_unique2(m: Mat2<int>, x: Mat2<int>, y: Mat2<int>)
    requires
        m.times(x) == Mat2::<int>::identity(),
        x.times(y) == Mat2::<int>::identity(),
    ensures
        y == m,
{
    lemma_times_assoc2(m, x, y);
    lemma_times_identity2(m, Vec2::<int>::origin());
    lemma_times_identity2(y, Vec2::<int>::origin());
}

/// A matrix of dimension 2 whose determinant is `1` or `-1` has its
/// inverse on both sides; the determinant of the inverse is `1` or `-1`, and
/// the inverse of the inverse is the matrix.
pub proof fn lemma_inverse2(m: Mat2<int>)
    requires
        m.is_unimodular(),
    ensures
        m.times(m.inverse()) == Mat2::<int>::identity(),
        m.inverse().times(m) == Mat2::<int>::identity(),
        m.inverse().is_unimodular(),
        m.inverse().inverse() == m,
{
    let x = m.inverse();
    lemma_right_inverse_of2(m);
    lemma_right_inverse2(m, x);
    lemma_right_inverse_of2(x);
    lemma_inverse_unique2(m, x, x.inverse());
}

/// A matrix of dimension 2 has an inverse with integer components where its
/// determinant is `1` or `-1`, and there only.
pub proof fn lemma_has_inverse2(m: Mat2<int>)
    ensures
        m.has_inverse() == m.is_unimodular(),
{
    if m.is_unimodular() {
        lemma_inverse2(m);
        assert(m.times(m.inverse()) == Mat2::<int>::identity());
    }
    if m.has_inverse() {
        let x = choose|x: Mat2<int>| #[trigger] m.times(x) == Mat2::<int>::identity();
        lemma_right_inverse2(m, x);
    }
}

/// The inverse of a matrix of dimension 2 with an inverse of integer
/// components is invertible, and its inverse is the matrix.
pub proof fn lemma_inverted_twice2<N: Scalar>(m: Mat2<int>)
    requires
        <Mat2<N> as Inv>::invertible(m),
        m.is_unimodular(),
    ensures
        <Mat2<N> as Inv>::invertible(<Mat2<N> as Inv>::inverse_model(m)),
        <Mat2<N> as Inv>::inverse_model(m).is_unimodular(),
        <Mat2<N> as Inv>::inverse_model(<Mat2<N> as Inv>::inverse_model(m)) == m,
{
    lemma_has_inverse2(m);
    lemma_inverse2(m);
    lemma_has_inverse2(m.inverse());
}

/// The identity is neutral for the product of matrices of dimension 3, and
/// takes every vector to itself.
pub proof fn lemma_times_identity3(a: Mat3<int>, v: Vec3<int>)
    ensures
        a.times(Mat3::<int>::identity()) == a,
        Mat3::<int>::identity().times(a) == a,
        Mat3::<int>::identity().apply(v) == v,
{
}

/// The product of matrices of dimension 3 is associative.
pub proof fn lemma_times_assoc3(a: Mat3<int>, b: Mat3<int>, c: Mat3<int>)
    ensures
        a.times(b).times(c) == a.times(b.times(c)),
{
    lemma_row_mat_col3(
        a.m11, a.m12, a.m13,
        b.m11, b.m12, b.m13,
        b.m21, b.m22, b.m23,
        b.m31, b.m32, b.m33,
        c.m11, c.m21, c.m31,
    );
    lemma_row_mat_col3(
        a.m11, a.m12, a.m13,
        b.m11, b.m12, b.m13,
        b.m21, b.m22, b.m23,
        b.m31, b.m32, b.m33,
        c.m12, c.m22, c.m32,
    );
    lemma_row_mat_col3(
        a.m11, a.m12, a.m13,
        b.m11, b.m12, b.m13,
        b.m21, b.m22, b.m23,
        b.m31, b.m32, b.m33,
        c.m13, c.m23, c.m33,
    );
    lemma_row_mat_col3(
        a.m21, a.m22, a.m23,
        b.m11, b.m12, b.m13,
        b.m21, b.m22, b.m23,
        b.m31, b.m32, b.m33,
        c.m11, c.m21, c.m31,
    );
    lemma_row_mat_col3(
        a.m21, a.m22, a.m23,
        b.m11, b.m12, b.m13,
        b.m21, b.m22, b.m23,
        b.m31, b.m32, b.m33,
        c.m12, c.m22, c.m32,
    );
    lemma_row_mat_col3(
        a.m21, a.m22, a.m23,
        b.m11, b.m12, b.m13,
        b.m21, b.m22, b.m23,
        b.m31, b.m32, b.m33,
        c.m13, c.m23, c.m33,
    );
    lemma_row_mat_col3(
        a.m31, a.m32, a.m33,
        b.m11, b.m12, b.m13,
        b.m21, b.m22, b.m23,
        b.m31, b.m32, b.m33,
        c.m11, c.m21, c.m31,
    );
    lemma_row_mat_col3(
        a.m31, a.m32, a.m33,
        b.m11, b.m12, b.m13,
        b.m21, b.m22, b.m23,
        b.m31, b.m32, b.m33,
        c.m12, c.m22, c.m32,
    );
    lemma_row_mat_col3(
        a.m31, a.m32, a.m33,
        b.m11, b.m12, b.m13,
        b.m21, b.m22, b.m23,
        b.m31, b.m32, b.m33,
        c.m13, c.m23, c.m33,
    );
}

/// To apply a product of matrices of dimension 3 is to apply one after the other.
pub proof fn lemma_apply_times3(a: Mat3<int>, b: Mat3<int>, v: Vec3<int>)
    ensures
        a.times(b).apply(v) == a.apply(b.apply(v)),
{
    lemma_row_mat_col3(
        a.m11, a.m12, a.m13,
        b.m11, b.m12, b.m13,
        b.m21, b.m22, b.m23,
        b.m31, b.m32, b.m33,
        v.x, v.y, v.z,
    );
    lemma_row_mat_col3(
        a.m21, a.m22, a.m23,
        b.m11, b.m12, b.m13,
        b.m21, b.m22, b.m23,
        b.m31, b.m32, b.m33,
        v.x, v.y, v.z,
    );
    lemma_row_mat_col3(
        a.m31, a.m32, a.m33,
        b.m11, b.m12, b.m13,
        b.m21, b.m22, b.m23,
        b.m31, b.m32, b.m33,
        v.x, v.y, v.z,
    );
}

/// The transpose of a product is the product of the transposes, in the other order.
pub proof fn lemma_transpose_times3(a: Mat3<int>, b: Mat3<int>)
    ensures
        a.times(b).transposed() == b.transposed().times(a.transposed()),
{
    lemma_comm(a.m11, b.m11);
    lemma_comm(a.m11, b.m12);
    lemma_comm(a.m11, b.m13);
    lemma_comm(a.m12, b.m21);
    lemma_comm(a.m12, b.m22);
    lemma_comm(a.m12, b.m23);
    lemma_comm(a.m13, b.m31);
    lemma_comm(a.m13, b.m32);
    lemma_comm(a.m13, b.m33);
    lemma_comm(a.m21, b.m11);
    lemma_comm(a.m21, b.m12);
    lemma_comm(a.m21, b.m13);
    lemma_comm(a.m22, b.m21);
    lemma_comm(a.m22, b.m22);
    lemma_comm(a.m22, b.m23);
    lemma_comm(a.m23, b.m31);
    lemma_comm(a.m23, b.m32);
    lemma_comm(a.m23, b.m33);
    lemma_comm(a.m31, b.m11);
    lemma_comm(a.m31, b.m12);
    lemma_comm(a.m31, b.m13);
    lemma_comm(a.m32, b.m21);
    lemma_comm(a.m32, b.m22);
    lemma_comm(a.m32, b.m23);
    lemma_comm(a.m33, b.m31);
    lemma_comm(a.m33, b.m32);
    lemma_comm(a.m33, b.m33);
}

/// The absolute value of a matrix of dimension 3 takes the absolute value of
/// a vector to a bound of what the matrix makes of the vector: no component
/// of the product of the matrix and the vector is larger in absolute value.
pub proof fn lemma_absolute_apply3(a: Mat3<int>, v: Vec3<int>)
    ensures
        a.apply(v).abs().x <= a.abs().apply(v.abs()).x,
        a.apply(v).abs().y <= a.abs().apply(v.abs()).y,
        a.apply(v).abs().z <= a.abs().apply(v.abs()).z,
{
    lemma_abs_product(a.m11, v.x);
    lemma_abs_product(a.m12, v.y);
    lemma_abs_product(a.m13, v.z);
    lemma_abs_product(a.m21, v.x);
    lemma_abs_product(a.m22, v.y);
    lemma_abs_product(a.m23, v.z);
    lemma_abs_product(a.m31, v.x);
    lemma_abs_product(a.m32, v.y);
    lemma_abs_product(a.m33, v.z);
}

/// The product of a matrix of dimension 3 and a vector is linear in the vector.
pub proof fn lemma_apply_linear3(a: Mat3<int>, u: Vec3<int>, v: Vec3<int>)
    ensures
        a.apply(u.sum(v)) == a.apply(u).sum(a.apply(v)),
        a.apply(u.diff(v)) == a.apply(u).diff(a.apply(v)),
        a.apply(v.opposite()) == a.apply(v).opposite(),
{
    lemma_dist_right2(a.m11, u.x, v.x);
    lemma_dist_diff(u.x, v.x, a.m11);
    lemma_pairs(a.m11, v.x);
    lemma_dist_right2(a.m12, u.y, v.y);
    lemma_dist_diff(u.y, v.y, a.m12);
    lemma_pairs(a.m12, v.y);
    lemma_dist_right2(a.m13, u.z, v.z);
    lemma_dist_diff(u.z, v.z, a.m13);
    lemma_pairs(a.m13, v.z);
    lemma_dist_right2(a.m21, u.x, v.x);
    lemma_dist_diff(u.x, v.x, a.m21);
    lemma_pairs(a.m21, v.x);
    lemma_dist_right2(a.m22, u.y, v.y);
    lemma_dist_diff(u.y, v.y, a.m22);
    lemma_pairs(a.m22, v.y);
    lemma_dist_right2(a.m23, u.z, v.z);
    lemma_dist_diff(u.z, v.z, a.m23);
    lemma_pairs(a.m23, v.z);
    lemma_dist_right2(a.m31, u.x, v.x);
    lemma_dist_diff(u.x, v.x, a.m31);
    lemma_pairs(a.m31, v.x);
    lemma_dist_right2(a.m32, u.y, v.y);
    lemma_dist_diff(u.y, v.y, a.m32);
    lemma_pairs(a.m32, v.y);
    lemma_dist_right2(a.m33, u.z, v.z);
    lemma_dist_diff(u.z, v.z, a.m33);
    lemma_pairs(a.m33, v.z);
}

/// The product of two orthogonal matrices of dimension 3 is orthogonal, and
/// so are the transpose of an orthogonal matrix and the identity.
pub proof fn lemma_orthogonal_closed3(a: Mat3<int>, b: Mat3<int>)
    requires
        a.is_orthogonal(),
        b.is_orthogonal(),
    ensures
        a.times(b).is_orthogonal(),
        a.transposed().is_orthogonal(),
        Mat3::<int>::identity().is_orthogonal(),
{
    let at = a.transposed();
    let bt = b.transposed();
    let i = Mat3::<int>::identity();
    let v = Vec3::<int>::origin();
    lemma_transpose_times3(a, b);
    lemma_times_assoc3(a.times(b), bt, at);
    lemma_times_assoc3(a, b, bt);
    lemma_times_identity3(a, v);
    assert(a.times(b).times(bt) == a);
    lemma_times_assoc3(bt.times(at), a, b);
    lemma_times_assoc3(bt, at, a);
    lemma_times_identity3(bt, v);
    assert(bt.times(at).times(a) == bt);
    assert(at.transposed() == a);
}

/// An orthogonal matrix of dimension 3 and its transpose undo each other on
/// every vector.
pub proof fn lemma_orthogonal_undo3(a: Mat3<int>, v: Vec3<int>)
    requires
        a.is_orthogonal(),
    ensures
        a.apply(a.transposed().apply(v)) == v,
        a.transposed().apply(a.apply(v)) == v,
{
    lemma_apply_times3(a, a.transposed(), v);
    lemma_apply_times3(a.transposed(), a, v);
    lemma_times_identity3(a, v);
}

/// The identity matrix of dimension 3 is orthogonal.
pub proof fn lemma_identity_orthogonal3()
    ensures
        Mat3::<int>::identity().is_orthogonal(),
{
}

/// A matrix of dimension 3 with components among `-1`, `0` and `1` is
/// representable in every scalar type, and so are its transpose and its
/// absolute value.
pub proof fn lemma_unit_fits3<N: Scalar>(a: Mat3<int>)
    requires
        a.within_unit(),
    ensures
        a.transposed().within_unit(),
        a.abs().within_unit(),
        a.fits::<N>(),
        a.opposite().fits::<N>(),
{
    N::lemma_range();
}

/// A row and a column of 3 components among `-1`, `0` and `1` have an
/// inner product every step of which is representable in every scalar type.
pub proof fn lemma_unit_dot_fits3<N: Scalar>(r: Vec3<int>, c: Vec3<int>)
    requires
        -1 <= r.x <= 1,
        -1 <= c.x <= 1,
        -1 <= r.y <= 1,
        -1 <= c.y <= 1,
        -1 <= r.z <= 1,
        -1 <= c.z <= 1,
    ensures
        <Vec3<N> as Dot<N>>::dot_fits(r, c),
        -3 <= r.dot(c) <= 3,
{
    N::lemma_range();
    lemma_unit_product(r.x, c.x);
    lemma_unit_product(r.y, c.y);
    lemma_unit_product(r.z, c.z);
}

/// Matrices of dimension 3 with components among `-1`, `0` and `1` have a
/// product every step of which is representable in every scalar type.
pub proof fn lemma_unit_times_fits3<N: Scalar>(a: Mat3<int>, b: Mat3<int>)
    requires
        a.within_unit(),
        b.within_unit(),
    ensures
        Mat3::<int>::times_fits::<N>(a, b),
{
    lemma_unit_dot_fits3::<N>(a.row1(), b.col1());
    lemma_unit_dot_fits3::<N>(a.row1(), b.col2());
    lemma_unit_dot_fits3::<N>(a.row1(), b.col3());
    lemma_unit_dot_fits3::<N>(a.row2(), b.col1());
    lemma_unit_dot_fits3::<N>(a.row2(), b.col2());
    lemma_unit_dot_fits3::<N>(a.row2(), b.col3());
    lemma_unit_dot_fits3::<N>(a.row3(), b.col1());
    lemma_unit_dot_fits3::<N>(a.row3(), b.col2());
    lemma_unit_dot_fits3::<N>(a.row3(), b.col3());
}

/// A row of 3 components, one of which is `1` or `-1` and the others zero,
/// has with a vector that is representable together with its inverse an
/// inner product every step of which is representable.
pub proof fn lemma_axis_dot_fits3<N: Scalar>(r: Vec3<int>, v: Vec3<int>)
    requires
        -1 <= r.x <= 1,
        -1 <= r.y <= 1,
        -1 <= r.z <= 1,
        abs_int(r.x) + abs_int(r.y) + abs_int(r.z) == 1,
        v.fits::<N>(),
        v.opposite().fits::<N>(),
    ensures
        <Vec3<N> as Dot<N>>::dot_fits(r, v),
        fits::<N>(r.dot(v)),
        fits::<N>(-r.dot(v)),
{
    N::lemma_range();
    lemma_unit_times(r.x, v.x);
    lemma_unit_times(r.y, v.y);
    lemma_unit_times(r.z, v.z);
}

/// An orthogonal matrix of dimension 3 has with a vector that is
/// representable together with its inverse a product every step of which is
/// representable, and so have its transpose and its absolute value.
pub proof fn lemma_orthogonal_apply_fits3<N: Scalar>(a: Mat3<int>, v: Vec3<int>)
    requires
        a.is_orthogonal(),
        v.fits::<N>(),
        v.opposite().fits::<N>(),
    ensures
        Mat3::<int>::apply_fits::<N>(a, v),
        Mat3::<int>::apply_fits::<N>(a.transposed(), v),
        Mat3::<int>::apply_fits::<N>(a.abs(), v),
        a.apply(v).fits::<N>(),
        a.apply(v).opposite().fits::<N>(),
        a.transposed().apply(v).fits::<N>(),
        a.transposed().apply(v).opposite().fits::<N>(),
{
    lemma_orthogonal_rows3(a);
    lemma_orthogonal_closed3(a, a);
    lemma_orthogonal_rows3(a.transposed());
    lemma_axis_dot_fits3::<N>(a.row1(), v);
    lemma_axis_dot_fits3::<N>(a.transposed().row1(), v);
    lemma_axis_dot_fits3::<N>(a.abs().row1(), v);
    lemma_axis_dot_fits3::<N>(a.row2(), v);
    lemma_axis_dot_fits3::<N>(a.transposed().row2(), v);
    lemma_axis_dot_fits3::<N>(a.abs().row2(), v);
    lemma_axis_dot_fits3::<N>(a.row3(), v);
    lemma_axis_dot_fits3::<N>(a.transposed().row3(), v);
    lemma_axis_dot_fits3::<N>(a.abs().row3(), v);
}

/// Integers whose squares add up to one: one of them is `1` or `-1`, and the
/// others are zero.
proof fn lemma_unit_row3(x: int, y: int, z: int)
    requires
        x * x + y * y + z * z == 1,
    ensures
        -1 <= x <= 1,
        -1 <= y <= 1,
        -1 <= z <= 1,
        abs_int(x) + abs_int(y) + abs_int(z) == 1,
{
    lemma_square_nonneg(x);
    lemma_square_nonneg(y);
    lemma_square_nonneg(z);
    lemma_square_le_one(x);
    lemma_unit_square(x);
    lemma_square_le_one(y);
    lemma_unit_square(y);
    lemma_square_le_one(z);
    lemma_unit_square(z);
}

/// Every row of an orthogonal matrix of dimension 3 has one component that
/// is `1` or `-1`, and zero for the others.
pub proof fn lemma_orthogonal_rows3(a: Mat3<int>)
    requires
        a.is_orthogonal(),
    ensures
        a.within_unit(),
        abs_int(a.m11) + abs_int(a.m12) + abs_int(a.m13) == 1,
        abs_int(a.m21) + abs_int(a.m22) + abs_int(a.m23) == 1,
        abs_int(a.m31) + abs_int(a.m32) + abs_int(a.m33) == 1,
{
    let p = a.times(a.transposed());
    assert(p.m11 == 1);
    lemma_unit_row3(a.m11, a.m12, a.m13);
    assert(p.m22 == 1);
    lemma_unit_row3(a.m21, a.m22, a.m23);
    assert(p.m33 == 1);
    lemma_unit_row3(a.m31, a.m32, a.m33);
}

/// Every component of an orthogonal matrix of dimension 3 is `-1`, `0` or `1`.
pub proof fn lemma_orthogonal_entries3(a: Mat3<int>)
    requires
        a.is_orthogonal(),
    ensures
        a.within_unit(),
{
    lemma_orthogonal_rows3(a);
}

/// To lower the homogeneous form of a matrix of dimension 3 gives the matrix back.
pub proof fn lemma_homogeneous_round_trip_mat3(m: Mat3<int>)
    ensures
        m.lifted().lowered() == m,
{
}

/// A matrix of dimension 3 times its adjugate is its determinant times the
/// identity.
pub proof fn lemma_adjugate3(m: Mat3<int>)
    ensures
        m.times(m.adjugate()).m11 == m.det(),
        m.times(m.adjugate()).m12 == 0,
        m.times(m.adjugate()).m13 == 0,
        m.times(m.adjugate()).m21 == 0,
        m.times(m.adjugate()).m22 == m.det(),
        m.times(m.adjugate()).m23 == 0,
        m.times(m.adjugate()).m31 == 0,
        m.times(m.adjugate()).m32 == 0,
        m.times(m.adjugate()).m33 == m.det(),
{
    let r1 = m.row1();
    let r2 = m.row2();
    let r3 = m.row3();
    let c = m.cofactors();
    assert(m.adjugate().col1() == c.row1());
    assert(m.adjugate().col2() == c.row2());
    assert(m.adjugate().col3() == c.row3());
    lemma_triple_product_cyclic(r1, r2, r3);
    lemma_triple_product_alternating(r2, r3, r3);
    lemma_triple_product_alternating(r3, r2, r2);
    lemma_triple_product_alternating(r1, r3, r3);
    lemma_triple_product_alternating(r3, r1, r1);
    lemma_triple_product_alternating(r1, r2, r2);
    lemma_triple_product_alternating(r2, r1, r1);
}

/// The determinant of the identity matrix of dimension 3 is one.
pub proof fn lemma_det_identity3()
    ensures
        Mat3::<int>::identity().det() == 1,
{
    let i = Mat3::<int>::identity();
    assert(i.row2().cross(i.row3()) == i.row1());
}

/// A matrix of dimension 3 whose determinant is `1` or `-1` has its
/// inverse on the right.
proof fn lemma_right_inverse_of3(m: Mat3<int>)
    requires
        m.is_unimodular(),
    ensures
        m.times(m.inverse()) == Mat3::<int>::identity(),
{
    lemma_adjugate3(m);
    if m.det() == -1 {
        let a = m.adjugate();
        lemma_pairs(m.m11, a.m11);
        lemma_pairs(m.m11, a.m12);
        lemma_pairs(m.m11, a.m13);
        lemma_pairs(m.m12, a.m21);
        lemma_pairs(m.m12, a.m22);
        lemma_pairs(m.m12, a.m23);
        lemma_pairs(m.m13, a.m31);
        lemma_pairs(m.m13, a.m32);
        lemma_pairs(m.m13, a.m33);
        lemma_pairs(m.m21, a.m11);
        lemma_pairs(m.m21, a.m12);
        lemma_pairs(m.m21, a.m13);
        lemma_pairs(m.m22, a.m21);
        lemma_pairs(m.m22, a.m22);
        lemma_pairs(m.m22, a.m23);
        lemma_pairs(m.m23, a.m31);
        lemma_pairs(m.m23, a.m32);
        lemma_pairs(m.m23, a.m33);
        lemma_pairs(m.m31, a.m11);
        lemma_pairs(m.m31, a.m12);
        lemma_pairs(m.m31, a.m13);
        lemma_pairs(m.m32, a.m21);
        lemma_pairs(m.m32, a.m22);
        lemma_pairs(m.m32, a.m23);
        lemma_pairs(m.m33, a.m31);
        lemma_pairs(m.m33, a.m32);
        lemma_pairs(m.m33, a.m33);
    }
}

/// Matrices of dimension 3 whose product is the identity have determinant
/// `1` or `-1`.
pub proof fn lemma_right_inverse3(m: Mat3<int>, x: Mat3<int>)
    requires
        m.times(x) == Mat3::<int>::identity(),
    ensures
        m.is_unimodular(),
        x.is_unimodular(),
{
    lemma_det_times3(m, x);
    lemma_det_identity3();
    lemma_unit_factors(m.det(), x.det());
    lemma_comm(m.det(), x.det());
    lemma_unit_factors(x.det(), m.det());
}

/// The inverse of a matrix of dimension 3 is unique: where `x` is an inverse
/// of `m` on the right and `y` one of `x`, `y` is `m`.
pub proof fn lemma_inverse_unique3(m: Mat3<int>, x: Mat3<int>, y: Mat3<int>)
    requires
        m.times(x) == Mat3::<int>::identity(),
        x.times(y) == Mat3::<int>::identity(),
    ensures
        y == m,
{
    lemma_times_assoc3(m, x, y);
    lemma_times_identity3(m, Vec3::<int>::origin());
    lemma_times_identity3(y, Vec3::<int>::origin());
}

/// A matrix of dimension 3 whose determinant is `1` or `-1` has its
/// inverse on both sides; the determinant of the inverse is `1` or `-1`, and
/// the inverse of the inverse is the matrix.
pub proof fn lemma_inverse3(m: Mat3<int>)
    requires
        m.is_unimodular(),
    ensures
        m.times(m.inverse()) == Mat3::<int>::identity(),
        m.inverse().times(m) == Mat3::<int>::identity(),
        m.inverse().is_unimodular(),
        m.inverse().inverse() == m,
{
    let x = m.inverse();
    lemma_right_inverse_of3(m);
    lemma_right_inverse3(m, x);
    lemma_right_inverse_of3(x);
    lemma_inverse_unique3(m, x, x.inverse());
}

/// A matrix of dimension 3 has an inverse with integer components where its
/// determinant is `1` or `-1`, and there only.
pub proof fn lemma_has_inverse3(m: Mat3<int>)
    ensures
        m.has_inverse() == m.is_unimodular(),
{
    if m.is_unimodular() {
        lemma_inverse3(m);
        assert(m.times(m.inverse()) == Mat3::<int>::identity());
    }
    if m.has_inverse() {
        let x = choose|x: Mat3<int>| #[trigger] m.times(x) == Mat3::<int>::identity();
        lemma_right_inverse3(m, x);
    }
}

/// The inverse of a matrix of dimension 3 with an inverse of integer
/// components is invertible, and its inverse is the matrix.
pub proof fn lemma_inverted_twice3<N: Scalar>(m: Mat3<int>)
    requires
        <Mat3<N> as Inv>::invertible(m),
        m.is_unimodular(),
    ensures
        <Mat3<N> as Inv>::invertible(<Mat3<N> as Inv>::inverse_model(m)),
        <Mat3<N> as Inv>::inverse_model(m).is_unimodular(),
        <Mat3<N> as Inv>::inverse_model(<Mat3<N> as Inv>::inverse_model(m)) == m,
{
    lemma_has_inverse3(m);
    lemma_inverse3(m);
    lemma_has_inverse3(m.inverse());
}

/// The identity is neutral for the product of matrices of dimension 4, and
/// takes every vector to itself.
pub proof fn lemma_times_identity4(a: Mat4<int>, v: Vec4<int>)
    ensures
        a.times(Mat4::<int>::identity()) == a,
        Mat4::<int>::identity().times(a) == a,
        Mat4::<int>::identity().apply(v) == v,
{
}

/// The product of matrices of dimension 4 is associative.
pub proof fn lemma_times_assoc4(a: Mat4<int>, b: Mat4<int>, c: Mat4<int>)
    ensures
        a.times(b).times(c) == a.times(b.times(c)),
{
    lemma_row_mat_col4(
        a.m11, a.m12, a.m13, a.m14,
        b.m11, b.m12, b.m13, b.m14,
        b.m21, b.m22, b.m23, b.m24,
        b.m31, b.m32, b.m33, b.m34,
        b.m41, b.m42, b.m43, b.m44,
        c.m11, c.m21, c.m31, c.m41,
    );
    lemma_row_mat_col4(
        a.m11, a.m12, a.m13, a.m14,
        b.m11, b.m12, b.m13, b.m14,
        b.m21, b.m22, b.m23, b.m24,
        b.m31, b.m32, b.m33, b.m34,
        b.m41, b.m42, b.m43, b.m44,
        c.m12, c.m22, c.m32, c.m42,
    );
    lemma_row_mat_col4(
        a.m11, a.m12, a.m13, a.m14,
        b.m11, b.m12, b.m13, b.m14,
        b.m21, b.m22, b.m23, b.m24,
        b.m31, b.m32, b.m33, b.m34,
        b.m41, b.m42, b.m43, b.m44,
        c.m13, c.m23, c.m33, c.m43,
    );
    lemma_row_mat_col4(
        a.m11, a.m12, a.m13, a.m14,
        b.m11, b.m12, b.m13, b.m14,
        b.m21, b.m22, b.m23, b.m24,
        b.m31, b.m32, b.m33, b.m34,
        b.m41, b.m42, b.m43, b.m44,
        c.m14, c.m24, c.m34, c.m44,
    );
    lemma_row_mat_col4(
        a.m21, a.m22, a.m23, a.m24,
        b.m11, b.m12, b.m13, b.m14,
        b.m21, b.m22, b.m23, b.m24,
        b.m31, b.m32, b.m33, b.m34,
        b.m41, b.m42, b.m43, b.m44,
        c.m11, c.m21, c.m31, c.m41,
    );
    lemma_row_mat_col4(
        a.m21, a.m22, a.m23, a.m24,
        b.m11, b.m12, b.m13, b.m14,
        b.m21, b.m22, b.m23, b.m24,
        b.m31, b.m32, b.m33, b.m34,
        b.m41, b.m42, b.m43, b.m44,
        c.m12, c.m22, c.m32, c.m42,
    );
    lemma_row_mat_col4(
        a.m21, a.m22, a.m23, a.m24,
        b.m11, b.m12, b.m13, b.m14,
        b.m21, b.m22, b.m23, b.m24,
        b.m31, b.m32, b.m33, b.m34,
        b.m41, b.m42, b.m43, b.m44,
        c.m13, c.m23, c.m33, c.m43,
    );
    lemma_row_mat_col4(
        a.m21, a.m22, a.m23, a.m24,
        b.m11, b.m12, b.m13, b.m14,
        b.m21, b.m22, b.m23, b.m24,
        b.m31, b.m32, b.m33, b.m34,
        b.m41, b.m42, b.m43, b.m44,
        c.m14, c.m24, c.m34, c.m44,
    );
    lemma_row_mat_col4(
        a.m31, a.m32, a.m33, a.m34,
        b.m11, b.m12, b.m13, b.m14,
        b.m21, b.m22, b.m23, b.m24,
        b.m31, b.m32, b.m33, b.m34,
        b.m41, b.m42, b.m43, b.m44,
        c.m11, c.m21, c.m31, c.m41,
    );
    lemma_row_mat_col4(
        a.m31, a.m32, a.m33, a.m34,
        b.m11, b.m12, b.m13, b.m14,
        b.m21, b.m22, b.m23, b.m24,
        b.m31, b.m32, b.m33, b.m34,
        b.m41, b.m42, b.m43, b.m44,
        c.m12, c.m22, c.m32, c.m42,
    );
    lemma_row_mat_col4(
        a.m31, a.m32, a.m33, a.m34,
        b.m11, b.m12, b.m13, b.m14,
        b.m21, b.m22, b.m23, b.m24,
        b.m31, b.m32, b.m33, b.m34,
        b.m41, b.m42, b.m43, b.m44,
        c.m13, c.m23, c.m33, c.m43,
    );
    lemma_row_mat_col4(
        a.m31, a.m32, a.m33, a.m34,
        b.m11, b.m12, b.m13, b.m14,
        b.m21, b.m22, b.m23, b.m24,
        b.m31, b.m32, b.m33, b.m34,
        b.m41, b.m42, b.m43, b.m44,
        c.m14, c.m24, c.m34, c.m44,
    );
    lemma_row_mat_col4(
        a.m41, a.m42, a.m43, a.m44,
        b.m11, b.m12, b.m13, b.m14,
        b.m21, b.m22, b.m23, b.m24,
        b.m31, b.m32, b.m33, b.m34,
        b.m41, b.m42, b.m43, b.m44,
        c.m11, c.m21, c.m31, c.m41,
    );
    lemma_row_mat_col4(
        a.m41, a.m42, a.m43, a.m44,
        b.m11, b.m12, b.m13, b.m14,
        b.m21, b.m22, b.m23, b.m24,
        b.m31, b.m32, b.m33, b.m34,
        b.m41, b.m42, b.m43, b.m44,
        c.m12, c.m22, c.m32, c.m42,
    );
    lemma_row_mat_col4(
        a.m41, a.m42, a.m43, a.m44,
        b.m11, b.m12, b.m13, b.m14,
        b.m21, b.m22, b.m23, b.m24,
        b.m31, b.m32, b.m33, b.m34,
        b.m41, b.m42, b.m43, b.m44,
        c.m13, c.m23, c.m33, c.m43,
    );
    lemma_row_mat_col4(
        a.m41, a.m42, a.m43, a.m44,
        b.m11, b.m12, b.m13, b.m14,
        b.m21, b.m22, b.m23, b.m24,
        b.m31, b.m32, b.m33, b.m34,
        b.m41, b.m42, b.m43, b.m44,
        c.m14, c.m24, c.m34, c.m44,
    );
}

/// To apply a product of matrices of dimension 4 is to apply one after the other.
pub proof fn lemma_apply_times4(a: Mat4<int>, b: Mat4<int>, v: Vec4<int>)
    ensures
        a.times(b).apply(v) == a.apply(b.apply(v)),
{
    lemma_row_mat_col4(
        a.m11, a.m12, a.m13, a.m14,
        b.m11, b.m12, b.m13, b.m14,
        b.m21, b.m22, b.m23, b.m24,
        b.m31, b.m32, b.m33, b.m34,
        b.m41, b.m42, b.m43, b.m44,
        v.x, v.y, v.z, v.w,
    );
    lemma_row_mat_col4(
        a.m21, a.m22, a.m23, a.m24,
        b.m11, b.m12, b.m13, b.m14,
        b.m21, b.m22, b.m23, b.m24,
        b.m31, b.m32, b.m33, b.m34,
        b.m41, b.m42, b.m43, b.m44,
        v.x, v.y, v.z, v.w,
    );
    lemma_row_mat_col4(
        a.m31, a.m32, a.m33, a.m34,
        b.m11, b.m12, b.m13, b.m14,
        b.m21, b.m22, b.m23, b.m24,
        b.m31, b.m32, b.m33, b.m34,
        b.m41, b.m42, b.m43, b.m44,
        v.x, v.y, v.z, v.w,
    );
    lemma_row_mat_col4(
        a.m41, a.m42, a.m43, a.m44,
        b.m11, b.m12, b.m13, b.m14,
        b.m21, b.m22, b.m23, b.m24,
        b.m31, b.m32, b.m33, b.m34,
        b.m41, b.m42, b.m43, b.m44,
        v.x, v.y, v.z, v.w,
    );
}

/// The transpose of a product is the product of the transposes, in the other order.
pub proof fn lemma_transpose_times4(a: Mat4<int>, b: Mat4<int>)
    ensures
        a.times(b).transposed() == b.transposed().times(a.transposed()),
{
    lemma_comm(a.m11, b.m11);
    lemma_comm(a.m11, b.m12);
    lemma_comm(a.m11, b.m13);
    lemma_comm(a.m11, b.m14);
    lemma_comm(a.m12, b.m21);
    lemma_comm(a.m12, b.m22);
    lemma_comm(a.m12, b.m23);
    lemma_comm(a.m12, b.m24);
    lemma_comm(a.m13, b.m31);
    lemma_comm(a.m13, b.m32);
    lemma_comm(a.m13, b.m33);
    lemma_comm(a.m13, b.m34);
    lemma_comm(a.m14, b.m41);
    lemma_comm(a.m14, b.m42);
    lemma_comm(a.m14, b.m43);
    lemma_comm(a.m14, b.m44);
    lemma_comm(a.m21, b.m11);
    lemma_comm(a.m21, b.m12);
    lemma_comm(a.m21, b.m13);
    lemma_comm(a.m21, b.m14);
    lemma_comm(a.m22, b.m21);
    lemma_comm(a.m22, b.m22);
    lemma_comm(a.m22, b.m23);
    lemma_comm(a.m22, b.m24);
    lemma_comm(a.m23, b.m31);
    lemma_comm(a.m23, b.m32);
    lemma_comm(a.m23, b.m33);
    lemma_comm(a.m23, b.m34);
    lemma_comm(a.m24, b.m41);
    lemma_comm(a.m24, b.m42);
    lemma_comm(a.m24, b.m43);
    lemma_comm(a.m24, b.m44);
    lemma_comm(a.m31, b.m11);
    lemma_comm(a.m31, b.m12);
    lemma_comm(a.m31, b.m13);
    lemma_comm(a.m31, b.m14);
    lemma_comm(a.m32, b.m21);
    lemma_comm(a.m32, b.m22);
    lemma_comm(a.m32, b.m23);
    lemma_comm(a.m32, b.m24);
    lemma_comm(a.m33, b.m31);
    lemma_comm(a.m33, b.m32);
    lemma_comm(a.m33, b.m33);
    lemma_comm(a.m33, b.m34);
    lemma_comm(a.m34, b.m41);
    lemma_comm(a.m34, b.m42);
    lemma_comm(a.m34, b.m43);
    lemma_comm(a.m34, b.m44);
    lemma_comm(a.m41, b.m11);
    lemma_comm(a.m41, b.m12);
    lemma_comm(a.m41, b.m13);
    lemma_comm(a.m41, b.m14);
    lemma_comm(a.m42, b.m21);
    lemma_comm(a.m42, b.m22);
    lemma_comm(a.m42, b.m23);
    lemma_comm(a.m42, b.m24);
    lemma_comm(a.m43, b.m31);
    lemma_comm(a.m43, b.m32);
    lemma_comm(a.m43, b.m33);
    lemma_comm(a.m43, b.m34);
    lemma_comm(a.m44, b.m41);
    lemma_comm(a.m44, b.m42);
    lemma_comm(a.m44, b.m43);
    lemma_comm(a.m44, b.m44);
}

/// The absolute value of a matrix of dimension 4 takes the absolute value of
/// a vector to a bound of what the matrix makes of the vector: no component
/// of the product of the matrix and the vector is larger in absolute value.
pub proof fn lemma_absolute_apply4(a: Mat4<int>, v: Vec4<int>)
    ensures
        a.apply(v).abs().x <= a.abs().apply(v.abs()).x,
        a.apply(v).abs().y <= a.abs().apply(v.abs()).y,
        a.apply(v).abs().z <= a.abs().apply(v.abs()).z,
        a.apply(v).abs().w <= a.abs().apply(v.abs()).w,
{
    lemma_abs_product(a.m11, v.x);
    lemma_abs_product(a.m12, v.y);
    lemma_abs_product(a.m13, v.z);
    lemma_abs_product(a.m14, v.w);
    lemma_abs_product(a.m21, v.x);
    lemma_abs_product(a.m22, v.y);
    lemma_abs_product(a.m23, v.z);
    lemma_abs_product(a.m24, v.w);
    lemma_abs_product(a.m31, v.x);
    lemma_abs_product(a.m32, v.y);
    lemma_abs_product(a.m33, v.z);
    lemma_abs_product(a.m34, v.w);
    lemma_abs_product(a.m41, v.x);
    lemma_abs_product(a.m42, v.y);
    lemma_abs_product(a.m43, v.z);
    lemma_abs_product(a.m44, v.w);
}

/// The product of a matrix of dimension 4 and a vector is linear in the vector.
pub proof fn lemma_apply_linear4(a: Mat4<int>, u: Vec4<int>, v: Vec4<int>)
    ensures
        a.apply(u.sum(v)) == a.apply(u).sum(a.apply(v)),
        a.apply(u.diff(v)) == a.apply(u).diff(a.apply(v)),
        a.apply(v.opposite()) == a.apply(v).opposite(),
{
    lemma_dist_right2(a.m11, u.x, v.x);
    lemma_dist_diff(u.x, v.x, a.m11);
    lemma_pairs(a.m11, v.x);
    lemma_dist_right2(a.m12, u.y, v.y);
    lemma_dist_diff(u.y, v.y, a.m12);
    lemma_pairs(a.m12, v.y);
    lemma_dist_right2(a.m13, u.z, v.z);
    lemma_dist_diff(u.z, v.z, a.m13);
    lemma_pairs(a.m13, v.z);
    lemma_dist_right2(a.m14, u.w, v.w);
    lemma_dist_diff(u.w, v.w, a.m14);
    lemma_pairs(a.m14, v.w);
    lemma_dist_right2(a.m21, u.x, v.x);
    lemma_dist_diff(u.x, v.x, a.m21);
    lemma_pairs(a.m21, v.x);
    lemma_dist_right2(a.m22, u.y, v.y);
    lemma_dist_diff(u.y, v.y, a.m22);
    lemma_pairs(a.m22, v.y);
    lemma_dist_right2(a.m23, u.z, v.z);
    lemma_dist_diff(u.z, v.z, a.m23);
    lemma_pairs(a.m23, v.z);
    lemma_dist_right2(a.m24, u.w, v.w);
    lemma_dist_diff(u.w, v.w, a.m24);
    lemma_pairs(a.m24, v.w);
    lemma_dist_right2(a.m31, u.x, v.x);
    lemma_dist_diff(u.x, v.x, a.m31);
    lemma_pairs(a.m31, v.x);
    lemma_dist_right2(a.m32, u.y, v.y);
    lemma_dist_diff(u.y, v.y, a.m32);
    lemma_pairs(a.m32, v.y);
    lemma_dist_right2(a.m33, u.z, v.z);
    lemma_dist_diff(u.z, v.z, a.m33);
    lemma_pairs(a.m33, v.z);
    lemma_dist_right2(a.m34, u.w, v.w);
    lemma_dist_diff(u.w, v.w, a.m34);
    lemma_pairs(a.m34, v.w);
    lemma_dist_right2(a.m41, u.x, v.x);
    lemma_dist_diff(u.x, v.x, a.m41);
    lemma_pairs(a.m41, v.x);
    lemma_dist_right2(a.m42, u.y, v.y);
    lemma_dist_diff(u.y, v.y, a.m42);
    lemma_pairs(a.m42, v.y);
    lemma_dist_right2(a.m43, u.z, v.z);
    lemma_dist_diff(u.z, v.z, a.m43);
    lemma_pairs(a.m43, v.z);
    lemma_dist_right2(a.m44, u.w, v.w);
    lemma_dist_diff(u.w, v.w, a.m44);
    lemma_pairs(a.m44, v.w);
}

/// The product of two orthogonal matrices of dimension 4 is orthogonal, and
/// so are the transpose of an orthogonal matrix and the identity.
pub proof fn lemma_orthogonal_closed4(a: Mat4<int>, b: Mat4<int>)
    requires
        a.is_orthogonal(),
        b.is_orthogonal(),
    ensures
        a.times(b).is_orthogonal(),
        a.transposed().is_orthogonal(),
        Mat4::<int>::identity().is_orthogonal(),
{
    let at = a.transposed();
    let bt = b.transposed();
    let i = Mat4::<int>::identity();
    let v = Vec4::<int>::origin();
    lemma_transpose_times4(a, b);
    lemma_times_assoc4(a.times(b), bt, at);
    lemma_times_assoc4(a, b, bt);
    lemma_times_identity4(a, v);
    assert(a.times(b).times(bt) == a);
    lemma_times_assoc4(bt.times(at), a, b);
    lemma_times_assoc4(bt, at, a);
    lemma_times_identity4(bt, v);
    assert(bt.times(at).times(a) == bt);
    assert(at.transposed() == a);
}

/// An orthogonal matrix of dimension 4 and its transpose undo each other on
/// every vector.
pub proof fn lemma_orthogonal_undo4(a: Mat4<int>, v: Vec4<int>)
    requires
        a.is_orthogonal(),
    ensures
        a.apply(a.transposed().apply(v)) == v,
        a.transposed().apply(a.apply(v)) == v,
{
    lemma_apply_times4(a, a.transposed(), v);
    lemma_apply_times4(a.transposed(), a, v);
    lemma_times_identity4(a, v);
}

/// The identity matrix of dimension 4 is orthogonal.
pub proof fn lemma_identity_orthogonal4()
    ensures
        Mat4::<int>::identity().is_orthogonal(),
{
}

/// A matrix of dimension 4 with components among `-1`, `0` and `1` is
/// representable in every scalar type, and so are its transpose and its
/// absolute value.
pub proof fn lemma_unit_fits4<N: Scalar>(a: Mat4<int>)
    requires
        a.within_unit(),
    ensures
        a.transposed().within_unit(),
        a.abs().within_unit(),
        a.fits::<N>(),
        a.opposite().fits::<N>(),
{
    N::lemma_range();
}

/// A row and a column of 4 components among `-1`, `0` and `1` have an
/// inner product every step of which is representable in every scalar type.
pub proof fn lemma_unit_dot_fits4<N: Scalar>(r: Vec4<int>, c: Vec4<int>)
    requires
        -1 <= r.x <= 1,
        -1 <= c.x <= 1,
        -1 <= r.y <= 1,
        -1 <= c.y <= 1,
        -1 <= r.z <= 1,
        -1 <= c.z <= 1,
        -1 <= r.w <= 1,
        -1 <= c.w <= 1,
    ensures
        <Vec4<N> as Dot<N>>::dot_fits(r, c),
        -4 <= r.dot(c) <= 4,
{
    N::lemma_range();
    lemma_unit_product(r.x, c.x);
    lemma_unit_product(r.y, c.y);
    lemma_unit_product(r.z, c.z);
    lemma_unit_product(r.w, c.w);
}

/// Matrices of dimension 4 with components among `-1`, `0` and `1` have a
/// product every step of which is representable in every scalar type.
pub proof fn lemma_unit_times_fits4<N: Scalar>(a: Mat4<int>, b: Mat4<int>)
    requires
        a.within_unit(),
        b.within_unit(),
    ensures
        Mat4::<int>::times_fits::<N>(a, b),
{
    lemma_unit_dot_fits4::<N>(a.row1(), b.col1());
    lemma_unit_dot_fits4::<N>(a.row1(), b.col2());
    lemma_unit_dot_fits4::<N>(a.row1(), b.col3());
    lemma_unit_dot_fits4::<N>(a.row1(), b.col4());
    lemma_unit_dot_fits4::<N>(a.row2(), b.col1());
    lemma_unit_dot_fits4::<N>(a.row2(), b.col2());
    lemma_unit_dot_fits4::<N>(a.row2(), b.col3());
    lemma_unit_dot_fits4::<N>(a.row2(), b.col4());
    lemma_unit_dot_fits4::<N>(a.row3(), b.col1());
    lemma_unit_dot_fits4::<N>(a.row3(), b.col2());
    lemma_unit_dot_fits4::<N>(a.row3(), b.col3());
    lemma_unit_dot_fits4::<N>(a.row3(), b.col4());
    lemma_unit_dot_fits4::<N>(a.row4(), b.col1());
    lemma_unit_dot_fits4::<N>(a.row4(), b.col2());
    lemma_unit_dot_fits4::<N>(a.row4(), b.col3());
    lemma_unit_dot_fits4::<N>(a.row4(), b.col4());
}

/// A row of 4 components, one of which is `1` or `-1` and the others zero,
/// has with a vector that is representable together with its inverse an
/// inner product every step of which is representable.
pub proof fn lemma_axis_dot_fits4<N: Scalar>(r: Vec4<int>, v: Vec4<int>)
    requires
        -1 <= r.x <= 1,
        -1 <= r.y <= 1,
        -1 <= r.z <= 1,
        -1 <= r.w <= 1,
        abs_int(r.x) + abs_int(r.y) + abs_int(r.z) + abs_int(r.w) == 1,
        v.fits::<N>(),
        v.opposite().fits::<N>(),
    ensures
        <Vec4<N> as Dot<N>>::dot_fits(r, v),
        fits::<N>(r.dot(v)),
        fits::<N>(-r.dot(v)),
{
    N::lemma_range();
    lemma_unit_times(r.x, v.x);
    lemma_unit_times(r.y, v.y);
    lemma_unit_times(r.z, v.z);
    lemma_unit_times(r.w, v.w);
}

/// An orthogonal matrix of dimension 4 has with a vector that is
/// representable together with its inverse a product every step of which is
/// representable, and so have its transpose and its absolute value.
pub proof fn lemma_orthogonal_apply_fits4<N: Scalar>(a: Mat4<int>, v: Vec4<int>)
    requires
        a.is_orthogonal(),
        v.fits::<N>(),
        v.opposite().fits::<N>(),
    ensures
        Mat4::<int>::apply_fits::<N>(a, v),
        Mat4::<int>::apply_fits::<N>(a.transposed(), v),
        Mat4::<int>::apply_fits::<N>(a.abs(), v),
        a.apply(v).fits::<N>(),
        a.apply(v).opposite().fits::<N>(),
        a.transposed().apply(v).fits::<N>(),
        a.transposed().apply(v).opposite().fits::<N>(),
{
    lemma_orthogonal_rows4(a);
    lemma_orthogonal_closed4(a, a);
    lemma_orthogonal_rows4(a.transposed());
    lemma_axis_dot_fits4::<N>(a.row1(), v);
    lemma_axis_dot_fits4::<N>(a.transposed().row1(), v);
    lemma_axis_dot_fits4::<N>(a.abs().row1(), v);
    lemma_axis_dot_fits4::<N>(a.row2(), v);
    lemma_axis_dot_fits4::<N>(a.transposed().row2(), v);
    lemma_axis_dot_fits4::<N>(a.abs().row2(), v);
    lemma_axis_dot_fits4::<N>(a.row3(), v);
    lemma_axis_dot_fits4::<N>(a.transposed().row3(), v);
    lemma_axis_dot_fits4::<N>(a.abs().row3(), v);
    lemma_axis_dot_fits4::<N>(a.row4(), v);
    lemma_axis_dot_fits4::<N>(a.transposed().row4(), v);
    lemma_axis_dot_fits4::<N>(a.abs().row4(), v);
}

/// Integers whose squares add up to one: one of them is `1` or `-1`, and the
/// others are zero.
proof fn lemma_unit_row4(x: int, y: int, z: int, w: int)
    requires
        x * x + y * y + z * z + w * w == 1,
    ensures
        -1 <= x <= 1,
        -1 <= y <= 1,
        -1 <= z <= 1,
        -1 <= w <= 1,
        abs_int(x) + abs_int(y) + abs_int(z) + abs_int(w) == 1,
{
    lemma_square_nonneg(x);
    lemma_square_nonneg(y);
    lemma_square_nonneg(z);
    lemma_square_nonneg(w);
    lemma_square_le_one(x);
    lemma_unit_square(x);
    lemma_square_le_one(y);
    lemma_unit_square(y);
    lemma_square_le_one(z);
    lemma_unit_square(z);
    lemma_square_le_one(w);
    lemma_unit_square(w);
}

/// Every row of an orthogonal matrix of dimension 4 has one component that
/// is `1` or `-1`, and zero for the others.
pub proof fn lemma_orthogonal_rows4(a: Mat4<int>)
    requires
        a.is_orthogonal(),
    ensures
        a.within_unit(),
        abs_int(a.m11) + abs_int(a.m12) + abs_int(a.m13) + abs_int(a.m14) == 1,
        abs_int(a.m21) + abs_int(a.m22) + abs_int(a.m23) + abs_int(a.m24) == 1,
        abs_int(a.m31) + abs_int(a.m32) + abs_int(a.m33) + abs_int(a.m34) == 1,
        abs_int(a.m41) + abs_int(a.m42) + abs_int(a.m43) + abs_int(a.m44) == 1,
{
    let p = a.times(a.transposed());
    assert(p.m11 == 1);
    lemma_unit_row4(a.m11, a.m12, a.m13, a.m14);
    assert(p.m22 == 1);
    lemma_unit_row4(a.m21, a.m22, a.m23, a.m24);
    assert(p.m33 == 1);
    lemma_unit_row4(a.m31, a.m32, a.m33, a.m34);
    assert(p.m44 == 1);
    lemma_unit_row4(a.m41, a.m42, a.m43, a.m44);
}

/// Every component of an orthogonal matrix of dimension 4 is `-1`, `0` or `1`.
pub proof fn lemma_orthogonal_entries4(a: Mat4<int>)
    requires
        a.is_orthogonal(),
    ensures
        a.within_unit(),
{
    lemma_orthogonal_rows4(a);
}

/// To lower the homogeneous form of a matrix of dimension 4 gives the matrix back.
pub proof fn lemma_homogeneous_round_trip_mat4(m: Mat4<int>)
    ensures
        m.lifted().lowered() == m,
{
}

/// A matrix of dimension 4 whose determinant is `1` or `-1` has its
/// inverse on the right.
proof fn lemma_right_inverse_of4(m: Mat4<int>)
    requires
        m.is_unimodular(),
    ensures
        m.times(m.inverse()) == Mat4::<int>::identity(),
{
    lemma_adjugate4(m);
    if m.det() == -1 {
        let a = m.adjugate();
        lemma_pairs(m.m11, a.m11);
        lemma_pairs(m.m11, a.m12);
        lemma_pairs(m.m11, a.m13);
        lemma_pairs(m.m11, a.m14);
        lemma_pairs(m.m12, a.m21);
        lemma_pairs(m.m12, a.m22);
        lemma_pairs(m.m12, a.m23);
        lemma_pairs(m.m12, a.m24);
        lemma_pairs(m.m13, a.m31);
        lemma_pairs(m.m13, a.m32);
        lemma_pairs(m.m13, a.m33);
        lemma_pairs(m.m13, a.m34);
        lemma_pairs(m.m14, a.m41);
        lemma_pairs(m.m14, a.m42);
        lemma_pairs(m.m14, a.m43);
        lemma_pairs(m.m14, a.m44);
        lemma_pairs(m.m21, a.m11);
        lemma_pairs(m.m21, a.m12);
        lemma_pairs(m.m21, a.m13);
        lemma_pairs(m.m21, a.m14);
        lemma_pairs(m.m22, a.m21);
        lemma_pairs(m.m22, a.m22);
        lemma_pairs(m.m22, a.m23);
        lemma_pairs(m.m22, a.m24);
        lemma_pairs(m.m23, a.m31);
        lemma_pairs(m.m23, a.m32);
        lemma_pairs(m.m23, a.m33);
        lemma_pairs(m.m23, a.m34);
        lemma_pairs(m.m24, a.m41);
        lemma_pairs(m.m24, a.m42);
        lemma_pairs(m.m24, a.m43);
        lemma_pairs(m.m24, a.m44);
        lemma_pairs(m.m31, a.m11);
        lemma_pairs(m.m31, a.m12);
        lemma_pairs(m.m31, a.m13);
        lemma_pairs(m.m31, a.m14);
        lemma_pairs(m.m32, a.m21);
        lemma_pairs(m.m32, a.m22);
        lemma_pairs(m.m32, a.m23);
        lemma_pairs(m.m32, a.m24);
        lemma_pairs(m.m33, a.m31);
        lemma_pairs(m.m33, a.m32);
        lemma_pairs(m.m33, a.m33);
        lemma_pairs(m.m33, a.m34);
        lemma_pairs(m.m34, a.m41);
        lemma_pairs(m.m34, a.m42);
        lemma_pairs(m.m34, a.m43);
        lemma_pairs(m.m34, a.m44);
        lemma_pairs(m.m41, a.m11);
        lemma_pairs(m.m41, a.m12);
        lemma_pairs(m.m41, a.m13);
        lemma_pairs(m.m41, a.m14);
        lemma_pairs(m.m42, a.m21);
        lemma_pairs(m.m42, a.m22);
        lemma_pairs(m.m42, a.m23);
        lemma_pairs(m.m42, a.m24);
        lemma_pairs(m.m43, a.m31);
        lemma_pairs(m.m43, a.m32);
        lemma_pairs(m.m43, a.m33);
        lemma_pairs(m.m43, a.m34);
        lemma_pairs(m.m44, a.m41);
        lemma_pairs(m.m44, a.m42);
        lemma_pairs(m.m44, a.m43);
        lemma_pairs(m.m44, a.m44);
    }
}

/// Matrices of dimension 4 whose product is the identity have determinant
/// `1` or `-1`.
pub proof fn lemma_right_inverse4(m: Mat4<int>, x: Mat4<int>)
    requires
        m.times(x) == Mat4::<int>::identity(),
    ensures
        m.is_unimodular(),
        x.is_unimodular(),
{
    lemma_det_times4(m, x);
    lemma_det_identity4();
    lemma_unit_factors(m.det(), x.det());
    lemma_comm(m.det(), x.det());
    lemma_unit_factors(x.det(), m.det());
}

/// The inverse of a matrix of dimension 4 is unique: where `x` is an inverse
/// of `m` on the right and `y` one of `x`, `y` is `m`.
pub proof fn lemma_inverse_unique4(m: Mat4<int>, x: Mat4<int>, y: Mat4<int>)
    requires
        m.times(x) == Mat4::<int>::identity(),
        x.times(y) == Mat4::<int>::identity(),
    ensures
        y == m,
{
    lemma_times_assoc4(m, x, y);
    lemma_times_identity4(m, Vec4::<int>::origin());
    lemma_times_identity4(y, Vec4::<int>::origin());
}

/// A matrix of dimension 4 whose determinant is `1` or `-1` has its
/// inverse on both sides; the determinant of the inverse is `1` or `-1`, and
/// the inverse of the inverse is the matrix.
pub proof fn lemma_inverse4(m: Mat4<int>)
    requires
        m.is_unimodular(),
    ensures
        m.times(m.inverse()) == Mat4::<int>::identity(),
        m.inverse().times(m) == Mat4::<int>::identity(),
        m.inverse().is_unimodular(),
        m.inverse().inverse() == m,
{
    let x = m.inverse();
    lemma_right_inverse_of4(m);
    lemma_right_inverse4(m, x);
    lemma_right_inverse_of4(x);
    lemma_inverse_unique4(m, x, x.inverse());
}

/// A matrix of dimension 4 has an inverse with integer components where its
/// determinant is `1` or `-1`, and there only.
pub proof fn lemma_has_inverse4(m: Mat4<int>)
    ensures
        m.has_inverse() == m.is_unimodular(),
{
    if m.is_unimodular() {
        lemma_inverse4(m);
        assert(m.times(m.inverse()) == Mat4::<int>::identity());
    }
    if m.has_inverse() {
        let x = choose|x: Mat4<int>| #[trigger] m.times(x) == Mat4::<int>::identity();
        lemma_right_inverse4(m, x);
    }
}

/// The inverse of a matrix of dimension 4 with an inverse of integer
/// components is invertible, and its inverse is the matrix.
pub proof fn lemma_inverted_twice4<N: Scalar>(m: Mat4<int>)
    requires
        <Mat4<N> as Inv>::invertible(m),
        m.is_unimodular(),
    ensures
        <Mat4<N> as Inv>::invertible(<Mat4<N> as Inv>::inverse_model(m)),
        <Mat4<N> as Inv>::inverse_model(m).is_unimodular(),
        <Mat4<N> as Inv>::inverse_model(<Mat4<N> as Inv>::inverse_model(m)) == m,
{
    lemma_has_inverse4(m);
    lemma_inverse4(m);
    lemma_has_inverse4(m.inverse());
}

/// The identity is neutral for the product of matrices of dimension 5, and
/// takes every vector to itself.
pub proof fn lemma_times_identity5(a: Mat5<int>, v: Vec5<int>)
    ensures
        a.times(Mat5::<int>::identity()) == a,
        Mat5::<int>::identity().times(a) == a,
        Mat5::<int>::identity().apply(v) == v,
{
}

/// The product of matrices of dimension 5 is associative.
pub proof fn lemma_times_assoc5(a: Mat5<int>, b: Mat5<int>, c: Mat5<int>)
    ensures
        a.times(b).times(c) == a.times(b.times(c)),
{
    lemma_row_mat_col5(
        a.m11, a.m12, a.m13, a.m14, a.m15,
        b.m11, b.m12, b.m13, b.m14, b.m15,
        b.m21, b.m22, b.m23, b.m24, b.m25,
        b.m31, b.m32, b.m33, b.m34, b.m35,
        b.m41, b.m42, b.m43, b.m44, b.m45,
        b.m51, b.m52, b.m53, b.m54, b.m55,
        c.m11, c.m21, c.m31, c.m41, c.m51,
    );
    lemma_row_mat_col5(
        a.m11, a.m12, a.m13, a.m14, a.m15,
        b.m11, b.m12, b.m13, b.m14, b.m15,
        b.m21, b.m22, b.m23, b.m24, b.m25,
        b.m31, b.m32, b.m33, b.m34, b.m35,
        b.m41, b.m42, b.m43, b.m44, b.m45,
        b.m51, b.m52, b.m53, b.m54, b.m55,
        c.m12, c.m22, c.m32, c.m42, c.m52,
    );
    lemma_row_mat_col5(
        a.m11, a.m12, a.m13, a.m14, a.m15,
        b.m11, b.m12, b.m13, b.m14, b.m15,
        b.m21, b.m22, b.m23, b.m24, b.m25,
        b.m31, b.m32, b.m33, b.m34, b.m35,
        b.m41, b.m42, b.m43, b.m44, b.m45,
        b.m51, b.m52, b.m53, b.m54, b.m55,
        c.m13, c.m23, c.m33, c.m43, c.m53,
    );
    lemma_row_mat_col5(
        a.m11, a.m12, a.m13, a.m14, a.m15,
        b.m11, b.m12, b.m13, b.m14, b.m15,
        b.m21, b.m22, b.m23, b.m24, b.m25,
        b.m31, b.m32, b.m33, b.m34, b.m35,
        b.m41, b.m42, b.m43, b.m44, b.m45,
        b.m51, b.m52, b.m53, b.m54, b.m55,
        c.m14, c.m24, c.m34, c.m44, c.m54,
    );
    lemma_row_mat_col5(
        a.m11, a.m12, a.m13, a.m14, a.m15,
        b.m11, b.m12, b.m13, b.m14, b.m15,
        b.m21, b.m22, b.m23, b.m24, b.m25,
        b.m31, b.m32, b.m33, b.m34, b.m35,
        b.m41, b.m42, b.m43, b.m44, b.m45,
        b.m51, b.m52, b.m53, b.m54, b.m55,
        c.m15, c.m25, c.m35, c.m45, c.m55,
    );
    lemma_row_mat_col5(
        a.m21, a.m22, a.m23, a.m24, a.m25,
        b.m11, b.m12, b.m13, b.m14, b.m15,
        b.m21, b.m22, b.m23, b.m24, b.m25,
        b.m31, b.m32, b.m33, b.m34, b.m35,
        b.m41, b.m42, b.m43, b.m44, b.m45,
        b.m51, b.m52, b.m53, b.m54, b.m55,
        c.m11, c.m21, c.m31, c.m41, c.m51,
    );
    lemma_row_mat_col5(
        a.m21, a.m22, a.m23, a.m24, a.m25,
        b.m11, b.m12, b.m13, b.m14, b.m15,
        b.m21, b.m22, b.m23, b.m24, b.m25,
        b.m31, b.m32, b.m33, b.m34, b.m35,
        b.m41, b.m42, b.m43, b.m44, b.m45,
        b.m51, b.m52, b.m53, b.m54, b.m55,
        c.m12, c.m22, c.m32, c.m42, c.m52,
    );
    lemma_row_mat_col5(
        a.m21, a.m22, a.m23, a.m24, a.m25,
        b.m11, b.m12, b.m13, b.m14, b.m15,
        b.m21, b.m22, b.m23, b.m24, b.m25,
        b.m31, b.m32, b.m33, b.m34, b.m35,
        b.m41, b.m42, b.m43, b.m44, b.m45,
        b.m51, b.m52, b.m53, b.m54, b.m55,
        c.m13, c.m23, c.m33, c.m43, c.m53,
    );
    lemma_row_mat_col5(
        a.m21, a.m22, a.m23, a.m24, a.m25,
        b.m11, b.m12, b.m13, b.m14, b.m15,
        b.m21, b.m22, b.m23, b.m24, b.m25,
        b.m31, b.m32, b.m33, b.m34, b.m35,
        b.m41, b.m42, b.m43, b.m44, b.m45,
        b.m51, b.m52, b.m53, b.m54, b.m55,
        c.m14, c.m24, c.m34, c.m44, c.m54,
    );
    lemma_row_mat_col5(
        a.m21, a.m22, a.m23, a.m24, a.m25,
        b.m11, b.m12, b.m13, b.m14, b.m15,
        b.m21, b.m22, b.m23, b.m24, b.m25,
        b.m31, b.m32, b.m33, b.m34, b.m35,
        b.m41, b.m42, b.m43, b.m44, b.m45,
        b.m51, b.m52, b.m53, b.m54, b.m55,
        c.m15, c.m25, c.m35, c.m45, c.m55,
    );
    lemma_row_mat_col5(
        a.m31, a.m32, a.m33, a.m34, a.m35,
        b.m11, b.m12, b.m13, b.m14, b.m15,
        b.m21, b.m22, b.m23, b.m24, b.m25,
        b.m31, b.m32, b.m33, b.m34, b.m35,
        b.m41, b.m42, b.m43, b.m44, b.m45,
        b.m51, b.m52, b.m53, b.m54, b.m55,
        c.m11, c.m21, c.m31, c.m41, c.m51,
    );
    lemma_row_mat_col5(
        a.m31, a.m32, a.m33, a.m34, a.m35,
        b.m11, b.m12, b.m13, b.m14, b.m15,
        b.m21, b.m22, b.m23, b.m24, b.m25,
        b.m31, b.m32, b.m33, b.m34, b.m35,
        b.m41, b.m42, b.m43, b.m44, b.m45,
        b.m51, b.m52, b.m53, b.m54, b.m55,
        c.m12, c.m22, c.m32, c.m42, c.m52,
    );
    lemma_row_mat_col5(
        a.m31, a.m32, a.m33, a.m34, a.m35,
        b.m11, b.m12, b.m13, b.m14, b.m15,
        b.m21, b.m22, b.m23, b.m24, b.m25,
        b.m31, b.m32, b.m33, b.m34, b.m35,
        b.m41, b.m42, b.m43, b.m44, b.m45,
        b.m51, b.m52, b.m53, b.m54, b.m55,
        c.m13, c.m23, c.m33, c.m43, c.m53,
    );
    lemma_row_mat_col5(
        a.m31, a.m32, a.m33, a.m34, a.m35,
        b.m11, b.m12, b.m13, b.m14, b.m15,
        b.m21, b.m22, b.m23, b.m24, b.m25,
        b.m31, b.m32, b.m33, b.m34, b.m35,
        b.m41, b.m42, b.m43, b.m44, b.m45,
        b.m51, b.m52, b.m53, b.m54, b.m55,
        c.m14, c.m24, c.m34, c.m44, c.m54,
    );
    lemma_row_mat_col5(
        a.m31, a.m32, a.m33, a.m34, a.m35,
        b.m11, b.m12, b.m13, b.m14, b.m15,
        b.m21, b.m22, b.m23, b.m24, b.m25,
        b.m31, b.m32, b.m33, b.m34, b.m35,
        b.m41, b.m42, b.m43, b.m44, b.m45,
        b.m51, b.m52, b.m53, b.m54, b.m55,
        c.m15, c.m25, c.m35, c.m45, c.m55,
    );
    lemma_row_mat_col5(
        a.m41, a.m42, a.m43, a.m44, a.m45,
        b.m11, b.m12, b.m13, b.m14, b.m15,
        b.m21, b.m22, b.m23, b.m24, b.m25,
        b.m31, b.m32, b.m33, b.m34, b.m35,
        b.m41, b.m42, b.m43, b.m44, b.m45,
        b.m51, b.m52, b.m53, b.m54, b.m55,
        c.m11, c.m21, c.m31, c.m41, c.m51,
    );
    lemma_row_mat_col5(
        a.m41, a.m42, a.m43, a.m44, a.m45,
        b.m11, b.m12, b.m13, b.m14, b.m15,
        b.m21, b.m22, b.m23, b.m24, b.m25,
        b.m31, b.m32, b.m33, b.m34, b.m35,
        b.m41, b.m42, b.m43, b.m44, b.m45,
        b.m51, b.m52, b.m53, b.m54, b.m55,
        c.m12, c.m22, c.m32, c.m42, c.m52,
    );
    lemma_row_mat_col5(
        a.m41, a.m42, a.m43, a.m44, a.m45,
        b.m11, b.m12, b.m13, b.m14, b.m15,
        b.m21, b.m22, b.m23, b.m24, b.m25,
        b.m31, b.m32, b.m33, b.m34, b.m35,
        b.m41, b.m42, b.m43, b.m44, b.m45,
        b.m51, b.m52, b.m53, b.m54, b.m55,
        c.m13, c.m23, c.m33, c.m43, c.m53,
    );
    lemma_row_mat_col5(
        a.m41, a.m42, a.m43, a.m44, a.m45,
        b.m11, b.m12, b.m13, b.m14, b.m15,
        b.m21, b.m22, b.m23, b.m24, b.m25,
        b.m31, b.m32, b.m33, b.m34, b.m35,
        b.m41, b.m42, b.m43, b.m44, b.m45,
        b.m51, b.m52, b.m53, b.m54, b.m55,
        c.m14, c.m24, c.m34, c.m44, c.m54,
    );
    lemma_row_mat_col5(
        a.m41, a.m42, a.m43, a.m44, a.m45,
        b.m11, b.m12, b.m13, b.m14, b.m15,
        b.m21, b.m22, b.m23, b.m24, b.m25,
        b.m31, b.m32, b.m33, b.m34, b.m35,
        b.m41, b.m42, b.m43, b.m44, b.m45,
        b.m51, b.m52, b.m53, b.m54, b.m55,
        c.m15, c.m25, c.m35, c.m45, c.m55,
    );
    lemma_row_mat_col5(
        a.m51, a.m52, a.m53, a.m54, a.m55,
        b.m11, b.m12, b.m13, b.m14, b.m15,
        b.m21, b.m22, b.m23, b.m24, b.m25,
        b.m31, b.m32, b.m33, b.m34, b.m35,
        b.m41, b.m42, b.m43, b.m44, b.m45,
        b.m51, b.m52, b.m53, b.m54, b.m55,
        c.m11, c.m21, c.m31, c.m41, c.m51,
    );
    lemma_row_mat_col5(
        a.m51, a.m52, a.m53, a.m54, a.m55,
        b.m11, b.m12, b.m13, b.m14, b.m15,
        b.m21, b.m22, b.m23, b.m24, b.m25,
        b.m31, b.m32, b.m33, b.m34, b.m35,
        b.m41, b.m42, b.m43, b.m44, b.m45,
        b.m51, b.m52, b.m53, b.m54, b.m55,
        c.m12, c.m22, c.m32, c.m42, c.m52,
    );
    lemma_row_mat_col5(
        a.m51, a.m52, a.m53, a.m54, a.m55,
        b.m11, b.m12, b.m13, b.m14, b.m15,
        b.m21, b.m22, b.m23, b.m24, b.m25,
        b.m31, b.m32, b.m33, b.m34, b.m35,
        b.m41, b.m42, b.m43, b.m44, b.m45,
        b.m51, b.m52, b.m53, b.m54, b.m55,
        c.m13, c.m23, c.m33, c.m43, c.m53,
    );
    lemma_row_mat_col5(
        a.m51, a.m52, a.m53, a.m54, a.m55,
        b.m11, b.m12, b.m13, b.m14, b.m15,
        b.m21, b.m22, b.m23, b.m24, b.m25,
        b.m31, b.m32, b.m33, b.m34, b.m35,
        b.m41, b.m42, b.m43, b.m44, b.m45,
        b.m51, b.m52, b.m53, b.m54, b.m55,
        c.m14, c.m24, c.m34, c.m44, c.m54,
    );
    lemma_row_mat_col5(
        a.m51, a.m52, a.m53, a.m54, a.m55,
        b.m11, b.m12, b.m13, b.m14, b.m15,
        b.m21, b.m22, b.m23, b.m24, b.m25,
        b.m31, b.m32, b.m33, b.m34, b.m35,
        b.m41, b.m42, b.m43, b.m44, b.m45,
        b.m51, b.m52, b.m53, b.m54, b.m55,
        c.m15, c.m25, c.m35, c.m45, c.m55,
    );
}

/// To apply a product of matrices of dimension 5 is to apply one after the other.
pub proof fn lemma_apply_times5(a: Mat5<int>, b: Mat5<int>, v: Vec5<int>)
    ensures
        a.times(b).apply(v) == a.apply(b.apply(v)),
{
    lemma_row_mat_col5(
        a.m11, a.m12, a.m13, a.m14, a.m15,
        b.m11, b.m12, b.m13, b.m14, b.m15,
        b.m21, b.m22, b.m23, b.m24, b.m25,
        b.m31, b.m32, b.m33, b.m34, b.m35,
        b.m41, b.m42, b.m43, b.m44, b.m45,
        b.m51, b.m52, b.m53, b.m54, b.m55,
        v.x, v.y, v.z, v.w, v.a,
    );
    lemma_row_mat_col5(
        a.m21, a.m22, a.m23, a.m24, a.m25,
        b.m11, b.m12, b.m13, b.m14, b.m15,
        b.m21, b.m22, b.m23, b.m24, b.m25,
        b.m31, b.m32, b.m33, b.m34, b.m35,
        b.m41, b.m42, b.m43, b.m44, b.m45,
        b.m51, b.m52, b.m53, b.m54, b.m55,
        v.x, v.y, v.z, v.w, v.a,
    );
    lemma_row_mat_col5(
        a.m31, a.m32, a.m33, a.m34, a.m35,
        b.m11, b.m12, b.m13, b.m14, b.m15,
        b.m21, b.m22, b.m23, b.m24, b.m25,
        b.m31, b.m32, b.m33, b.m34, b.m35,
        b.m41, b.m42, b.m43, b.m44, b.m45,
        b.m51, b.m52, b.m53, b.m54, b.m55,
        v.x, v.y, v.z, v.w, v.a,
    );
    lemma_row_mat_col5(
        a.m41, a.m42, a.m43, a.m44, a.m45,
        b.m11, b.m12, b.m13, b.m14, b.m15,
        b.m21, b.m22, b.m23, b.m24, b.m25,
        b.m31, b.m32, b.m33, b.m34, b.m35,
        b.m41, b.m42, b.m43, b.m44, b.m45,
        b.m51, b.m52, b.m53, b.m54, b.m55,
        v.x, v.y, v.z, v.w, v.a,
    );
    lemma_row_mat_col5(
        a.m51, a.m52, a.m53, a.m54, a.m55,
        b.m11, b.m12, b.m13, b.m14, b.m15,
        b.m21, b.m22, b.m23, b.m24, b.m25,
        b.m31, b.m32, b.m33, b.m34, b.m35,
        b.m41, b.m42, b.m43, b.m44, b.m45,
        b.m51, b.m52, b.m53, b.m54, b.m55,
        v.x, v.y, v.z, v.w, v.a,
    );
}

/// The transpose of a product is the product of the transposes, in the other order.
pub proof fn lemma_transpose_times5(a: Mat5<int>, b: Mat5<int>)
    ensures
        a.times(b).transposed() == b.transposed().times(a.transposed()),
{
    lemma_comm(a.m11, b.m11);
    lemma_comm(a.m11, b.m12);
    lemma_comm(a.m11, b.m13);
    lemma_comm(a.m11, b.m14);
    lemma_comm(a.m11, b.m15);
    lemma_comm(a.m12, b.m21);
    lemma_comm(a.m12, b.m22);
    lemma_comm(a.m12, b.m23);
    lemma_comm(a.m12, b.m24);
    lemma_comm(a.m12, b.m25);
    lemma_comm(a.m13, b.m31);
    lemma_comm(a.m13, b.m32);
    lemma_comm(a.m13, b.m33);
    lemma_comm(a.m13, b.m34);
    lemma_comm(a.m13, b.m35);
    lemma_comm(a.m14, b.m41);
    lemma_comm(a.m14, b.m42);
    lemma_comm(a.m14, b.m43);
    lemma_comm(a.m14, b.m44);
    lemma_comm(a.m14, b.m45);
    lemma_comm(a.m15, b.m51);
    lemma_comm(a.m15, b.m52);
    lemma_comm(a.m15, b.m53);
    lemma_comm(a.m15, b.m54);
    lemma_comm(a.m15, b.m55);
    lemma_comm(a.m21, b.m11);
    lemma_comm(a.m21, b.m12);
    lemma_comm(a.m21, b.m13);
    lemma_comm(a.m21, b.m14);
    lemma_comm(a.m21, b.m15);
    lemma_comm(a.m22, b.m21);
    lemma_comm(a.m22, b.m22);
    lemma_comm(a.m22, b.m23);
    lemma_comm(a.m22, b.m24);
    lemma_comm(a.m22, b.m25);
    lemma_comm(a.m23, b.m31);
    lemma_comm(a.m23, b.m32);
    lemma_comm(a.m23, b.m33);
    lemma_comm(a.m23, b.m34);
    lemma_comm(a.m23, b.m35);
    lemma_comm(a.m24, b.m41);
    lemma_comm(a.m24, b.m42);
    lemma_comm(a.m24, b.m43);
    lemma_comm(a.m24, b.m44);
    lemma_comm(a.m24, b.m45);
    lemma_comm(a.m25, b.m51);
    lemma_comm(a.m25, b.m52);
    lemma_comm(a.m25, b.m53);
    lemma_comm(a.m25, b.m54);
    lemma_comm(a.m25, b.m55);
    lemma_comm(a.m31, b.m11);
    lemma_comm(a.m31, b.m12);
    lemma_comm(a.m31, b.m13);
    lemma_comm(a.m31, b.m14);
    lemma_comm(a.m31, b.m15);
    lemma_comm(a.m32, b.m21);
    lemma_comm(a.m32, b.m22);
    lemma_comm(a.m32, b.m23);
    lemma_comm(a.m32, b.m24);
    lemma_comm(a.m32, b.m25);
    lemma_comm(a.m33, b.m31);
    lemma_comm(a.m33, b.m32);
    lemma_comm(a.m33, b.m33);
    lemma_comm(a.m33, b.m34);
    lemma_comm(a.m33, b.m35);
    lemma_comm(a.m34, b.m41);
    lemma_comm(a.m34, b.m42);
    lemma_comm(a.m34, b.m43);
    lemma_comm(a.m34, b.m44);
    lemma_comm(a.m34, b.m45);
    lemma_comm(a.m35, b.m51);
    lemma_comm(a.m35, b.m52);
    lemma_comm(a.m35, b.m53);
    lemma_comm(a.m35, b.m54);
    lemma_comm(a.m35, b.m55);
    lemma_comm(a.m41, b.m11);
    lemma_comm(a.m41, b.m12);
    lemma_comm(a.m41, b.m13);
    lemma_comm(a.m41, b.m14);
    lemma_comm(a.m41, b.m15);
    lemma_comm(a.m42, b.m21);
    lemma_comm(a.m42, b.m22);
    lemma_comm(a.m42, b.m23);
    lemma_comm(a.m42, b.m24);
    lemma_comm(a.m42, b.m25);
    lemma_comm(a.m43, b.m31);
    lemma_comm(a.m43, b.m32);
    lemma_comm(a.m43, b.m33);
    lemma_comm(a.m43, b.m34);
    lemma_comm(a.m43, b.m35);
    lemma_comm(a.m44, b.m41);
    lemma_comm(a.m44, b.m42);
    lemma_comm(a.m44, b.m43);
    lemma_comm(a.m44, b.m44);
    lemma_comm(a.m44, b.m45);
    lemma_comm(a.m45, b.m51);
    lemma_comm(a.m45, b.m52);
    lemma_comm(a.m45, b.m53);
    lemma_comm(a.m45, b.m54);
    lemma_comm(a.m45, b.m55);
    lemma_comm(a.m51, b.m11);
    lemma_comm(a.m51, b.m12);
    lemma_comm(a.m51, b.m13);
    lemma_comm(a.m51, b.m14);
    lemma_comm(a.m51, b.m15);
    lemma_comm(a.m52, b.m21);
    lemma_comm(a.m52, b.m22);
    lemma_comm(a.m52, b.m23);
    lemma_comm(a.m52, b.m24);
    lemma_comm(a.m52, b.m25);
    lemma_comm(a.m53, b.m31);
    lemma_comm(a.m53, b.m32);
    lemma_comm(a.m53, b.m33);
    lemma_comm(a.m53, b.m34);
    lemma_comm(a.m53, b.m35);
    lemma_comm(a.m54, b.m41);
    lemma_comm(a.m54, b.m42);
    lemma_comm(a.m54, b.m43);
    lemma_comm(a.m54, b.m44);
    lemma_comm(a.m54, b.m45);
    lemma_comm(a.m55, b.m51);
    lemma_comm(a.m55, b.m52);
    lemma_comm(a.m55, b.m53);
    lemma_comm(a.m55, b.m54);
    lemma_comm(a.m55, b.m55);
}

/// The absolute value of a matrix of dimension 5 takes the absolute value of
/// a vector to a bound of what the matrix makes of the vector: no component
/// of the product of the matrix and the vector is larger in absolute value.
pub proof fn lemma_absolute_apply5(a: Mat5<int>, v: Vec5<int>)
    ensures
        a.apply(v).abs().x <= a.abs().apply(v.abs()).x,
        a.apply(v).abs().y <= a.abs().apply(v.abs()).y,
        a.apply(v).abs().z <= a.abs().apply(v.abs()).z,
        a.apply(v).abs().w <= a.abs().apply(v.abs()).w,
        a.apply(v).abs().a <= a.abs().apply(v.abs()).a,
{
    lemma_abs_product(a.m11, v.x);
    lemma_abs_product(a.m12, v.y);
    lemma_abs_product(a.m13, v.z);
    lemma_abs_product(a.m14, v.w);
    lemma_abs_product(a.m15, v.a);
    lemma_abs_product(a.m21, v.x);
    lemma_abs_product(a.m22, v.y);
    lemma_abs_product(a.m23, v.z);
    lemma_abs_product(a.m24, v.w);
    lemma_abs_product(a.m25, v.a);
    lemma_abs_product(a.m31, v.x);
    lemma_abs_product(a.m32, v.y);
    lemma_abs_product(a.m33, v.z);
    lemma_abs_product(a.m34, v.w);
    lemma_abs_product(a.m35, v.a);
    lemma_abs_product(a.m41, v.x);
    lemma_abs_product(a.m42, v.y);
    lemma_abs_product(a.m43, v.z);
    lemma_abs_product(a.m44, v.w);
    lemma_abs_product(a.m45, v.a);
    lemma_abs_product(a.m51, v.x);
    lemma_abs_product(a.m52, v.y);
    lemma_abs_product(a.m53, v.z);
    lemma_abs_product(a.m54, v.w);
    lemma_abs_product(a.m55, v.a);
}

/// To lower the homogeneous form of a matrix of dimension 5 gives the matrix back.
pub proof fn lemma_homogeneous_round_trip_mat5(m: Mat5<int>)
    ensures
        m.lifted().lowered() == m,
{
}

/// The identity is neutral for the product of matrices of dimension 6, and
/// takes every vector to itself.
pub proof fn lemma_times_identity6(a: Mat6<int>, v: Vec6<int>)
    ensures
        a.times(Mat6::<int>::identity()) == a,
        Mat6::<int>::identity().times(a) == a,
        Mat6::<int>::identity().apply(v) == v,
{
}

/// The product of matrices of dimension 6 is associative.
pub proof fn lemma_times_assoc6(a: Mat6<int>, b: Mat6<int>, c: Mat6<int>)
    ensures
        a.times(b).times(c) == a.times(b.times(c)),
{
    lemma_row_mat_col6(
        a.m11, a.m12, a.m13, a.m14, a.m15, a.m16,
        b.m11, b.m12, b.m13, b.m14, b.m15, b.m16,
        b.m21, b.m22, b.m23, b.m24, b.m25, b.m26,
        b.m31, b.m32, b.m33, b.m34, b.m35, b.m36,
        b.m41, b.m42, b.m43, b.m44, b.m45, b.m46,
        b.m51, b.m52, b.m53, b.m54, b.m55, b.m56,
        b.m61, b.m62, b.m63, b.m64, b.m65, b.m66,
        c.m11, c.m21, c.m31, c.m41, c.m51, c.m61,
    );
    lemma_row_mat_col6(
        a.m11, a.m12, a.m13, a.m14, a.m15, a.m16,
        b.m11, b.m12, b.m13, b.m14, b.m15, b.m16,
        b.m21, b.m22, b.m23, b.m24, b.m25, b.m26,
        b.m31, b.m32, b.m33, b.m34, b.m35, b.m36,
        b.m41, b.m42, b.m43, b.m44, b.m45, b.m46,
        b.m51, b.m52, b.m53, b.m54, b.m55, b.m56,
        b.m61, b.m62, b.m63, b.m64, b.m65, b.m66,
        c.m12, c.m22, c.m32, c.m42, c.m52, c.m62,
    );
    lemma_row_mat_col6(
        a.m11, a.m12, a.m13, a.m14, a.m15, a.m16,
        b.m11, b.m12, b.m13, b.m14, b.m15, b.m16,
        b.m21, b.m22, b.m23, b.m24, b.m25, b.m26,
        b.m31, b.m32, b.m33, b.m34, b.m35, b.m36,
        b.m41, b.m42, b.m43, b.m44, b.m45, b.m46,
        b.m51, b.m52, b.m53, b.m54, b.m55, b.m56,
        b.m61, b.m62, b.m63, b.m64, b.m65, b.m66,
        c.m13, c.m23, c.m33, c.m43, c.m53, c.m63,
    );
    lemma_row_mat_col6(
        a.m11, a.m12, a.m13, a.m14, a.m15, a.m16,
        b.m11, b.m12, b.m13, b.m14, b.m15, b.m16,
        b.m21, b.m22, b.m23, b.m24, b.m25, b.m26,
        b.m31, b.m32, b.m33, b.m34, b.m35, b.m36,
        b.m41, b.m42, b.m43, b.m44, b.m45, b.m46,
        b.m51, b.m52, b.m53, b.m54, b.m55, b.m56,
        b.m61, b.m62, b.m63, b.m64, b.m65, b.m66,
        c.m14, c.m24, c.m34, c.m44, c.m54, c.m64,
    );
    lemma_row_mat_col6(
        a.m11, a.m12, a.m13, a.m14, a.m15, a.m16,
        b.m11, b.m12, b.m13, b.m14, b.m15, b.m16,
        b.m21, b.m22, b.m23, b.m24, b.m25, b.m26,
        b.m31, b.m32, b.m33, b.m34, b.m35, b.m36,
        b.m41, b.m42, b.m43, b.m44, b.m45, b.m46,
        b.m51, b.m52, b.m53, b.m54, b.m55, b.m56,
        b.m61, b.m62, b.m63, b.m64, b.m65, b.m66,
        c.m15, c.m25, c.m35, c.m45, c.m55, c.m65,
    );
    lemma_row_mat_col6(
        a.m11, a.m12, a.m13, a.m14, a.m15, a.m16,
        b.m11, b.m12, b.m13, b.m14, b.m15, b.m16,
        b.m21, b.m22, b.m23, b.m24, b.m25, b.m26,
        b.m31, b.m32, b.m33, b.m34, b.m35, b.m36,
        b.m41, b.m42, b.m43, b.m44, b.m45, b.m46,
        b.m51, b.m52, b.m53, b.m54, b.m55, b.m56,
        b.m61, b.m62, b.m63, b.m64, b.m65, b.m66,
        c.m16, c.m26, c.m36, c.m46, c.m56, c.m66,
    );
    lemma_row_mat_col6(
        a.m21, a.m22, a.m23, a.m24, a.m25, a.m26,
        b.m11, b.m12, b.m13, b.m14, b.m15, b.m16,
        b.m21, b.m22, b.m23, b.m24, b.m25, b.m26,
        b.m31, b.m32, b.m33, b.m34, b.m35, b.m36,
        b.m41, b.m42, b.m43, b.m44, b.m45, b.m46,
        b.m51, b.m52, b.m53, b.m54, b.m55, b.m56,
        b.m61, b.m62, b.m63, b.m64, b.m65, b.m66,
        c.m11, c.m21, c.m31, c.m41, c.m51, c.m61,
    );
    lemma_row_mat_col6(
        a.m21, a.m22, a.m23, a.m24, a.m25, a.m26,
        b.m11, b.m12, b.m13, b.m14, b.m15, b.m16,
        b.m21, b.m22, b.m23, b.m24, b.m25, b.m26,
        b.m31, b.m32, b.m33, b.m34, b.m35, b.m36,
        b.m41, b.m42, b.m43, b.m44, b.m45, b.m46,
        b.m51, b.m52, b.m53, b.m54, b.m55, b.m56,
        b.m61, b.m62, b.m63, b.m64, b.m65, b.m66,
        c.m12, c.m22, c.m32, c.m42, c.m52, c.m62,
    );
    lemma_row_mat_col6(
        a.m21, a.m22, a.m23, a.m24, a.m25, a.m26,
        b.m11, b.m12, b.m13, b.m14, b.m15, b.m16,
        b.m21, b.m22, b.m23, b.m24, b.m25, b.m26,
        b.m31, b.m32, b.m33, b.m34, b.m35, b.m36,
        b.m41, b.m42, b.m43, b.m44, b.m45, b.m46,
        b.m51, b.m52, b.m53, b.m54, b.m55, b.m56,
        b.m61, b.m62, b.m63, b.m64, b.m65, b.m66,
        c.m13, c.m23, c.m33, c.m43, c.m53, c.m63,
    );
    lemma_row_mat_col6(
        a.m21, a.m22, a.m23, a.m24, a.m25, a.m26,
        b.m11, b.m12, b.m13, b.m14, b.m15, b.m16,
        b.m21, b.m22, b.m23, b.m24, b.m25, b.m26,
        b.m31, b.m32, b.m33, b.m34, b.m35, b.m36,
        b.m41, b.m42, b.m43, b.m44, b.m45, b.m46,
        b.m51, b.m52, b.m53, b.m54, b.m55, b.m56,
        b.m61, b.m62, b.m63, b.m64, b.m65, b.m66,
        c.m14, c.m24, c.m34, c.m44, c.m54, c.m64,
    );
    lemma_row_mat_col6(
        a.m21, a.m22, a.m23, a.m24, a.m25, a.m26,
        b.m11, b.m12, b.m13, b.m14, b.m15, b.m16,
        b.m21, b.m22, b.m23, b.m24, b.m25, b.m26,
        b.m31, b.m32, b.m33, b.m34, b.m35, b.m36,
        b.m41, b.m42, b.m43, b.m44, b.m45, b.m46,
        b.m51, b.m52, b.m53, b.m54, b.m55, b.m56,
        b.m61, b.m62, b.m63, b.m64, b.m65, b.m66,
        c.m15, c.m25, c.m35, c.m45, c.m55, c.m65,
    );
    lemma_row_mat_col6(
        a.m21, a.m22, a.m23, a.m24, a.m25, a.m26,
        b.m11, b.m12, b.m13, b.m14, b.m15, b.m16,
        b.m21, b.m22, b.m23, b.m24, b.m25, b.m26,
        b.m31, b.m32, b.m33, b.m34, b.m35, b.m36,
        b.m41, b.m42, b.m43, b.m44, b.m45, b.m46,
        b.m51, b.m52, b.m53, b.m54, b.m55, b.m56,
        b.m61, b.m62, b.m63, b.m64, b.m65, b.m66,
        c.m16, c.m26, c.m36, c.m46, c.m56, c.m66,
    );
    lemma_row_mat_col6(
        a.m31, a.m32, a.m33, a.m34, a.m35, a.m36,
        b.m11, b.m12, b.m13, b.m14, b.m15, b.m16,
        b.m21, b.m22, b.m23, b.m24, b.m25, b.m26,
        b.m31, b.m32, b.m33, b.m34, b.m35, b.m36,
        b.m41, b.m42, b.m43, b.m44, b.m45, b.m46,
        b.m51, b.m52, b.m53, b.m54, b.m55, b.m56,
        b.m61, b.m62, b.m63, b.m64, b.m65, b.m66,
        c.m11, c.m21, c.m31, c.m41, c.m51, c.m61,
    );
    lemma_row_mat_col6(
        a.m31, a.m32, a.m33, a.m34, a.m35, a.m36,
        b.m11, b.m12, b.m13, b.m14, b.m15, b.m16,
        b.m21, b.m22, b.m23, b.m24, b.m25, b.m26,
        b.m31, b.m32, b.m33, b.m34, b.m35, b.m36,
        b.m41, b.m42, b.m43, b.m44, b.m45, b.m46,
        b.m51, b.m52, b.m53, b.m54, b.m55, b.m56,
        b.m61, b.m62, b.m63, b.m64, b.m65, b.m66,
        c.m12, c.m22, c.m32, c.m42, c.m52, c.m62,
    );
    lemma_row_mat_col6(
        a.m31, a.m32, a.m33, a.m34, a.m35, a.m36,
        b.m11, b.m12, b.m13, b.m14, b.m15, b.m16,
        b.m21, b.m22, b.m23, b.m24, b.m25, b.m26,
        b.m31, b.m32, b.m33, b.m34, b.m35, b.m36,
        b.m41, b.m42, b.m43, b.m44, b.m45, b.m46,
        b.m51, b.m52, b.m53, b.m54, b.m55, b.m56,
        b.m61, b.m62, b.m63, b.m64, b.m65, b.m66,
        c.m13, c.m23, c.m33, c.m43, c.m53, c.m63,
    );
    lemma_row_mat_col6(
        a.m31, a.m32, a.m33, a.m34, a.m35, a.m36,
        b.m11, b.m12, b.m13, b.m14, b.m15, b.m16,
        b.m21, b.m22, b.m23, b.m24, b.m25, b.m26,
        b.m31, b.m32, b.m33, b.m34, b.m35, b.m36,
        b.m41, b.m42, b.m43, b.m44, b.m45, b.m46,
        b.m51, b.m52, b.m53, b.m54, b.m55, b.m56,
        b.m61, b.m62, b.m63, b.m64, b.m65, b.m66,
        c.m14, c.m24, c.m34, c.m44, c.m54, c.m64,
    );
    lemma_row_mat_col6(
        a.m31, a.m32, a.m33, a.m34, a.m35, a.m36,
        b.m11, b.m12, b.m13, b.m14, b.m15, b.m16,
        b.m21, b.m22, b.m23, b.m24, b.m25, b.m26,
        b.m31, b.m32, b.m33, b.m34, b.m35, b.m36,
        b.m41, b.m42, b.m43, b.m44, b.m45, b.m46,
        b.m51, b.m52, b.m53, b.m54, b.m55, b.m56,
        b.m61, b.m62, b.m63, b.m64, b.m65, b.m66,
        c.m15, c.m25, c.m35, c.m45, c.m55, c.m65,
    );
    lemma_row_mat_col6(
        a.m31, a.m32, a.m33, a.m34, a.m35, a.m36,
        b.m11, b.m12, b.m13, b.m14, b.m15, b.m16,
        b.m21, b.m22, b.m23, b.m24, b.m25, b.m26,
        b.m31, b.m32, b.m33, b.m34, b.m35, b.m36,
        b.m41, b.m42, b.m43, b.m44, b.m45, b.m46,
        b.m51, b.m52, b.m53, b.m54, b.m55, b.m56,
        b.m61, b.m62, b.m63, b.m64, b.m65, b.m66,
        c.m16, c.m26, c.m36, c.m46, c.m56, c.m66,
    );
    lemma_row_mat_col6(
        a.m41, a.m42, a.m43, a.m44, a.m45, a.m46,
        b.m11, b.m12, b.m13, b.m14, b.m15, b.m16,
        b.m21, b.m22, b.m23, b.m24, b.m25, b.m26,
        b.m31, b.m32, b.m33, b.m34, b.m35, b.m36,
        b.m41, b.m42, b.m43, b.m44, b.m45, b.m46,
        b.m51, b.m52, b.m53, b.m54, b.m55, b.m56,
        b.m61, b.m62, b.m63, b.m64, b.m65, b.m66,
        c.m11, c.m21, c.m31, c.m41, c.m51, c.m61,
    );
    lemma_row_mat_col6(
        a.m41, a.m42, a.m43, a.m44, a.m45, a.m46,
        b.m11, b.m12, b.m13, b.m14, b.m15, b.m16,
        b.m21, b.m22, b.m23, b.m24, b.m25, b.m26,
        b.m31, b.m32, b.m33, b.m34, b.m35, b.m36,
        b.m41, b.m42, b.m43, b.m44, b.m45, b.m46,
        b.m51, b.m52, b.m53, b.m54, b.m55, b.m56,
        b.m61, b.m62, b.m63, b.m64, b.m65, b.m66,
        c.m12, c.m22, c.m32, c.m42, c.m52, c.m62,
    );
    lemma_row_mat_col6(
        a.m41, a.m42, a.m43, a.m44, a.m45, a.m46,
        b.m11, b.m12, b.m13, b.m14, b.m15, b.m16,
        b.m21, b.m22, b.m23, b.m24, b.m25, b.m26,
        b.m31, b.m32, b.m33, b.m34, b.m35, b.m36,
        b.m41, b.m42, b.m43, b.m44, b.m45, b.m46,
        b.m51, b.m52, b.m53, b.m54, b.m55, b.m56,
        b.m61, b.m62, b.m63, b.m64, b.m65, b.m66,
        c.m13, c.m23, c.m33, c.m43, c.m53, c.m63,
    );
    lemma_row_mat_col6(
        a.m41, a.m42, a.m43, a.m44, a.m45, a.m46,
        b.m11, b.m12, b.m13, b.m14, b.m15, b.m16,
        b.m21, b.m22, b.m23, b.m24, b.m25, b.m26,
        b.m31, b.m32, b.m33, b.m34, b.m35, b.m36,
        b.m41, b.m42, b.m43, b.m44, b.m45, b.m46,
        b.m51, b.m52, b.m53, b.m54, b.m55, b.m56,
        b.m61, b.m62, b.m63, b.m64, b.m65, b.m66,
        c.m14, c.m24, c.m34, c.m44, c.m54, c.m64,
    );
    lemma_row_mat_col6(
        a.m41, a.m42, a.m43, a.m44, a.m45, a.m46,
        b.m11, b.m12, b.m13, b.m14, b.m15, b.m16,
        b.m21, b.m22, b.m23, b.m24, b.m25, b.m26,
        b.m31, b.m32, b.m33, b.m34, b.m35, b.m36,
        b.m41, b.m42, b.m43, b.m44, b.m45, b.m46,
        b.m51, b.m52, b.m53, b.m54, b.m55, b.m56,
        b.m61, b.m62, b.m63, b.m64, b.m65, b.m66,
        c.m15, c.m25, c.m35, c.m45, c.m55, c.m65,
    );
    lemma_row_mat_col6(
        a.m41, a.m42, a.m43, a.m44, a.m45, a.m46,
        b.m11, b.m12, b.m13, b.m14, b.m15, b.m16,
        b.m21, b.m22, b.m23, b.m24, b.m25, b.m26,
        b.m31, b.m32, b.m33, b.m34, b.m35, b.m36,
        b.m41, b.m42, b.m43, b.m44, b.m45, b.m46,
        b.m51, b.m52, b.m53, b.m54, b.m55, b.m56,
        b.m61, b.m62, b.m63, b.m64, b.m65, b.m66,
        c.m16, c.m26, c.m36, c.m46, c.m56, c.m66,
    );
    lemma_row_mat_col6(
        a.m51, a.m52, a.m53, a.m54, a.m55, a.m56,
        b.m11, b.m12, b.m13, b.m14, b.m15, b.m16,
        b.m21, b.m22, b.m23, b.m24, b.m25, b.m26,
        b.m31, b.m32, b.m33, b.m34, b.m35, b.m36,
        b.m41, b.m42, b.m43, b.m44, b.m45, b.m46,
        b.m51, b.m52, b.m53, b.m54, b.m55, b.m56,
        b.m61, b.m62, b.m63, b.m64, b.m65, b.m66,
        c.m11, c.m21, c.m31, c.m41, c.m51, c.m61,
    );
    lemma_row_mat_col6(
        a.m51, a.m52, a.m53, a.m54, a.m55, a.m56,
        b.m11, b.m12, b.m13, b.m14, b.m15, b.m16,
        b.m21, b.m22, b.m23, b.m24, b.m25, b.m26,
        b.m31, b.m32, b.m33, b.m34, b.m35, b.m36,
        b.m41, b.m42, b.m43, b.m44, b.m45, b.m46,
        b.m51, b.m52, b.m53, b.m54, b.m55, b.m56,
        b.m61, b.m62, b.m63, b.m64, b.m65, b.m66,
        c.m12, c.m22, c.m32, c.m42, c.m52, c.m62,
    );
    lemma_row_mat_col6(
        a.m51, a.m52, a.m53, a.m54, a.m55, a.m56,
        b.m11, b.m12, b.m13, b.m14, b.m15, b.m16,
        b.m21, b.m22, b.m23, b.m24, b.m25, b.m26,
        b.m31, b.m32, b.m33, b.m34, b.m35, b.m36,
        b.m41, b.m42, b.m43, b.m44, b.m45, b.m46,
        b.m51, b.m52, b.m53, b.m54, b.m55, b.m56,
        b.m61, b.m62, b.m63, b.m64, b.m65, b.m66,
        c.m13, c.m23, c.m33, c.m43, c.m53, c.m63,
    );
    lemma_row_mat_col6(
        a.m51, a.m52, a.m53, a.m54, a.m55, a.m56,
        b.m11, b.m12, b.m13, b.m14, b.m15, b.m16,
        b.m21, b.m22, b.m23, b.m24, b.m25, b.m26,
        b.m31, b.m32, b.m33, b.m34, b.m35, b.m36,
        b.m41, b.m42, b.m43, b.m44, b.m45, b.m46,
        b.m51, b.m52, b.m53, b.m54, b.m55, b.m56,
        b.m61, b.m62, b.m63, b.m64, b.m65, b.m66,
        c.m14, c.m24, c.m34, c.m44, c.m54, c.m64,
    );
    lemma_row_mat_col6(
        a.m51, a.m52, a.m53, a.m54, a.m55, a.m56,
        b.m11, b.m12, b.m13, b.m14, b.m15, b.m16,
        b.m21, b.m22, b.m23, b.m24, b.m25, b.m26,
        b.m31, b.m32, b.m33, b.m34, b.m35, b.m36,
        b.m41, b.m42, b.m43, b.m44, b.m45, b.m46,
        b.m51, b.m52, b.m53, b.m54, b.m55, b.m56,
        b.m61, b.m62, b.m63, b.m64, b.m65, b.m66,
        c.m15, c.m25, c.m35, c.m45, c.m55, c.m65,
    );
    lemma_row_mat_col6(
        a.m51, a.m52, a.m53, a.m54, a.m55, a.m56,
        b.m11, b.m12, b.m13, b.m14, b.m15, b.m16,
        b.m21, b.m22, b.m23, b.m24, b.m25, b.m26,
        b.m31, b.m32, b.m33, b.m34, b.m35, b.m36,
        b.m41, b.m42, b.m43, b.m44, b.m45, b.m46,
        b.m51, b.m52, b.m53, b.m54, b.m55, b.m56,
        b.m61, b.m62, b.m63, b.m64, b.m65, b.m66,
        c.m16, c.m26, c.m36, c.m46, c.m56, c.m66,
    );
    lemma_row_mat_col6(
        a.m61, a.m62, a.m63, a.m64, a.m65, a.m66,
        b.m11, b.m12, b.m13, b.m14, b.m15, b.m16,
        b.m21, b.m22, b.m23, b.m24, b.m25, b.m26,
        b.m31, b.m32, b.m33, b.m34, b.m35, b.m36,
        b.m41, b.m42, b.m43, b.m44, b.m45, b.m46,
        b.m51, b.m52, b.m53, b.m54, b.m55, b.m56,
        b.m61, b.m62, b.m63, b.m64, b.m65, b.m66,
        c.m11, c.m21, c.m31, c.m41, c.m51, c.m61,
    );
    lemma_row_mat_col6(
        a.m61, a.m62, a.m63, a.m64, a.m65, a.m66,
        b.m11, b.m12, b.m13, b.m14, b.m15, b.m16,
        b.m21, b.m22, b.m23, b.m24, b.m25, b.m26,
        b.m31, b.m32, b.m33, b.m34, b.m35, b.m36,
        b.m41, b.m42, b.m43, b.m44, b.m45, b.m46,
        b.m51, b.m52, b.m53, b.m54, b.m55, b.m56,
        b.m61, b.m62, b.m63, b.m64, b.m65, b.m66,
        c.m12, c.m22, c.m32, c.m42, c.m52, c.m62,
    );
    lemma_row_mat_col6(
        a.m61, a.m62, a.m63, a.m64, a.m65, a.m66,
        b.m11, b.m12, b.m13, b.m14, b.m15, b.m16,
        b.m21, b.m22, b.m23, b.m24, b.m25, b.m26,
        b.m31, b.m32, b.m33, b.m34, b.m35, b.m36,
        b.m41, b.m42, b.m43, b.m44, b.m45, b.m46,
        b.m51, b.m52, b.m53, b.m54, b.m55, b.m56,
        b.m61, b.m62, b.m63, b.m64, b.m65, b.m66,
        c.m13, c.m23, c.m33, c.m43, c.m53, c.m63,
    );
    lemma_row_mat_col6(
        a.m61, a.m62, a.m63, a.m64, a.m65, a.m66,
        b.m11, b.m12, b.m13, b.m14, b.m15, b.m16,
        b.m21, b.m22, b.m23, b.m24, b.m25, b.m26,
        b.m31, b.m32, b.m33, b.m34, b.m35, b.m36,
        b.m41, b.m42, b.m43, b.m44, b.m45, b.m46,
        b.m51, b.m52, b.m53, b.m54, b.m55, b.m56,
        b.m61, b.m62, b.m63, b.m64, b.m65, b.m66,
        c.m14, c.m24, c.m34, c.m44, c.m54, c.m64,
    );
    lemma_row_mat_col6(
        a.m61, a.m62, a.m63, a.m64, a.m65, a.m66,
        b.m11, b.m12, b.m13, b.m14, b.m15, b.m16,
        b.m21, b.m22, b.m23, b.m24, b.m25, b.m26,
        b.m31, b.m32, b.m33, b.m34, b.m35, b.m36,
        b.m41, b.m42, b.m43, b.m44, b.m45, b.m46,
        b.m51, b.m52, b.m53, b.m54, b.m55, b.m56,
        b.m61, b.m62, b.m63, b.m64, b.m65, b.m66,
        c.m15, c.m25, c.m35, c.m45, c.m55, c.m65,
    );
    lemma_row_mat_col6(
        a.m61, a.m62, a.m63, a.m64, a.m65, a.m66,
        b.m11, b.m12, b.m13, b.m14, b.m15, b.m16,
        b.m21, b.m22, b.m23, b.m24, b.m25, b.m26,
        b.m31, b.m32, b.m33, b.m34, b.m35, b.m36,
        b.m41, b.m42, b.m43, b.m44, b.m45, b.m46,
        b.m51, b.m52, b.m53, b.m54, b.m55, b.m56,
        b.m61, b.m62, b.m63, b.m64, b.m65, b.m66,
        c.m16, c.m26, c.m36, c.m46, c.m56, c.m66,
    );
}

/// To apply a product of matrices of dimension 6 is to apply one after the other.
pub proof fn lemma_apply_times6(a: Mat6<int>, b: Mat6<int>, v: Vec6<int>)
    ensures
        a.times(b).apply(v) == a.apply(b.apply(v)),
{
    lemma_row_mat_col6(
        a.m11, a.m12, a.m13, a.m14, a.m15, a.m16,
        b.m11, b.m12, b.m13, b.m14, b.m15, b.m16,
        b.m21, b.m22, b.m23, b.m24, b.m25, b.m26,
        b.m31, b.m32, b.m33, b.m34, b.m35, b.m36,
        b.m41, b.m42, b.m43, b.m44, b.m45, b.m46,
        b.m51, b.m52, b.m53, b.m54, b.m55, b.m56,
        b.m61, b.m62, b.m63, b.m64, b.m65, b.m66,
        v.x, v.y, v.z, v.w, v.a, v.b,
    );
    lemma_row_mat_col6(
        a.m21, a.m22, a.m23, a.m24, a.m25, a.m26,
        b.m11, b.m12, b.m13, b.m14, b.m15, b.m16,
        b.m21, b.m22, b.m23, b.m24, b.m25, b.m26,
        b.m31, b.m32, b.m33, b.m34, b.m35, b.m36,
        b.m41, b.m42, b.m43, b.m44, b.m45, b.m46,
        b.m51, b.m52, b.m53, b.m54, b.m55, b.m56,
        b.m61, b.m62, b.m63, b.m64, b.m65, b.m66,
        v.x, v.y, v.z, v.w, v.a, v.b,
    );
    lemma_row_mat_col6(
        a.m31, a.m32, a.m33, a.m34, a.m35, a.m36,
        b.m11, b.m12, b.m13, b.m14, b.m15, b.m16,
        b.m21, b.m22, b.m23, b.m24, b.m25, b.m26,
        b.m31, b.m32, b.m33, b.m34, b.m35, b.m36,
        b.m41, b.m42, b.m43, b.m44, b.m45, b.m46,
        b.m51, b.m52, b.m53, b.m54, b.m55, b.m56,
        b.m61, b.m62, b.m63, b.m64, b.m65, b.m66,
        v.x, v.y, v.z, v.w, v.a, v.b,
    );
    lemma_row_mat_col6(
        a.m41, a.m42, a.m43, a.m44, a.m45, a.m46,
        b.m11, b.m12, b.m13, b.m14, b.m15, b.m16,
        b.m21, b.m22, b.m23, b.m24, b.m25, b.m26,
        b.m31, b.m32, b.m33, b.m34, b.m35, b.m36,
        b.m41, b.m42, b.m43, b.m44, b.m45, b.m46,
        b.m51, b.m52, b.m53, b.m54, b.m55, b.m56,
        b.m61, b.m62, b.m63, b.m64, b.m65, b.m66,
        v.x, v.y, v.z, v.w, v.a, v.b,
    );
    lemma_row_mat_col6(
        a.m51, a.m52, a.m53, a.m54, a.m55, a.m56,
        b.m11, b.m12, b.m13, b.m14, b.m15, b.m16,
        b.m21, b.m22, b.m23, b.m24, b.m25, b.m26,
        b.m31, b.m32, b.m33, b.m34, b.m35, b.m36,
        b.m41, b.m42, b.m43, b.m44, b.m45, b.m46,
        b.m51, b.m52, b.m53, b.m54, b.m55, b.m56,
        b.m61, b.m62, b.m63, b.m64, b.m65, b.m66,
        v.x, v.y, v.z, v.w, v.a, v.b,
    );
    lemma_row_mat_col6(
        a.m61, a.m62, a.m63, a.m64, a.m65, a.m66,
        b.m11, b.m12, b.m13, b.m14, b.m15, b.m16,
        b.m21, b.m22, b.m23, b.m24, b.m25, b.m26,
        b.m31, b.m32, b.m33, b.m34, b.m35, b.m36,
        b.m41, b.m42, b.m43, b.m44, b.m45, b.m46,
        b.m51, b.m52, b.m53, b.m54, b.m55, b.m56,
        b.m61, b.m62, b.m63, b.m64, b.m65, b.m66,
        v.x, v.y, v.z, v.w, v.a, v.b,
    );
}

/// The transpose of a product is the product of the transposes, in the other order.
pub proof fn lemma_transpose_times6(a: Mat6<int>, b: Mat6<int>)
    ensures
        a.times(b).transposed() == b.transposed().times(a.transposed()),
{
    lemma_comm(a.m11, b.m11);
    lemma_comm(a.m11, b.m12);
    lemma_comm(a.m11, b.m13);
    lemma_comm(a.m11, b.m14);
    lemma_comm(a.m11, b.m15);
    lemma_comm(a.m11, b.m16);
    lemma_comm(a.m12, b.m21);
    lemma_comm(a.m12, b.m22);
    lemma_comm(a.m12, b.m23);
    lemma_comm(a.m12, b.m24);
    lemma_comm(a.m12, b.m25);
    lemma_comm(a.m12, b.m26);
    lemma_comm(a.m13, b.m31);
    lemma_comm(a.m13, b.m32);
    lemma_comm(a.m13, b.m33);
    lemma_comm(a.m13, b.m34);
    lemma_comm(a.m13, b.m35);
    lemma_comm(a.m13, b.m36);
    lemma_comm(a.m14, b.m41);
    lemma_comm(a.m14, b.m42);
    lemma_comm(a.m14, b.m43);
    lemma_comm(a.m14, b.m44);
    lemma_comm(a.m14, b.m45);
    lemma_comm(a.m14, b.m46);
    lemma_comm(a.m15, b.m51);
    lemma_comm(a.m15, b.m52);
    lemma_comm(a.m15, b.m53);
    lemma_comm(a.m15, b.m54);
    lemma_comm(a.m15, b.m55);
    lemma_comm(a.m15, b.m56);
    lemma_comm(a.m16, b.m61);
    lemma_comm(a.m16, b.m62);
    lemma_comm(a.m16, b.m63);
    lemma_comm(a.m16, b.m64);
    lemma_comm(a.m16, b.m65);
    lemma_comm(a.m16, b.m66);
    lemma_comm(a.m21, b.m11);
    lemma_comm(a.m21, b.m12);
    lemma_comm(a.m21, b.m13);
    lemma_comm(a.m21, b.m14);
    lemma_comm(a.m21, b.m15);
    lemma_comm(a.m21, b.m16);
    lemma_comm(a.m22, b.m21);
    lemma_comm(a.m22, b.m22);
    lemma_comm(a.m22, b.m23);
    lemma_comm(a.m22, b.m24);
    lemma_comm(a.m22, b.m25);
    lemma_comm(a.m22, b.m26);
    lemma_comm(a.m23, b.m31);
    lemma_comm(a.m23, b.m32);
    lemma_comm(a.m23, b.m33);
    lemma_comm(a.m23, b.m34);
    lemma_comm(a.m23, b.m35);
    lemma_comm(a.m23, b.m36);
    lemma_comm(a.m24, b.m41);
    lemma_comm(a.m24, b.m42);
    lemma_comm(a.m24, b.m43);
    lemma_comm(a.m24, b.m44);
    lemma_comm(a.m24, b.m45);
    lemma_comm(a.m24, b.m46);
    lemma_comm(a.m25, b.m51);
    lemma_comm(a.m25, b.m52);
    lemma_comm(a.m25, b.m53);
    lemma_comm(a.m25, b.m54);
    lemma_comm(a.m25, b.m55);
    lemma_comm(a.m25, b.m56);
    lemma_comm(a.m26, b.m61);
    lemma_comm(a.m26, b.m62);
    lemma_comm(a.m26, b.m63);
    lemma_comm(a.m26, b.m64);
    lemma_comm(a.m26, b.m65);
    lemma_comm(a.m26, b.m66);
    lemma_comm(a.m31, b.m11);
    lemma_comm(a.m31, b.m12);
    lemma_comm(a.m31, b.m13);
    lemma_comm(a.m31, b.m14);
    lemma_comm(a.m31, b.m15);
    lemma_comm(a.m31, b.m16);
    lemma_comm(a.m32, b.m21);
    lemma_comm(a.m32, b.m22);
    lemma_comm(a.m32, b.m23);
    lemma_comm(a.m32, b.m24);
    lemma_comm(a.m32, b.m25);
    lemma_comm(a.m32, b.m26);
    lemma_comm(a.m33, b.m31);
    lemma_comm(a.m33, b.m32);
    lemma_comm(a.m33, b.m33);
    lemma_comm(a.m33, b.m34);
    lemma_comm(a.m33, b.m35);
    lemma_comm(a.m33, b.m36);
    lemma_comm(a.m34, b.m41);
    lemma_comm(a.m34, b.m42);
    lemma_comm(a.m34, b.m43);
    lemma_comm(a.m34, b.m44);
    lemma_comm(a.m34, b.m45);
    lemma_comm(a.m34, b.m46);
    lemma_comm(a.m35, b.m51);
    lemma_comm(a.m35, b.m52);
    lemma_comm(a.m35, b.m53);
    lemma_comm(a.m35, b.m54);
    lemma_comm(a.m35, b.m55);
    lemma_comm(a.m35, b.m56);
    lemma_comm(a.m36, b.m61);
    lemma_comm(a.m36, b.m62);
    lemma_comm(a.m36, b.m63);
    lemma_comm(a.m36, b.m64);
    lemma_comm(a.m36, b.m65);
    lemma_comm(a.m36, b.m66);
    lemma_comm(a.m41, b.m11);
    lemma_comm(a.m41, b.m12);
    lemma_comm(a.m41, b.m13);
    lemma_comm(a.m41, b.m14);
    lemma_comm(a.m41, b.m15);
    lemma_comm(a.m41, b.m16);
    lemma_comm(a.m42, b.m21);
    lemma_comm(a.m42, b.m22);
    lemma_comm(a.m42, b.m23);
    lemma_comm(a.m42, b.m24);
    lemma_comm(a.m42, b.m25);
    lemma_comm(a.m42, b.m26);
    lemma_comm(a.m43, b.m31);
    lemma_comm(a.m43, b.m32);
    lemma_comm(a.m43, b.m33);
    lemma_comm(a.m43, b.m34);
    lemma_comm(a.m43, b.m35);
    lemma_comm(a.m43, b.m36);
    lemma_comm(a.m44, b.m41);
    lemma_comm(a.m44, b.m42);
    lemma_comm(a.m44, b.m43);
    lemma_comm(a.m44, b.m44);
    lemma_comm(a.m44, b.m45);
    lemma_comm(a.m44, b.m46);
    lemma_comm(a.m45, b.m51);
    lemma_comm(a.m45, b.m52);
    lemma_comm(a.m45, b.m53);
    lemma_comm(a.m45, b.m54);
    lemma_comm(a.m45, b.m55);
    lemma_comm(a.m45, b.m56);
    lemma_comm(a.m46, b.m61);
    lemma_comm(a.m46, b.m62);
    lemma_comm(a.m46, b.m63);
    lemma_comm(a.m46, b.m64);
    lemma_comm(a.m46, b.m65);
    lemma_comm(a.m46, b.m66);
    lemma_comm(a.m51, b.m11);
    lemma_comm(a.m51, b.m12);
    lemma_comm(a.m51, b.m13);
    lemma_comm(a.m51, b.m14);
    lemma_comm(a.m51, b.m15);
    lemma_comm(a.m51, b.m16);
    lemma_comm(a.m52, b.m21);
    lemma_comm(a.m52, b.m22);
    lemma_comm(a.m52, b.m23);
    lemma_comm(a.m52, b.m24);
    lemma_comm(a.m52, b.m25);
    lemma_comm(a.m52, b.m26);
    lemma_comm(a.m53, b.m31);
    lemma_comm(a.m53, b.m32);
    lemma_comm(a.m53, b.m33);
    lemma_comm(a.m53, b.m34);
    lemma_comm(a.m53, b.m35);
    lemma_comm(a.m53, b.m36);
    lemma_comm(a.m54, b.m41);
    lemma_comm(a.m54, b.m42);
    lemma_comm(a.m54, b.m43);
    lemma_comm(a.m54, b.m44);
    lemma_comm(a.m54, b.m45);
    lemma_comm(a.m54, b.m46);
    lemma_comm(a.m55, b.m51);
    lemma_comm(a.m55, b.m52);
    lemma_comm(a.m55, b.m53);
    lemma_comm(a.m55, b.m54);
    lemma_comm(a.m55, b.m55);
    lemma_comm(a.m55, b.m56);
    lemma_comm(a.m56, b.m61);
    lemma_comm(a.m56, b.m62);
    lemma_comm(a.m56, b.m63);
    lemma_comm(a.m56, b.m64);
    lemma_comm(a.m56, b.m65);
    lemma_comm(a.m56, b.m66);
    lemma_comm(a.m61, b.m11);
    lemma_comm(a.m61, b.m12);
    lemma_comm(a.m61, b.m13);
    lemma_comm(a.m61, b.m14);
    lemma_comm(a.m61, b.m15);
    lemma_comm(a.m61, b.m16);
    lemma_comm(a.m62, b.m21);
    lemma_comm(a.m62, b.m22);
    lemma_comm(a.m62, b.m23);
    lemma_comm(a.m62, b.m24);
    lemma_comm(a.m62, b.m25);
    lemma_comm(a.m62, b.m26);
    lemma_comm(a.m63, b.m31);
    lemma_comm(a.m63, b.m32);
    lemma_comm(a.m63, b.m33);
    lemma_comm(a.m63, b.m34);
    lemma_comm(a.m63, b.m35);
    lemma_comm(a.m63, b.m36);
    lemma_comm(a.m64, b.m41);
    lemma_comm(a.m64, b.m42);
    lemma_comm(a.m64, b.m43);
    lemma_comm(a.m64, b.m44);
    lemma_comm(a.m64, b.m45);
    lemma_comm(a.m64, b.m46);
    lemma_comm(a.m65, b.m51);
    lemma_comm(a.m65, b.m52);
    lemma_comm(a.m65, b.m53);
    lemma_comm(a.m65, b.m54);
    lemma_comm(a.m65, b.m55);
    lemma_comm(a.m65, b.m56);
    lemma_comm(a.m66, b.m61);
    lemma_comm(a.m66, b.m62);
    lemma_comm(a.m66, b.m63);
    lemma_comm(a.m66, b.m64);
    lemma_comm(a.m66, b.m65);
    lemma_comm(a.m66, b.m66);
}

/// The absolute value of a matrix of dimension 6 takes the absolute value of
/// a vector to a bound of what the matrix makes of the vector: no component
/// of the product of the matrix and the vector is larger in absolute value.
pub proof fn lemma_absolute_apply6(a: Mat6<int>, v: Vec6<int>)
    ensures
        a.apply(v).abs().x <= a.abs().apply(v.abs()).x,
        a.apply(v).abs().y <= a.abs().apply(v.abs()).y,
        a.apply(v).abs().z <= a.abs().apply(v.abs()).z,
        a.apply(v).abs().w <= a.abs().apply(v.abs()).w,
        a.apply(v).abs().a <= a.abs().apply(v.abs()).a,
        a.apply(v).abs().b <= a.abs().apply(v.abs()).b,
{
    lemma_abs_product(a.m11, v.x);
    lemma_abs_product(a.m12, v.y);
    lemma_abs_product(a.m13, v.z);
    lemma_abs_product(a.m14, v.w);
    lemma_abs_product(a.m15, v.a);
    lemma_abs_product(a.m16, v.b);
    lemma_abs_product(a.m21, v.x);
    lemma_abs_product(a.m22, v.y);
    lemma_abs_product(a.m23, v.z);
    lemma_abs_product(a.m24, v.w);
    lemma_abs_product(a.m25, v.a);
    lemma_abs_product(a.m26, v.b);
    lemma_abs_product(a.m31, v.x);
    lemma_abs_product(a.m32, v.y);
    lemma_abs_product(a.m33, v.z);
    lemma_abs_product(a.m34, v.w);
    lemma_abs_product(a.m35, v.a);
    lemma_abs_product(a.m36, v.b);
    lemma_abs_product(a.m41, v.x);
    lemma_abs_product(a.m42, v.y);
    lemma_abs_product(a.m43, v.z);
    lemma_abs_product(a.m44, v.w);
    lemma_abs_product(a.m45, v.a);
    lemma_abs_product(a.m46, v.b);
    lemma_abs_product(a.m51, v.x);
    lemma_abs_product(a.m52, v.y);
    lemma_abs_product(a.m53, v.z);
    lemma_abs_product(a.m54, v.w);
    lemma_abs_product(a.m55, v.a);
    lemma_abs_product(a.m56, v.b);
    lemma_abs_product(a.m61, v.x);
    lemma_abs_product(a.m62, v.y);
    lemma_abs_product(a.m63, v.z);
    lemma_abs_product(a.m64, v.w);
    lemma_abs_product(a.m65, v.a);
    lemma_abs_product(a.m66, v.b);
}

} // verus!
