//! The prelude: every capability and every geometric type, and one free
//! function for each operation of a capability.
//!
//! A free function forwards to the method of the capability on the type of
//! its argument; which method is called is settled when the call is
//! compiled. Its contract is that of the method.
pub use crate::dynamic::{DMat, DVec};
pub use crate::fraction::{
    QMat1, QMat2, QMat3, QMat4, QVec1, QVec2, QVec3, QVec4, Ratio,
};
pub use crate::isometry::{Iso2, Iso3, Iso4};
pub use crate::matrix::{Mat1, Mat2, Mat3, Mat4, Mat5, Mat6};
pub use crate::rotation::{Rot2, Rot3, Rot4};
pub use crate::scalar::{Algebraic, Cast, One, Scalar, Zero};
pub use crate::traits::{
    rotated_wrt_point_fits, rotated_wrt_point_model, Absolute, AbsoluteRotate, Basis, Col, Cov,
    Cross, CrossMatrix, Dim, Dot, FromHomogeneous, Indexable, Inv, Iterable, IterableMut, LMul, Mat,
    MatCast, Mean, Negate, Norm, Outer, RMul, Rotate, Row, ScalarAdd, ScalarSub, Rotation,
        RotationMatrix, RotationWithTranslation, ToHomogeneous, Transform,
    Transformation, Translate, Translation, Transpose, UniformSphereSample, VecCast,
};
pub use crate::vector::{Vec0, Vec1, Vec2, Vec3, Vec4, Vec5, Vec6};
use vstd::prelude::*;

verus! {

/// The zero of the type `T`.
pub fn zero<T: Zero>() -> (r: T)
    ensures
        r.is_zero(),
{
    T::zero()
}

/// The one of the type `T`: the identity of its multiplication.
pub fn one<T: One>() -> (r: T)
    ensures
        r.is_one(),
{
    T::one()
}

/// The vector of dimension 1 with the given components.
pub fn vec1<N>(x: N) -> (r: Vec1<N>)
    ensures
        r == (Vec1 { x }),
{
    Vec1::new(x)
}

/// The vector of dimension 2 with the given components.
pub fn vec2<N>(x: N, y: N) -> (r: Vec2<N>)
    ensures
        r == (Vec2 { x, y }),
{
    Vec2::new(x, y)
}

/// The vector of dimension 3 with the given components.
pub fn vec3<N>(x: N, y: N, z: N) -> (r: Vec3<N>)
    ensures
        r == (Vec3 { x, y, z }),
{
    Vec3::new(x, y, z)
}

/// The vector of dimension 4 with the given components.
pub fn vec4<N>(x: N, y: N, z: N, w: N) -> (r: Vec4<N>)
    ensures
        r == (Vec4 { x, y, z, w }),
{
    Vec4::new(x, y, z, w)
}

/// The matrix of dimension 1 with the given components, row by row.
pub fn mat1<N>(
    m11: N,
) -> (r: Mat1<N>)
    ensures
        r == (Mat1 { m11 }),
{
    Mat1::new(
        m11,
    )
}

/// The matrix of dimension 2 with the given components, row by row.
pub fn mat2<N>(
    m11: N, m12: N,
    m21: N, m22: N,
) -> (r: Mat2<N>)
    ensures
        r == (Mat2 { m11, m12, m21, m22 }),
{
    Mat2::new(
        m11, m12,
        m21, m22,
    )
}

/// The matrix of dimension 3 with the given components, row by row.
pub fn mat3<N>(
    m11: N, m12: N, m13: N,
    m21: N, m22: N, m23: N,
    m31: N, m32: N, m33: N,
) -> (r: Mat3<N>)
    ensures
        r == (Mat3 { m11, m12, m13, m21, m22, m23, m31, m32, m33 }),
{
    Mat3::new(
        m11, m12, m13,
        m21, m22, m23,
        m31, m32, m33,
    )
}

/// The matrix of dimension 4 with the given components, row by row.
pub fn mat4<N>(
    m11: N, m12: N, m13: N, m14: N,
    m21: N, m22: N, m23: N, m24: N,
    m31: N, m32: N, m33: N, m34: N,
    m41: N, m42: N, m43: N, m44: N,
) -> (r: Mat4<N>)
    ensures
        r == (Mat4 { m11, m12, m13, m14, m21, m22, m23, m24, m31, m32, m33, m34, m41, m42, m43,
            m44 }),
{
    Mat4::new(
        m11, m12, m13, m14,
        m21, m22, m23, m24,
        m31, m32, m33, m34,
        m41, m42, m43, m44,
    )
}

/// The translation that `m` applies.
pub fn translation<V: View, M: Translation<V>>(m: &M) -> (r: V)
    ensures
        r@ == M::translation_model(m@),
{
    m.translation()
}

/// The additive inverse of the translation that `m` applies.
pub fn inv_translation<V: View, M: Translation<V>>(m: &M) -> (r: V)
    requires
        M::inv_translation_fits(m@),
    ensures
        r@ == M::inv_translation_model(m@),
{
    m.inv_translation()
}

/// Adds `v` to the translation of `m`.
pub fn translate_by<V: View, M: Translation<V>>(m: &mut M, v: &V)
    requires
        M::translated_fits(old(m)@, v@),
    ensures
        final(m)@ == M::translated_model(old(m)@, v@),
{
    m.translate_by(v)
}

/// A copy of `m` with `v` added to its translation.
pub fn translated<V: View, M: Translation<V>>(m: &M, v: &V) -> (r: M)
    requires
        M::translated_fits(m@, v@),
    ensures
        r@ == M::translated_model(m@, v@),
{
    m.translated(v)
}

/// Replaces the translation of `m` by `v`.
pub fn set_translation<V: View, M: Translation<V>>(m: &mut M, v: V)
    ensures
        final(m)@ == M::set_translation_model(old(m)@, v@),
{
    m.set_translation(v)
}

/// The point `v` moved by the translation of `m`.
pub fn translate<V: View, M: Translate<V>>(m: &M, v: &V) -> (r: V)
    requires
        M::translate_fits(m@, v@),
    ensures
        r@ == M::translate_model(m@, v@),
{
    m.translate(v)
}

/// The point `v` moved back by the translation of `m`.
pub fn inv_translate<V: View, M: Translate<V>>(m: &M, v: &V) -> (r: V)
    requires
        M::inv_translate_fits(m@, v@),
    ensures
        r@ == M::inv_translate_model(m@, v@),
{
    m.inv_translate(v)
}

/// The rotation that `m` applies.
pub fn rotation<V: View, M: Rotation<V>>(m: &M) -> (r: V)
    ensures
        r@ == M::rotation_model(m@),
{
    m.rotation()
}

/// The inverse of the rotation that `m` applies.
pub fn inv_rotation<V: View, M: Rotation<V>>(m: &M) -> (r: V)
    requires
        M::inv_rotation_fits(m@),
    ensures
        r@ == M::inv_rotation_model(m@),
{
    m.inv_rotation()
}

/// Composes `m` with the rotation `v`: `v` applies after `m`.
pub fn rotate_by<V: View, M: Rotation<V>>(m: &mut M, v: &V)
    requires
        M::rotated_fits(old(m)@, v@),
    ensures
        final(m)@ == M::rotated_model(old(m)@, v@),
{
    m.rotate_by(v)
}

/// A copy of `m` composed with the rotation `v`.
pub fn rotated<V: View, M: Rotation<V>>(m: &M, v: &V) -> (r: M)
    requires
        M::rotated_fits(m@, v@),
    ensures
        r@ == M::rotated_model(m@, v@),
{
    m.rotated(v)
}

/// Replaces the rotation of `m` by `v`.
pub fn set_rotation<V: View, M: Rotation<V>>(m: &mut M, v: V)
    ensures
        final(m)@ == M::set_rotation_model(old(m)@, v@),
{
    m.set_rotation(v)
}

/// The vector `v` turned by the rotation of `m`.
pub fn rotate<V: View, M: Rotate<V>>(m: &M, v: &V) -> (r: V)
    requires
        M::rotate_fits(m@, v@),
    ensures
        r@ == M::rotate_model(m@, v@),
{
    m.rotate(v)
}

/// The vector `v` turned back by the rotation of `m`.
pub fn inv_rotate<V: View, M: Rotate<V>>(m: &M, v: &V) -> (r: V)
    requires
        M::inv_rotate_fits(m@, v@),
    ensures
        r@ == M::inv_rotate_model(m@, v@),
{
    m.inv_rotate(v)
}

/// A copy of `m` rotated by `amount` about `center`: translated by the
/// inverse of `center`, rotated about the origin, and translated by `center`.
pub fn rotated_wrt_point<LV: Negate, AV: View, M: RotationWithTranslation<LV, AV>>(
    m: &M,
    amount: &AV,
    center: &LV,
) -> (r: M)
    requires
        rotated_wrt_point_fits::<M, LV, AV>(m@, amount@, center@),
    ensures
        r@ == rotated_wrt_point_model::<M, LV, AV>(m@, amount@, center@),
{
    m.rotated_wrt_point(amount, center)
}

/// Rotates `m` by `amount` about `center`.
pub fn rotate_wrt_point<LV: Negate, AV: View, M: RotationWithTranslation<LV, AV>>(
    m: &mut M,
    amount: &AV,
    center: &LV,
)
    requires
        rotated_wrt_point_fits::<M, LV, AV>(old(m)@, amount@, center@),
    ensures
        final(m)@ == rotated_wrt_point_model::<M, LV, AV>(old(m)@, amount@, center@),
{
    m.rotate_wrt_point(amount, center)
}

/// A copy of `m` rotated by `amount` about its own translation.
pub fn rotated_wrt_center<LV: Negate, AV: View, M: RotationWithTranslation<LV, AV>>(
    m: &M,
    amount: &AV,
) -> (r: M)
    requires
        rotated_wrt_point_fits::<M, LV, AV>(m@, amount@, M::translation_model(m@)),
    ensures
        r@ == rotated_wrt_point_model::<M, LV, AV>(m@, amount@, M::translation_model(m@)),
{
    m.rotated_wrt_center(amount)
}

/// Rotates `m` by `amount` about its own translation.
pub fn rotate_wrt_center<LV: Negate, AV: View, M: RotationWithTranslation<LV, AV>>(
    m: &mut M,
    amount: &AV,
)
    requires
        rotated_wrt_point_fits::<M, LV, AV>(old(m)@, amount@, M::translation_model(old(m)@)),
    ensures
        final(m)@ == rotated_wrt_point_model::<M, LV, AV>(
            old(m)@,
            amount@,
            M::translation_model(old(m)@),
        ),
{
    m.rotate_wrt_center(amount)
}

/// The rotation of `r` as an orthogonal matrix.
pub fn to_rot_mat<LV: View, AV: View, M: Mat<LV, LV> + Rotation<AV>, R: RotationMatrix<LV, AV, M>>(
    r: &R,
) -> (m: M)
    ensures
        m@ == R::to_rot_mat_model(r@),
{
    r.to_rot_mat()
}

/// The vector `v` multiplied by the component-wise absolute value of the
/// rotation matrix of `m`.
pub fn absolute_rotate<V: View, M: AbsoluteRotate<V>>(m: &M, v: &V) -> (r: V)
    requires
        M::absolute_rotate_fits(m@, v@),
    ensures
        r@ == M::absolute_rotate_model(m@, v@),
{
    m.absolute_rotate(v)
}

/// The transformation that `m` applies.
pub fn transformation<V: View, M: Transformation<V>>(m: &M) -> (r: V)
    ensures
        r@ == M::transformation_model(m@),
{
    m.transformation()
}

/// The inverse of the transformation that `m` applies.
pub fn inv_transformation<V: View, M: Transformation<V>>(m: &M) -> (r: V)
    requires
        M::inv_transformation_fits(m@),
    ensures
        r@ == M::inv_transformation_model(m@),
{
    m.inv_transformation()
}

/// Composes `m` with the transformation `v`: `v` applies after `m`.
pub fn transform_by<V: View, M: Transformation<V>>(m: &mut M, v: &V)
    requires
        M::transformed_fits(old(m)@, v@),
    ensures
        final(m)@ == M::transformed_model(old(m)@, v@),
{
    m.transform_by(v)
}

/// A copy of `m` composed with the transformation `v`.
pub fn transformed<V: View, M: Transformation<V>>(m: &M, v: &V) -> (r: M)
    requires
        M::transformed_fits(m@, v@),
    ensures
        r@ == M::transformed_model(m@, v@),
{
    m.transformed(v)
}

/// Replaces the transformation of `m` by `v`.
pub fn set_transformation<V: View, M: Transformation<V>>(m: &mut M, v: V)
    ensures
        final(m)@ == M::set_transformation_model(old(m)@, v@),
{
    m.set_transformation(v)
}

/// The point `v` after the transformation of `m`: rotated, then translated.
pub fn transform<V: View, M: Transform<V>>(m: &M, v: &V) -> (r: V)
    requires
        M::transform_fits(m@, v@),
    ensures
        r@ == M::transform_model(m@, v@),
{
    m.transform(v)
}

/// The point that the transformation of `m` takes to `v`.
pub fn inv_transform<V: View, M: Transform<V>>(m: &M, v: &V) -> (r: V)
    requires
        M::inv_transform_fits(m@, v@),
    ensures
        r@ == M::inv_transform_model(m@, v@),
{
    m.inv_transform(v)
}

/// The inner product of `a` and `b`.
pub fn dot<V: Dot<N>, N: Scalar>(a: &V, b: &V) -> (r: N)
    requires
        V::dot_fits(a@, b@),
    ensures
        r.val() == V::dot_model(a@, b@),
        r.val() == V::dot_model(b@, a@),
{
    proof {
        V::lemma_dot_symmetric(a@, b@);
    }
    a.dot(b)
}

/// The inner product of `a - b` and `c`.
pub fn sub_dot<V: Dot<N>, N: Scalar>(a: &V, b: &V, c: &V) -> (r: N)
    requires
        V::sub_dot_fits(a@, b@, c@),
    ensures
        r.val() == V::sub_dot_model(a@, b@, c@),
{
    a.sub_dot(b, c)
}

/// The norm of `v`: the square root of its squared norm, as close as the
/// type of `v` gives it.
pub fn norm<V: Norm<N>, N>(v: &V) -> (r: N)
    requires
        V::norm_fits(v@),
    ensures
        V::is_norm(v@, r),
{
    v.norm()
}

/// The squared norm of `v`: its inner product with itself.
pub fn sqnorm<V: Norm<N>, N>(v: &V) -> (r: N)
    requires
        V::norm_fits(v@),
    ensures
        V::is_sqnorm(v@, r),
{
    v.sqnorm()
}

/// A normalized copy of `v`: `v` scaled by a positive factor to norm one;
/// the zero vector is left as it is.
pub fn normalized<V: Norm<N>, N>(v: &V) -> (r: V)
    requires
        V::normalized_fits(v@),
    ensures
        r@ == V::normalized_model(v@),
{
    v.normalized()
}

/// Normalizes `v` and returns the norm it had before.
pub fn normalize<V: Norm<N>, N>(v: &mut V) -> (r: N)
    requires
        V::normalized_fits(old(v)@),
    ensures
        V::is_norm(old(v)@, r),
        final(v)@ == V::normalized_model(old(v)@),
{
    v.normalize()
}

/// The cross product of `a` and `b`.
pub fn cross<LV: Cross<AV>, AV: View>(a: &LV, b: &LV) -> (r: AV)
    requires
        LV::cross_fits(a@, b@),
    ensures
        r@ == LV::cross_model(a@, b@),
{
    a.cross(b)
}

/// The matrix that takes every vector `w` to the cross product of `v` and `w`.
pub fn cross_matrix<V: CrossMatrix<M>, M: View>(v: &V) -> (r: M)
    requires
        V::cross_matrix_fits(v@),
    ensures
        r@ == V::cross_matrix_model(v@),
{
    v.cross_matrix()
}

/// The homogeneous form of `m`, one dimension larger.
pub fn to_homogeneous<M: ToHomogeneous<Res>, Res: View>(m: &M) -> (r: Res)
    ensures
        r@ == M::to_homogeneous_model(m@),
{
    m.to_homogeneous()
}

/// The object whose homogeneous form is `m`.
pub fn from_homogeneous<M: View, Res: FromHomogeneous<M>>(m: &M) -> (r: Res)
    requires
        Res::from_fits(m@),
    ensures
        r@ == Res::from_model(m@),
{
    Res::from(m)
}

/// Hands every sample point of the unit sphere of `V` to `f`, in order.
pub fn sample_sphere<V: UniformSphereSample + Copy, F: Fn(V)>(f: F)
    requires
        forall|i: int|
            0 <= i < V::sample_points().len() ==> call_requires(f,
                (#[trigger] V::sample_points()[i],)),
    ensures
        forall|i: int|
            0 <= i < V::sample_points().len() ==> call_ensures(
                f,
                (#[trigger] V::sample_points()[i],),
                (),
            ),
{
    let points = V::sample();
    let mut i: usize = 0;
    while i < points.len()
        invariant
            i <= points@.len(),
            points@ == V::sample_points(),
            forall|k: int| 0 <= k < points@.len() ==> call_requires(f, (#[trigger] points@[k],)),
            forall|k: int| 0 <= k < i ==> call_ensures(f, (#[trigger] points@[k],), ()),
        decreases points@.len() - i,
    {
        f(points[i]);
        i = i + 1;
    }
}

/// The component-wise absolute value of `m`.
pub fn absolute<M: Absolute<Res>, Res: View>(m: &M) -> (r: Res)
    requires
        M::absolute_fits(m@),
    ensures
        r@ == M::absolute_model(m@),
{
    m.absolute()
}

/// The inverse of `m`, or `None` where `m` is not invertible.
pub fn inverted<M: Inv>(m: &M) -> (r: Option<M>)
    requires
        M::inv_fits(m@),
    ensures
        r.is_some() == M::invertible(m@),
        r matches Some(x) ==> x@ == M::inverse_model(m@),
{
    m.inverted()
}

/// Replaces `m` by its inverse and returns `true`, or returns `false` and
/// leaves `m` as it is where `m` is not invertible.
pub fn invert<M: Inv>(m: &mut M) -> (ok: bool)
    requires
        M::inv_fits(old(m)@),
    ensures
        ok == M::invertible(old(m)@),
        ok ==> final(m)@ == M::inverse_model(old(m)@),
        !ok ==> *final(m) == *old(m),
{
    m.invert()
}

/// The transpose of `m`.
pub fn transposed<M: Transpose>(m: &M) -> (r: M)
    ensures
        r@ == M::transposed_model(m@),
        M::transposed_model(r@) == m@,
{
    proof {
        M::lemma_transpose_involution(m@);
    }
    m.transposed()
}

/// Replaces `m` by its transpose.
pub fn transpose<M: Transpose>(m: &mut M)
    ensures
        final(m)@ == M::transposed_model(old(m)@),
        M::transposed_model(final(m)@) == old(m)@,
{
    proof {
        M::lemma_transpose_involution(m@);
    }
    m.transpose()
}

/// The outer product of `a`, as a column, and `b`, as a row.
pub fn outer<V: Outer<M>, M: View>(a: &V, b: &V) -> (r: M)
    requires
        V::outer_fits(a@, b@),
    ensures
        r@ == V::outer_model(a@, b@),
{
    a.outer(b)
}

/// The covariance matrix of the observations, one observation a row.
pub fn cov<M: Cov<Res>, Res: View>(observations: &M) -> (r: Res)
    requires
        M::cov_fits(observations@),
    ensures
        r@ == M::cov_model(observations@),
{
    observations.cov()
}

/// The mean of the observations, one observation a row.
pub fn mean<N: View, M: Mean<N>>(observations: &M) -> (r: N)
    requires
        M::mean_fits(observations@),
    ensures
        r@ == M::mean_model(observations@),
{
    observations.mean()
}

/// The matrix `m` over the scalar type of `Res`.
pub fn cast_mat<M: MatCast<Res>, Res: View>(m: M) -> (r: Res)
    requires
        M::cast_fits(m@),
    ensures
        r@ == M::cast_model(m@),
{
    M::from(m)
}

/// The vector `v` over the scalar type of `Res`.
pub fn cast_vec<V: VecCast<Res>, Res: View>(v: V) -> (r: Res)
    requires
        V::cast_fits(v@),
    ensures
        r@ == V::cast_model(v@),
{
    V::from(v)
}

/// Whether `n` vectors were handed to `f` as the protocol of a generator
/// asks, out of `items`: one after the other from the first, every one but
/// the last answered by `true`, and the last answered by `false` unless it
/// is the last of `items`.
pub open spec fn handed_out<V, F: Fn(V) -> bool>(f: F, items: Seq<V>, n: int) -> bool {
    &&& 0 <= n <= items.len()
    &&& n == 0 ==> items.len() == 0
    &&& forall|i: int| 0 <= i < n - 1 ==> call_ensures(f, (#[trigger] items[i],), true)
    &&& n > 0 ==> call_ensures(f, (items[n - 1],), false) || (n == items.len() && call_ensures(
        f,
        (items[n - 1],),
        true,
    ))
}

/// Hands the vectors of `items` to `f` one after the other, until `f`
/// answers `false` or none is left, and returns how many it handed out.
pub fn generate<V: Copy, F: Fn(V) -> bool>(items: &Vec<V>, f: F) -> (n: usize)
    requires
        forall|i: int| 0 <= i < items@.len() ==> call_requires(f, (#[trigger] items@[i],)),
    ensures
        handed_out(f, items@, n as int),
{
    let mut i: usize = 0;
    while i < items.len()
        invariant
            i <= items@.len(),
            forall|k: int| 0 <= k < items@.len() ==> call_requires(f, (#[trigger] items@[k],)),
            forall|k: int| 0 <= k < i ==> call_ensures(f, (#[trigger] items@[k],), true),
        decreases items@.len() - i,
    {
        let go = f(items[i]);
        i = i + 1;
        if !go {
            return i;
        }
    }
    i
}

/// Hands the vectors of the canonical basis of `V` to `f`, in the order of
/// the axes, until `f` answers `false`, and returns how many it handed out.
pub fn canonical_basis<V: Basis + Copy, F: Fn(V) -> bool>(f: F) -> (n: usize)
    requires
        forall|i: int|
            0 <= i < V::canonical_basis_seq().len() ==> call_requires(
                f,
                (#[trigger] V::canonical_basis_seq()[i],),
            ),
    ensures
        handed_out(f, V::canonical_basis_seq(), n as int),
{
    let items = V::canonical_basis_list();
    generate(&items, f)
}

/// Whether `items` are vectors with the given models, one for one.
pub open spec fn stand_for<V: View>(items: Seq<V>, models: Seq<V::V>) -> bool {
    &&& items.len() == models.len()
    &&& forall|i: int| 0 <= i < items.len() ==> (#[trigger] items[i])@ == models[i]
}

/// Hands the vectors of a basis of the subspace orthogonal to `v` to `f`,
/// until `f` answers `false`, and returns how many it handed out.
pub fn orthonormal_subspace_basis<V: Basis + Copy, F: Fn(V) -> bool>(v: &V, f: F) -> (n: usize)
    requires
        V::orthonormal_subspace_basis_fits(v@),
        forall|w: V, i: int|
            0 <= i < V::orthonormal_subspace_basis_model(v@).len() && w@
                == #[trigger] V::orthonormal_subspace_basis_model(v@)[i]
                    ==> #[trigger] call_requires(
                f,
                (w,),
            ),
    ensures
        exists|items: Seq<V>|
            stand_for(items, V::orthonormal_subspace_basis_model(v@)) && handed_out(
                f,
                items,
                n as int,
            ),
{
    let items = v.orthonormal_subspace_basis_list();
    assert forall|i: int| 0 <= i < items@.len() implies call_requires(f,
        (#[trigger] items@[i],)) by {
        assert(items@[i]@ == V::orthonormal_subspace_basis_model(v@)[i]);
    }
    let n = generate(&items, f);
    proof {
        assert(stand_for(items@, V::orthonormal_subspace_basis_model(v@)));
    }
    n
}

} // verus!
