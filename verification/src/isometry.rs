//! Rigid transformations of the spaces of dimension two to four.
//!
//! A rigid transformation rotates and then translates. Its inverse
//! translates back and then rotates back: it takes `p` to the transpose of
//! the rotation times `p` less the translation.
use crate::matrix::{Mat2, Mat3, Mat4};
use crate::matrix_laws::{
    lemma_apply_linear2, lemma_apply_linear3, lemma_apply_linear4, lemma_apply_times2,
    lemma_apply_times3, lemma_apply_times4, lemma_orthogonal_undo2, lemma_orthogonal_undo3,
    lemma_orthogonal_undo4,
};
use crate::ring::lemma_mul_zero;
use crate::rotation::{Rot2, Rot3, Rot4};
use crate::scalar::{One, Scalar, Zero};
use crate::traits::{
    AbsoluteRotate, Dim, FromHomogeneous, Inv, Negate, RMul, Rotate, rotated_wrt_point_model,
    Rotation, RotationMatrix, RotationWithTranslation, ToHomogeneous, Transform, Transformation,
    Translate, Translation, Transpose,
};
use crate::vector::{Vec2, Vec3, Vec4};
use vstd::prelude::*;

verus! {

/// A rigid transformation of the space of dimension 2: a rotation, then a
/// translation.
#[derive(Debug, PartialEq, Eq)]
pub struct Iso2<N: Scalar> {
    pub rotation: Rot2<N>,
    pub translation: Vec2<N>,
}

impl<N: Scalar> Clone for Iso2<N> {
    fn clone(&self) -> (r: Self)
        ensures
            r == *self,
    {
        *self
    }
}

impl<N: Scalar> Copy for Iso2<N> {
}

/// The mathematical model of a rigid transformation of dimension 2: the
/// matrix of its rotation and the vector of its translation.
pub struct Iso2Model {
    pub rotation: Mat2<int>,
    pub translation: Vec2<int>,
}

impl<N: Scalar> View for Iso2<N> {
    type V = Iso2Model;

    open spec fn view(&self) -> Iso2Model {
        Iso2Model { rotation: self.rotation@, translation: self.translation@ }
    }
}

impl Iso2Model {
    /// The transformation that leaves every point where it is.
    pub open spec fn identity() -> Self {
        Iso2Model { rotation: Mat2::<int>::identity(), translation: Vec2::<int>::origin() }
    }

    /// The point `p` after the transformation: rotated, then translated.
    pub open spec fn apply(self, p: Vec2<int>) -> Vec2<int> {
        self.rotation.apply(p).sum(self.translation)
    }

    /// The point that the transformation takes to `p`: `p` translated back,
    /// then rotated back.
    pub open spec fn apply_inverse(self, p: Vec2<int>) -> Vec2<int> {
        self.rotation.transposed().apply(p.diff(self.translation))
    }

    /// The composition of `self` and `first`, which applies `first` first.
    pub open spec fn after(self, first: Self) -> Self {
        Iso2Model {
            rotation: self.rotation.times(first.rotation),
            translation: self.rotation.apply(first.translation).sum(self.translation),
        }
    }

    /// The inverse transformation.
    pub open spec fn inverse(self) -> Self {
        Iso2Model {
            rotation: self.rotation.transposed(),
            translation: self.rotation.transposed().apply(self.translation.opposite()),
        }
    }

    /// Whether every step of the composition of `m` and `first` is
    /// representable in `N`.
    pub open spec fn after_fits<N: Scalar>(m: Self, first: Self) -> bool {
        &&& Mat2::<int>::apply_fits::<N>(m.rotation, first.translation)
        &&& m.rotation.apply(first.translation).sum(m.translation).fits::<N>()
    }

    /// Whether every step of the inversion of `m` is representable in `N`.
    pub open spec fn inverse_fits<N: Scalar>(m: Self) -> bool {
        &&& m.translation.opposite().fits::<N>()
        &&& Mat2::<int>::apply_fits::<N>(m.rotation.transposed(), m.translation.opposite())
    }

    /// The homogeneous form: the matrix that acts on homogeneous points as the
    /// transformation acts on points.
    pub open spec fn lifted(self) -> Mat3<int> {
        Mat3 {
            m11: self.rotation.m11, m12: self.rotation.m12, m13: self.translation.x,
            m21: self.rotation.m21, m22: self.rotation.m22, m23: self.translation.y,
            m31: 0, m32: 0, m33: 1,
        }
    }
}

impl Mat3<int> {
    /// The rigid transformation that the affine part of the matrix stands
    /// for: the upper left block and the last column.
    pub open spec fn rigid(self) -> Iso2Model {
        Iso2Model {
            rotation: self.lowered(),
            translation: Vec2 { x: self.m13, y: self.m23 },
        }
    }
}

impl<N: Scalar> Iso2<N> {
    /// The transformation that rotates by `rotation` and then translates by
    /// `translation`.
    pub fn new(translation: Vec2<N>, rotation: Rot2<N>) -> (r: Self)
        ensures
            r == (Iso2 { rotation, translation }),
    {
        Iso2 { rotation, translation }
    }

    /// A rigid transformation is determined by its view.
    pub proof fn lemma_view_injective(a: Self, b: Self)
        requires
            a@ == b@,
        ensures
            a == b,
    {
        Rot2::lemma_view_injective(a.rotation, b.rotation);
        Vec2::lemma_view_injective(a.translation, b.translation);
    }

    /// The composition of `self` and `first`, which applies `first` first.
    pub fn times(&self, first: &Self) -> (r: Self)
        requires
            Iso2Model::after_fits::<N>(self@, first@),
        ensures
            r@ == self@.after(first@),
    {
        Iso2 {
            rotation: self.rotation.times(&first.rotation),
            translation: self.rotation.rmul(&first.translation).plus(&self.translation),
        }
    }
}

impl<N: Scalar> Dim for Iso2<N> {
    open spec fn dim_model() -> nat {
        2
    }

    fn dim() -> (r: usize) {
        2
    }
}

impl<N: Scalar> One for Iso2<N> {
    open spec fn is_one(&self) -> bool {
        self@ == Iso2Model::identity()
    }

    fn one() -> (r: Self) {
        Iso2 { rotation: Rot2::one(), translation: Vec2::zero() }
    }
}

impl<N: Scalar> Translation<Vec2<N>> for Iso2<N> {
    open spec fn translation_model(m: Iso2Model) -> Vec2<int> {
        m.translation
    }

    open spec fn inv_translation_fits(m: Iso2Model) -> bool {
        m.translation.opposite().fits::<N>()
    }

    open spec fn inv_translation_model(m: Iso2Model) -> Vec2<int> {
        m.translation.opposite()
    }

    open spec fn translated_fits(m: Iso2Model, v: Vec2<int>) -> bool {
        m.translation.sum(v).fits::<N>()
    }

    open spec fn translated_model(m: Iso2Model, v: Vec2<int>) -> Iso2Model {
        Iso2Model { rotation: m.rotation, translation: m.translation.sum(v) }
    }

    open spec fn set_translation_model(m: Iso2Model, v: Vec2<int>) -> Iso2Model {
        Iso2Model { rotation: m.rotation, translation: v }
    }

    fn translation(&self) -> (r: Vec2<N>) {
        self.translation
    }

    fn inv_translation(&self) -> (r: Vec2<N>) {
        self.translation.negated()
    }

    fn translate_by(&mut self, v: &Vec2<N>) {
        self.translation = self.translation.plus(v);
    }

    fn translated(&self, v: &Vec2<N>) -> (r: Self) {
        Iso2 { rotation: self.rotation, translation: self.translation.plus(v) }
    }

    fn set_translation(&mut self, v: Vec2<N>) {
        self.translation = v;
    }
}

impl<N: Scalar> Translate<Vec2<N>> for Iso2<N> {
    open spec fn translate_fits(m: Iso2Model, v: Vec2<int>) -> bool {
        v.sum(m.translation).fits::<N>()
    }

    open spec fn translate_model(m: Iso2Model, v: Vec2<int>) -> Vec2<int> {
        v.sum(m.translation)
    }

    open spec fn inv_translate_fits(m: Iso2Model, v: Vec2<int>) -> bool {
        v.diff(m.translation).fits::<N>()
    }

    open spec fn inv_translate_model(m: Iso2Model, v: Vec2<int>) -> Vec2<int> {
        v.diff(m.translation)
    }

    fn translate(&self, v: &Vec2<N>) -> (r: Vec2<N>) {
        v.plus(&self.translation)
    }

    fn inv_translate(&self, v: &Vec2<N>) -> (r: Vec2<N>) {
        v.minus(&self.translation)
    }
}

impl<N: Scalar> Rotation<Rot2<N>> for Iso2<N> {
    open spec fn rotation_model(m: Iso2Model) -> Mat2<int> {
        m.rotation
    }

    open spec fn inv_rotation_fits(m: Iso2Model) -> bool {
        true
    }

    open spec fn inv_rotation_model(m: Iso2Model) -> Mat2<int> {
        m.rotation.transposed()
    }

    open spec fn rotated_fits(m: Iso2Model, v: Mat2<int>) -> bool {
        Mat2::<int>::apply_fits::<N>(v, m.translation)
    }

    open spec fn rotated_model(m: Iso2Model, v: Mat2<int>) -> Iso2Model {
        Iso2Model { rotation: v.times(m.rotation), translation: v.apply(m.translation) }
    }

    open spec fn set_rotation_model(m: Iso2Model, v: Mat2<int>) -> Iso2Model {
        Iso2Model { rotation: v, translation: m.translation }
    }

    fn rotation(&self) -> (r: Rot2<N>) {
        self.rotation
    }

    fn inv_rotation(&self) -> (r: Rot2<N>) {
        self.rotation.transposed()
    }

    fn rotate_by(&mut self, v: &Rot2<N>) {
        self.translation = v.rmul(&self.translation);
        self.rotation = v.times(&self.rotation);
    }

    fn rotated(&self, v: &Rot2<N>) -> (r: Self) {
        Iso2 { rotation: v.times(&self.rotation), translation: v.rmul(&self.translation) }
    }

    fn set_rotation(&mut self, v: Rot2<N>) {
        self.rotation = v;
    }
}

impl<N: Scalar> Rotate<Vec2<N>> for Iso2<N> {
    open spec fn rotate_fits(m: Iso2Model, v: Vec2<int>) -> bool {
        Mat2::<int>::apply_fits::<N>(m.rotation, v)
    }

    open spec fn rotate_model(m: Iso2Model, v: Vec2<int>) -> Vec2<int> {
        m.rotation.apply(v)
    }

    open spec fn inv_rotate_fits(m: Iso2Model, v: Vec2<int>) -> bool {
        Mat2::<int>::apply_fits::<N>(m.rotation.transposed(), v)
    }

    open spec fn inv_rotate_model(m: Iso2Model, v: Vec2<int>) -> Vec2<int> {
        m.rotation.transposed().apply(v)
    }

    fn rotate(&self, v: &Vec2<N>) -> (r: Vec2<N>) {
        self.rotation.rotate(v)
    }

    fn inv_rotate(&self, v: &Vec2<N>) -> (r: Vec2<N>) {
        self.rotation.inv_rotate(v)
    }
}

impl<N: Scalar> RotationWithTranslation<Vec2<N>, Rot2<N>> for Iso2<N> {
}

impl<N: Scalar> RotationMatrix<Vec2<N>, Rot2<N>, Rot2<N>> for Iso2<N> {
    open spec fn to_rot_mat_model(m: Iso2Model) -> Mat2<int> {
        m.rotation
    }

    fn to_rot_mat(&self) -> (r: Rot2<N>) {
        self.rotation
    }
}

impl<N: Scalar> AbsoluteRotate<Vec2<N>> for Iso2<N> {
    open spec fn absolute_rotate_fits(m: Iso2Model, v: Vec2<int>) -> bool {
        Mat2::<int>::apply_fits::<N>(m.rotation.abs(), v)
    }

    open spec fn absolute_rotate_model(m: Iso2Model, v: Vec2<int>) -> Vec2<int> {
        m.rotation.abs().apply(v)
    }

    fn absolute_rotate(&self, v: &Vec2<N>) -> (r: Vec2<N>) {
        self.rotation.absolute_rotate(v)
    }
}

impl<N: Scalar> Transformation<Iso2<N>> for Iso2<N> {
    open spec fn transformation_model(m: Iso2Model) -> Iso2Model {
        m
    }

    open spec fn inv_transformation_fits(m: Iso2Model) -> bool {
        Iso2Model::inverse_fits::<N>(m)
    }

    open spec fn inv_transformation_model(m: Iso2Model) -> Iso2Model {
        m.inverse()
    }

    open spec fn transformed_fits(m: Iso2Model, v: Iso2Model) -> bool {
        Iso2Model::after_fits::<N>(v, m)
    }

    open spec fn transformed_model(m: Iso2Model, v: Iso2Model) -> Iso2Model {
        v.after(m)
    }

    open spec fn set_transformation_model(m: Iso2Model, v: Iso2Model) -> Iso2Model {
        v
    }

    fn transformation(&self) -> (r: Iso2<N>) {
        *self
    }

    fn inv_transformation(&self) -> (r: Iso2<N>) {
        let back = self.rotation.transposed();
        Iso2 { rotation: back, translation: back.rmul(&self.translation.negated()) }
    }

    fn transform_by(&mut self, v: &Iso2<N>) {
        *self = v.times(&*self);
    }

    fn transformed(&self, v: &Iso2<N>) -> (r: Self) {
        v.times(self)
    }

    fn set_transformation(&mut self, v: Iso2<N>) {
        *self = v;
    }
}

impl<N: Scalar> Transform<Vec2<N>> for Iso2<N> {
    open spec fn transform_fits(m: Iso2Model, v: Vec2<int>) -> bool {
        &&& Mat2::<int>::apply_fits::<N>(m.rotation, v)
        &&& m.apply(v).fits::<N>()
    }

    open spec fn transform_model(m: Iso2Model, v: Vec2<int>) -> Vec2<int> {
        m.apply(v)
    }

    open spec fn inv_transform_fits(m: Iso2Model, v: Vec2<int>) -> bool {
        &&& v.diff(m.translation).fits::<N>()
        &&& Mat2::<int>::apply_fits::<N>(m.rotation.transposed(), v.diff(m.translation))
    }

    open spec fn inv_transform_model(m: Iso2Model, v: Vec2<int>) -> Vec2<int> {
        m.apply_inverse(v)
    }

    fn transform(&self, v: &Vec2<N>) -> (r: Vec2<N>) {
        self.rotation.rotate(v).plus(&self.translation)
    }

    fn inv_transform(&self, v: &Vec2<N>) -> (r: Vec2<N>) {
        self.rotation.inv_rotate(&v.minus(&self.translation))
    }
}

impl<N: Scalar> Inv for Iso2<N> {
    open spec fn inv_fits(m: Iso2Model) -> bool {
        Iso2Model::inverse_fits::<N>(m)
    }

    open spec fn invertible(m: Iso2Model) -> bool {
        true
    }

    open spec fn inverse_model(m: Iso2Model) -> Iso2Model {
        m.inverse()
    }

    fn inverted(&self) -> (r: Option<Self>) {
        Some(self.inv_transformation())
    }

    fn invert(&mut self) -> (ok: bool) {
        *self = self.inv_transformation();
        true
    }
}

impl<N: Scalar> ToHomogeneous<Mat3<N>> for Iso2<N> {
    open spec fn to_homogeneous_model(m: Iso2Model) -> Mat3<int> {
        m.lifted()
    }

    fn to_homogeneous(&self) -> (r: Mat3<N>) {
        let z = N::zero();
        let u = N::one();
        proof {
            z.lemma_val();
            u.lemma_val();
        }
        let m = self.rotation.submat();
        Mat3 {
            m11: m.m11, m12: m.m12, m13: self.translation.x,
            m21: m.m21, m22: m.m22, m23: self.translation.y,
            m31: z, m32: z, m33: u,
        }
    }
}

impl<N: Scalar> FromHomogeneous<Mat3<N>> for Iso2<N> {
    open spec fn from_fits(m: Mat3<int>) -> bool {
        m.lowered().is_orthogonal()
    }

    open spec fn from_model(m: Mat3<int>) -> Iso2Model {
        m.rigid()
    }

    fn from(m: &Mat3<N>) -> (r: Self) {
        Iso2 {
            rotation: <Rot2<N> as FromHomogeneous<Mat3<N>>>::from(m),
            translation: Vec2 { x: m.m13, y: m.m23 },
        }
    }
}

/// The translation of a rigid transformation of dimension 2 and its inverse
/// translation add up to zero.
pub proof fn lemma_translation_inverse2<N: Scalar>(m: Iso2Model)
    ensures
        <Iso2<N> as Translation<Vec2<N>>>::translation_model(m).sum(
            <Iso2<N> as Translation<Vec2<N>>>::inv_translation_model(m),
        ) == Vec2::<int>::origin(),
{
}

/// To move a point by the translation of a rigid transformation of dimension
/// 2 and to move it back, in either order, gives the point.
pub proof fn lemma_translate_inverse2<N: Scalar>(m: Iso2Model, p: Vec2<int>)
    ensures
        <Iso2<N> as Translate<Vec2<N>>>::inv_translate_model(
            m,
            <Iso2<N> as Translate<Vec2<N>>>::translate_model(m, p),
        ) == p,
        <Iso2<N> as Translate<Vec2<N>>>::translate_model(
            m,
            <Iso2<N> as Translate<Vec2<N>>>::inv_translate_model(m, p),
        ) == p,
{
}

/// To rotate a rigid transformation of dimension 2 by `amount` about
/// `center` is to compose its rotation with `amount`, and to turn its
/// translation about `center`.
pub proof fn lemma_rotated_wrt_point2<N: Scalar>(m: Iso2Model, amount: Mat2<int>, center: Vec2<int>)
    ensures
        rotated_wrt_point_model::<Iso2<N>, Vec2<N>, Rot2<N>>(m, amount, center)
            == <Iso2<N> as Translation<Vec2<N>>>::translated_model(
            <Iso2<N> as Rotation<Rot2<N>>>::rotated_model(
                <Iso2<N> as Translation<Vec2<N>>>::translated_model(m, center.opposite()),
                amount,
            ),
            center,
        ),
        rotated_wrt_point_model::<Iso2<N>, Vec2<N>, Rot2<N>>(m, amount, center) == (Iso2Model {
            rotation: amount.times(m.rotation),
            translation: amount.apply(m.translation.diff(center)).sum(center),
        }),
        rotated_wrt_point_model::<Iso2<N>, Vec2<N>, Rot2<N>>(m, amount, m.translation).translation
            == m.translation,
{
    assert(m.translation.sum(center.opposite()) == m.translation.diff(center));
    assert(m.translation.diff(m.translation) == Vec2::<int>::origin());
    lemma_apply_linear2(amount, m.translation, m.translation);
}

/// A rigid transformation of dimension 2 and its inverse undo each other on
/// every point, and compose to the identity.
pub proof fn lemma_inverse_iso2(m: Iso2Model, p: Vec2<int>)
    requires
        m.rotation.is_orthogonal(),
    ensures
        m.inverse().apply(p) == m.apply_inverse(p),
        m.inverse().apply(m.apply(p)) == p,
        m.apply(m.inverse().apply(p)) == p,
        m.inverse().after(m) == Iso2Model::identity(),
        m.after(m.inverse()) == Iso2Model::identity(),
        m.inverse().inverse() == m,
{
    let r = m.rotation;
    let t = m.translation;
    let back = r.transposed();
    lemma_apply_linear2(back, p, t);
    lemma_apply_linear2(back, r.apply(p), t);
    lemma_apply_linear2(r, back.apply(p), back.apply(t));
    lemma_apply_linear2(back, t, t);
    lemma_apply_linear2(r, back.apply(t), back.apply(t));
    lemma_orthogonal_undo2(r, p);
    lemma_orthogonal_undo2(r, t);
    lemma_orthogonal_undo2(r, t.opposite());
    assert(back.transposed() == r);
}

/// A composition of rigid transformations of dimension 2 takes a point
/// where its second takes the point to which its first takes it.
pub proof fn lemma_after_apply2(second: Iso2Model, first: Iso2Model, p: Vec2<int>)
    ensures
        second.after(first).apply(p) == second.apply(first.apply(p)),
{
    lemma_apply_times2(second.rotation, first.rotation, p);
    lemma_apply_linear2(second.rotation, first.rotation.apply(p), first.translation);
}

/// To read a rigid transformation of dimension 2 back from its homogeneous
/// form gives the transformation, and the homogeneous form acts on
/// homogeneous points as the transformation acts on points.
pub proof fn lemma_homogeneous_iso2<N: Scalar>(m: Iso2Model, p: Vec2<int>)
    ensures
        <Iso2<N> as FromHomogeneous<Mat3<N>>>::from_model(
            <Iso2<N> as ToHomogeneous<Mat3<N>>>::to_homogeneous_model(m),
        ) == m,
        m.rotation.is_orthogonal() ==> <Iso2<N> as FromHomogeneous<Mat3<N>>>::from_fits(
            <Iso2<N> as ToHomogeneous<Mat3<N>>>::to_homogeneous_model(m),
        ),
        m.lifted().apply(p.lifted()) == m.apply(p).lifted(),
{
    assert(m.lifted().lowered() == m.rotation);
    lemma_mul_zero(0, p.x);
    lemma_mul_zero(0, p.y);
}

/// A rigid transformation of the space of dimension 3: a rotation, then a
/// translation.
#[derive(Debug, PartialEq, Eq)]
pub struct Iso3<N: Scalar> {
    pub rotation: Rot3<N>,
    pub translation: Vec3<N>,
}

impl<N: Scalar> Clone for Iso3<N> {
    fn clone(&self) -> (r: Self)
        ensures
            r == *self,
    {
        *self
    }
}

impl<N: Scalar> Copy for Iso3<N> {
}

/// The mathematical model of a rigid transformation of dimension 3: the
/// matrix of its rotation and the vector of its translation.
pub struct Iso3Model {
    pub rotation: Mat3<int>,
    pub translation: Vec3<int>,
}

impl<N: Scalar> View for Iso3<N> {
    type V = Iso3Model;

    open spec fn view(&self) -> Iso3Model {
        Iso3Model { rotation: self.rotation@, translation: self.translation@ }
    }
}

impl Iso3Model {
    /// The transformation that leaves every point where it is.
    pub open spec fn identity() -> Self {
        Iso3Model { rotation: Mat3::<int>::identity(), translation: Vec3::<int>::origin() }
    }

    /// The point `p` after the transformation: rotated, then translated.
    pub open spec fn apply(self, p: Vec3<int>) -> Vec3<int> {
        self.rotation.apply(p).sum(self.translation)
    }

    /// The point that the transformation takes to `p`: `p` translated back,
    /// then rotated back.
    pub open spec fn apply_inverse(self, p: Vec3<int>) -> Vec3<int> {
        self.rotation.transposed().apply(p.diff(self.translation))
    }

    /// The composition of `self` and `first`, which applies `first` first.
    pub open spec fn after(self, first: Self) -> Self {
        Iso3Model {
            rotation: self.rotation.times(first.rotation),
            translation: self.rotation.apply(first.translation).sum(self.translation),
        }
    }

    /// The inverse transformation.
    pub open spec fn inverse(self) -> Self {
        Iso3Model {
            rotation: self.rotation.transposed(),
            translation: self.rotation.transposed().apply(self.translation.opposite()),
        }
    }

    /// Whether every step of the composition of `m` and `first` is
    /// representable in `N`.
    pub open spec fn after_fits<N: Scalar>(m: Self, first: Self) -> bool {
        &&& Mat3::<int>::apply_fits::<N>(m.rotation, first.translation)
        &&& m.rotation.apply(first.translation).sum(m.translation).fits::<N>()
    }

    /// Whether every step of the inversion of `m` is representable in `N`.
    pub open spec fn inverse_fits<N: Scalar>(m: Self) -> bool {
        &&& m.translation.opposite().fits::<N>()
        &&& Mat3::<int>::apply_fits::<N>(m.rotation.transposed(), m.translation.opposite())
    }

    /// The homogeneous form: the matrix that acts on homogeneous points as the
    /// transformation acts on points.
    pub open spec fn lifted(self) -> Mat4<int> {
        Mat4 {
            m11: self.rotation.m11, m12: self.rotation.m12, m13: self.rotation.m13,
                m14: self.translation.x,
            m21: self.rotation.m21, m22: self.rotation.m22, m23: self.rotation.m23,
                m24: self.translation.y,
            m31: self.rotation.m31, m32: self.rotation.m32, m33: self.rotation.m33,
                m34: self.translation.z,
            m41: 0, m42: 0, m43: 0, m44: 1,
        }
    }
}

impl Mat4<int> {
    /// The rigid transformation that the affine part of the matrix stands
    /// for: the upper left block and the last column.
    pub open spec fn rigid(self) -> Iso3Model {
        Iso3Model {
            rotation: self.lowered(),
            translation: Vec3 { x: self.m14, y: self.m24, z: self.m34 },
        }
    }
}

impl<N: Scalar> Iso3<N> {
    /// The transformation that rotates by `rotation` and then translates by
    /// `translation`.
    pub fn new(translation: Vec3<N>, rotation: Rot3<N>) -> (r: Self)
        ensures
            r == (Iso3 { rotation, translation }),
    {
        Iso3 { rotation, translation }
    }

    /// A rigid transformation is determined by its view.
    pub proof fn lemma_view_injective(a: Self, b: Self)
        requires
            a@ == b@,
        ensures
            a == b,
    {
        Rot3::lemma_view_injective(a.rotation, b.rotation);
        Vec3::lemma_view_injective(a.translation, b.translation);
    }

    /// The composition of `self` and `first`, which applies `first` first.
    pub fn times(&self, first: &Self) -> (r: Self)
        requires
            Iso3Model::after_fits::<N>(self@, first@),
        ensures
            r@ == self@.after(first@),
    {
        Iso3 {
            rotation: self.rotation.times(&first.rotation),
            translation: self.rotation.rmul(&first.translation).plus(&self.translation),
        }
    }
}

impl<N: Scalar> Dim for Iso3<N> {
    open spec fn dim_model() -> nat {
        3
    }

    fn dim() -> (r: usize) {
        3
    }
}

impl<N: Scalar> One for Iso3<N> {
    open spec fn is_one(&self) -> bool {
        self@ == Iso3Model::identity()
    }

    fn one() -> (r: Self) {
        Iso3 { rotation: Rot3::one(), translation: Vec3::zero() }
    }
}

impl<N: Scalar> Translation<Vec3<N>> for Iso3<N> {
    open spec fn translation_model(m: Iso3Model) -> Vec3<int> {
        m.translation
    }

    open spec fn inv_translation_fits(m: Iso3Model) -> bool {
        m.translation.opposite().fits::<N>()
    }

    open spec fn inv_translation_model(m: Iso3Model) -> Vec3<int> {
        m.translation.opposite()
    }

    open spec fn translated_fits(m: Iso3Model, v: Vec3<int>) -> bool {
        m.translation.sum(v).fits::<N>()
    }

    open spec fn translated_model(m: Iso3Model, v: Vec3<int>) -> Iso3Model {
        Iso3Model { rotation: m.rotation, translation: m.translation.sum(v) }
    }

    open spec fn set_translation_model(m: Iso3Model, v: Vec3<int>) -> Iso3Model {
        Iso3Model { rotation: m.rotation, translation: v }
    }

    fn translation(&self) -> (r: Vec3<N>) {
        self.translation
    }

    fn inv_translation(&self) -> (r: Vec3<N>) {
        self.translation.negated()
    }

    fn translate_by(&mut self, v: &Vec3<N>) {
        self.translation = self.translation.plus(v);
    }

    fn translated(&self, v: &Vec3<N>) -> (r: Self) {
        Iso3 { rotation: self.rotation, translation: self.translation.plus(v) }
    }

    fn set_translation(&mut self, v: Vec3<N>) {
        self.translation = v;
    }
}

impl<N: Scalar> Translate<Vec3<N>> for Iso3<N> {
    open spec fn translate_fits(m: Iso3Model, v: Vec3<int>) -> bool {
        v.sum(m.translation).fits::<N>()
    }

    open spec fn translate_model(m: Iso3Model, v: Vec3<int>) -> Vec3<int> {
        v.sum(m.translation)
    }

    open spec fn inv_translate_fits(m: Iso3Model, v: Vec3<int>) -> bool {
        v.diff(m.translation).fits::<N>()
    }

    open spec fn inv_translate_model(m: Iso3Model, v: Vec3<int>) -> Vec3<int> {
        v.diff(m.translation)
    }

    fn translate(&self, v: &Vec3<N>) -> (r: Vec3<N>) {
        v.plus(&self.translation)
    }

    fn inv_translate(&self, v: &Vec3<N>) -> (r: Vec3<N>) {
        v.minus(&self.translation)
    }
}

impl<N: Scalar> Rotation<Rot3<N>> for Iso3<N> {
    open spec fn rotation_model(m: Iso3Model) -> Mat3<int> {
        m.rotation
    }

    open spec fn inv_rotation_fits(m: Iso3Model) -> bool {
        true
    }

    open spec fn inv_rotation_model(m: Iso3Model) -> Mat3<int> {
        m.rotation.transposed()
    }

    open spec fn rotated_fits(m: Iso3Model, v: Mat3<int>) -> bool {
        Mat3::<int>::apply_fits::<N>(v, m.translation)
    }

    open spec fn rotated_model(m: Iso3Model, v: Mat3<int>) -> Iso3Model {
        Iso3Model { rotation: v.times(m.rotation), translation: v.apply(m.translation) }
    }

    open spec fn set_rotation_model(m: Iso3Model, v: Mat3<int>) -> Iso3Model {
        Iso3Model { rotation: v, translation: m.translation }
    }

    fn rotation(&self) -> (r: Rot3<N>) {
        self.rotation
    }

    fn inv_rotation(&self) -> (r: Rot3<N>) {
        self.rotation.transposed()
    }

    fn rotate_by(&mut self, v: &Rot3<N>) {
        self.translation = v.rmul(&self.translation);
        self.rotation = v.times(&self.rotation);
    }

    fn rotated(&self, v: &Rot3<N>) -> (r: Self) {
        Iso3 { rotation: v.times(&self.rotation), translation: v.rmul(&self.translation) }
    }

    fn set_rotation(&mut self, v: Rot3<N>) {
        self.rotation = v;
    }
}

impl<N: Scalar> Rotate<Vec3<N>> for Iso3<N> {
    open spec fn rotate_fits(m: Iso3Model, v: Vec3<int>) -> bool {
        Mat3::<int>::apply_fits::<N>(m.rotation, v)
    }

    open spec fn rotate_model(m: Iso3Model, v: Vec3<int>) -> Vec3<int> {
        m.rotation.apply(v)
    }

    open spec fn inv_rotate_fits(m: Iso3Model, v: Vec3<int>) -> bool {
        Mat3::<int>::apply_fits::<N>(m.rotation.transposed(), v)
    }

    open spec fn inv_rotate_model(m: Iso3Model, v: Vec3<int>) -> Vec3<int> {
        m.rotation.transposed().apply(v)
    }

    fn rotate(&self, v: &Vec3<N>) -> (r: Vec3<N>) {
        self.rotation.rotate(v)
    }

    fn inv_rotate(&self, v: &Vec3<N>) -> (r: Vec3<N>) {
        self.rotation.inv_rotate(v)
    }
}

impl<N: Scalar> RotationWithTranslation<Vec3<N>, Rot3<N>> for Iso3<N> {
}

impl<N: Scalar> RotationMatrix<Vec3<N>, Rot3<N>, Rot3<N>> for Iso3<N> {
    open spec fn to_rot_mat_model(m: Iso3Model) -> Mat3<int> {
        m.rotation
    }

    fn to_rot_mat(&self) -> (r: Rot3<N>) {
        self.rotation
    }
}

impl<N: Scalar> AbsoluteRotate<Vec3<N>> for Iso3<N> {
    open spec fn absolute_rotate_fits(m: Iso3Model, v: Vec3<int>) -> bool {
        Mat3::<int>::apply_fits::<N>(m.rotation.abs(), v)
    }

    open spec fn absolute_rotate_model(m: Iso3Model, v: Vec3<int>) -> Vec3<int> {
        m.rotation.abs().apply(v)
    }

    fn absolute_rotate(&self, v: &Vec3<N>) -> (r: Vec3<N>) {
        self.rotation.absolute_rotate(v)
    }
}

impl<N: Scalar> Transformation<Iso3<N>> for Iso3<N> {
    open spec fn transformation_model(m: Iso3Model) -> Iso3Model {
        m
    }

    open spec fn inv_transformation_fits(m: Iso3Model) -> bool {
        Iso3Model::inverse_fits::<N>(m)
    }

    open spec fn inv_transformation_model(m: Iso3Model) -> Iso3Model {
        m.inverse()
    }

    open spec fn transformed_fits(m: Iso3Model, v: Iso3Model) -> bool {
        Iso3Model::after_fits::<N>(v, m)
    }

    open spec fn transformed_model(m: Iso3Model, v: Iso3Model) -> Iso3Model {
        v.after(m)
    }

    open spec fn set_transformation_model(m: Iso3Model, v: Iso3Model) -> Iso3Model {
        v
    }

    fn transformation(&self) -> (r: Iso3<N>) {
        *self
    }

    fn inv_transformation(&self) -> (r: Iso3<N>) {
        let back = self.rotation.transposed();
        Iso3 { rotation: back, translation: back.rmul(&self.translation.negated()) }
    }

    fn transform_by(&mut self, v: &Iso3<N>) {
        *self = v.times(&*self);
    }

    fn transformed(&self, v: &Iso3<N>) -> (r: Self) {
        v.times(self)
    }

    fn set_transformation(&mut self, v: Iso3<N>) {
        *self = v;
    }
}

impl<N: Scalar> Transform<Vec3<N>> for Iso3<N> {
    open spec fn transform_fits(m: Iso3Model, v: Vec3<int>) -> bool {
        &&& Mat3::<int>::apply_fits::<N>(m.rotation, v)
        &&& m.apply(v).fits::<N>()
    }

    open spec fn transform_model(m: Iso3Model, v: Vec3<int>) -> Vec3<int> {
        m.apply(v)
    }

    open spec fn inv_transform_fits(m: Iso3Model, v: Vec3<int>) -> bool {
        &&& v.diff(m.translation).fits::<N>()
        &&& Mat3::<int>::apply_fits::<N>(m.rotation.transposed(), v.diff(m.translation))
    }

    open spec fn inv_transform_model(m: Iso3Model, v: Vec3<int>) -> Vec3<int> {
        m.apply_inverse(v)
    }

    fn transform(&self, v: &Vec3<N>) -> (r: Vec3<N>) {
        self.rotation.rotate(v).plus(&self.translation)
    }

    fn inv_transform(&self, v: &Vec3<N>) -> (r: Vec3<N>) {
        self.rotation.inv_rotate(&v.minus(&self.translation))
    }
}

impl<N: Scalar> Inv for Iso3<N> {
    open spec fn inv_fits(m: Iso3Model) -> bool {
        Iso3Model::inverse_fits::<N>(m)
    }

    open spec fn invertible(m: Iso3Model) -> bool {
        true
    }

    open spec fn inverse_model(m: Iso3Model) -> Iso3Model {
        m.inverse()
    }

    fn inverted(&self) -> (r: Option<Self>) {
        Some(self.inv_transformation())
    }

    fn invert(&mut self) -> (ok: bool) {
        *self = self.inv_transformation();
        true
    }
}

impl<N: Scalar> ToHomogeneous<Mat4<N>> for Iso3<N> {
    open spec fn to_homogeneous_model(m: Iso3Model) -> Mat4<int> {
        m.lifted()
    }

    fn to_homogeneous(&self) -> (r: Mat4<N>) {
        let z = N::zero();
        let u = N::one();
        proof {
            z.lemma_val();
            u.lemma_val();
        }
        let m = self.rotation.submat();
        Mat4 {
            m11: m.m11, m12: m.m12, m13: m.m13, m14: self.translation.x,
            m21: m.m21, m22: m.m22, m23: m.m23, m24: self.translation.y,
            m31: m.m31, m32: m.m32, m33: m.m33, m34: self.translation.z,
            m41: z, m42: z, m43: z, m44: u,
        }
    }
}

impl<N: Scalar> FromHomogeneous<Mat4<N>> for Iso3<N> {
    open spec fn from_fits(m: Mat4<int>) -> bool {
        m.lowered().is_orthogonal()
    }

    open spec fn from_model(m: Mat4<int>) -> Iso3Model {
        m.rigid()
    }

    fn from(m: &Mat4<N>) -> (r: Self) {
        Iso3 {
            rotation: <Rot3<N> as FromHomogeneous<Mat4<N>>>::from(m),
            translation: Vec3 { x: m.m14, y: m.m24, z: m.m34 },
        }
    }
}

/// The translation of a rigid transformation of dimension 3 and its inverse
/// translation add up to zero.
pub proof fn lemma_translation_inverse3<N: Scalar>(m: Iso3Model)
    ensures
        <Iso3<N> as Translation<Vec3<N>>>::translation_model(m).sum(
            <Iso3<N> as Translation<Vec3<N>>>::inv_translation_model(m),
        ) == Vec3::<int>::origin(),
{
}

/// To move a point by the translation of a rigid transformation of dimension
/// 3 and to move it back, in either order, gives the point.
pub proof fn lemma_translate_inverse3<N: Scalar>(m: Iso3Model, p: Vec3<int>)
    ensures
        <Iso3<N> as Translate<Vec3<N>>>::inv_translate_model(
            m,
            <Iso3<N> as Translate<Vec3<N>>>::translate_model(m, p),
        ) == p,
        <Iso3<N> as Translate<Vec3<N>>>::translate_model(
            m,
            <Iso3<N> as Translate<Vec3<N>>>::inv_translate_model(m, p),
        ) == p,
{
}

/// To rotate a rigid transformation of dimension 3 by `amount` about
/// `center` is to compose its rotation with `amount`, and to turn its
/// translation about `center`.
pub proof fn lemma_rotated_wrt_point3<N: Scalar>(m: Iso3Model, amount: Mat3<int>, center: Vec3<int>)
    ensures
        rotated_wrt_point_model::<Iso3<N>, Vec3<N>, Rot3<N>>(m, amount, center)
            == <Iso3<N> as Translation<Vec3<N>>>::translated_model(
            <Iso3<N> as Rotation<Rot3<N>>>::rotated_model(
                <Iso3<N> as Translation<Vec3<N>>>::translated_model(m, center.opposite()),
                amount,
            ),
            center,
        ),
        rotated_wrt_point_model::<Iso3<N>, Vec3<N>, Rot3<N>>(m, amount, center) == (Iso3Model {
            rotation: amount.times(m.rotation),
            translation: amount.apply(m.translation.diff(center)).sum(center),
        }),
        rotated_wrt_point_model::<Iso3<N>, Vec3<N>, Rot3<N>>(m, amount, m.translation).translation
            == m.translation,
{
    assert(m.translation.sum(center.opposite()) == m.translation.diff(center));
    assert(m.translation.diff(m.translation) == Vec3::<int>::origin());
    lemma_apply_linear3(amount, m.translation, m.translation);
}

/// A rigid transformation of dimension 3 and its inverse undo each other on
/// every point, and compose to the identity.
pub proof fn lemma_inverse_iso3(m: Iso3Model, p: Vec3<int>)
    requires
        m.rotation.is_orthogonal(),
    ensures
        m.inverse().apply(p) == m.apply_inverse(p),
        m.inverse().apply(m.apply(p)) == p,
        m.apply(m.inverse().apply(p)) == p,
        m.inverse().after(m) == Iso3Model::identity(),
        m.after(m.inverse()) == Iso3Model::identity(),
        m.inverse().inverse() == m,
{
    let r = m.rotation;
    let t = m.translation;
    let back = r.transposed();
    lemma_apply_linear3(back, p, t);
    lemma_apply_linear3(back, r.apply(p), t);
    lemma_apply_linear3(r, back.apply(p), back.apply(t));
    lemma_apply_linear3(back, t, t);
    lemma_apply_linear3(r, back.apply(t), back.apply(t));
    lemma_orthogonal_undo3(r, p);
    lemma_orthogonal_undo3(r, t);
    lemma_orthogonal_undo3(r, t.opposite());
    assert(back.transposed() == r);
}

/// A composition of rigid transformations of dimension 3 takes a point
/// where its second takes the point to which its first takes it.
pub proof fn lemma_after_apply3(second: Iso3Model, first: Iso3Model, p: Vec3<int>)
    ensures
        second.after(first).apply(p) == second.apply(first.apply(p)),
{
    lemma_apply_times3(second.rotation, first.rotation, p);
    lemma_apply_linear3(second.rotation, first.rotation.apply(p), first.translation);
}

/// To read a rigid transformation of dimension 3 back from its homogeneous
/// form gives the transformation, and the homogeneous form acts on
/// homogeneous points as the transformation acts on points.
pub proof fn lemma_homogeneous_iso3<N: Scalar>(m: Iso3Model, p: Vec3<int>)
    ensures
        <Iso3<N> as FromHomogeneous<Mat4<N>>>::from_model(
            <Iso3<N> as ToHomogeneous<Mat4<N>>>::to_homogeneous_model(m),
        ) == m,
        m.rotation.is_orthogonal() ==> <Iso3<N> as FromHomogeneous<Mat4<N>>>::from_fits(
            <Iso3<N> as ToHomogeneous<Mat4<N>>>::to_homogeneous_model(m),
        ),
        m.lifted().apply(p.lifted()) == m.apply(p).lifted(),
{
    assert(m.lifted().lowered() == m.rotation);
    lemma_mul_zero(0, p.x);
    lemma_mul_zero(0, p.y);
    lemma_mul_zero(0, p.z);
}

/// A rigid transformation of the space of dimension 4: a rotation, then a
/// translation.
#[derive(Debug, PartialEq, Eq)]
pub struct Iso4<N: Scalar> {
    pub rotation: Rot4<N>,
    pub translation: Vec4<N>,
}

impl<N: Scalar> Clone for Iso4<N> {
    fn clone(&self) -> (r: Self)
        ensures
            r == *self,
    {
        *self
    }
}

impl<N: Scalar> Copy for Iso4<N> {
}

/// The mathematical model of a rigid transformation of dimension 4: the
/// matrix of its rotation and the vector of its translation.
pub struct Iso4Model {
    pub rotation: Mat4<int>,
    pub translation: Vec4<int>,
}

impl<N: Scalar> View for Iso4<N> {
    type V = Iso4Model;

    open spec fn view(&self) -> Iso4Model {
        Iso4Model { rotation: self.rotation@, translation: self.translation@ }
    }
}

impl Iso4Model {
    /// The transformation that leaves every point where it is.
    pub open spec fn identity() -> Self {
        Iso4Model { rotation: Mat4::<int>::identity(), translation: Vec4::<int>::origin() }
    }

    /// The point `p` after the transformation: rotated, then translated.
    pub open spec fn apply(self, p: Vec4<int>) -> Vec4<int> {
        self.rotation.apply(p).sum(self.translation)
    }

    /// The point that the transformation takes to `p`: `p` translated back,
    /// then rotated back.
    pub open spec fn apply_inverse(self, p: Vec4<int>) -> Vec4<int> {
        self.rotation.transposed().apply(p.diff(self.translation))
    }

    /// The composition of `self` and `first`, which applies `first` first.
    pub open spec fn after(self, first: Self) -> Self {
        Iso4Model {
            rotation: self.rotation.times(first.rotation),
            translation: self.rotation.apply(first.translation).sum(self.translation),
        }
    }

    /// The inverse transformation.
    pub open spec fn inverse(self) -> Self {
        Iso4Model {
            rotation: self.rotation.transposed(),
            translation: self.rotation.transposed().apply(self.translation.opposite()),
        }
    }

    /// Whether every step of the composition of `m` and `first` is
    /// representable in `N`.
    pub open spec fn after_fits<N: Scalar>(m: Self, first: Self) -> bool {
        &&& Mat4::<int>::apply_fits::<N>(m.rotation, first.translation)
        &&& m.rotation.apply(first.translation).sum(m.translation).fits::<N>()
    }

    /// Whether every step of the inversion of `m` is representable in `N`.
    pub open spec fn inverse_fits<N: Scalar>(m: Self) -> bool {
        &&& m.translation.opposite().fits::<N>()
        &&& Mat4::<int>::apply_fits::<N>(m.rotation.transposed(), m.translation.opposite())
    }
}

impl<N: Scalar> Iso4<N> {
    /// The transformation that rotates by `rotation` and then translates by
    /// `translation`.
    pub fn new(translation: Vec4<N>, rotation: Rot4<N>) -> (r: Self)
        ensures
            r == (Iso4 { rotation, translation }),
    {
        Iso4 { rotation, translation }
    }

    /// A rigid transformation is determined by its view.
    pub proof fn lemma_view_injective(a: Self, b: Self)
        requires
            a@ == b@,
        ensures
            a == b,
    {
        Rot4::lemma_view_injective(a.rotation, b.rotation);
        Vec4::lemma_view_injective(a.translation, b.translation);
    }

    /// The composition of `self` and `first`, which applies `first` first.
    pub fn times(&self, first: &Self) -> (r: Self)
        requires
            Iso4Model::after_fits::<N>(self@, first@),
        ensures
            r@ == self@.after(first@),
    {
        Iso4 {
            rotation: self.rotation.times(&first.rotation),
            translation: self.rotation.rmul(&first.translation).plus(&self.translation),
        }
    }
}

impl<N: Scalar> Dim for Iso4<N> {
    open spec fn dim_model() -> nat {
        4
    }

    fn dim() -> (r: usize) {
        4
    }
}

impl<N: Scalar> One for Iso4<N> {
    open spec fn is_one(&self) -> bool {
        self@ == Iso4Model::identity()
    }

    fn one() -> (r: Self) {
        Iso4 { rotation: Rot4::one(), translation: Vec4::zero() }
    }
}

impl<N: Scalar> Translation<Vec4<N>> for Iso4<N> {
    open spec fn translation_model(m: Iso4Model) -> Vec4<int> {
        m.translation
    }

    open spec fn inv_translation_fits(m: Iso4Model) -> bool {
        m.translation.opposite().fits::<N>()
    }

    open spec fn inv_translation_model(m: Iso4Model) -> Vec4<int> {
        m.translation.opposite()
    }

    open spec fn translated_fits(m: Iso4Model, v: Vec4<int>) -> bool {
        m.translation.sum(v).fits::<N>()
    }

    open spec fn translated_model(m: Iso4Model, v: Vec4<int>) -> Iso4Model {
        Iso4Model { rotation: m.rotation, translation: m.translation.sum(v) }
    }

    open spec fn set_translation_model(m: Iso4Model, v: Vec4<int>) -> Iso4Model {
        Iso4Model { rotation: m.rotation, translation: v }
    }

    fn translation(&self) -> (r: Vec4<N>) {
        self.translation
    }

    fn inv_translation(&self) -> (r: Vec4<N>) {
        self.translation.negated()
    }

    fn translate_by(&mut self, v: &Vec4<N>) {
        self.translation = self.translation.plus(v);
    }

    fn translated(&self, v: &Vec4<N>) -> (r: Self) {
        Iso4 { rotation: self.rotation, translation: self.translation.plus(v) }
    }

    fn set_translation(&mut self, v: Vec4<N>) {
        self.translation = v;
    }
}

impl<N: Scalar> Translate<Vec4<N>> for Iso4<N> {
    open spec fn translate_fits(m: Iso4Model, v: Vec4<int>) -> bool {
        v.sum(m.translation).fits::<N>()
    }

    open spec fn translate_model(m: Iso4Model, v: Vec4<int>) -> Vec4<int> {
        v.sum(m.translation)
    }

    open spec fn inv_translate_fits(m: Iso4Model, v: Vec4<int>) -> bool {
        v.diff(m.translation).fits::<N>()
    }

    open spec fn inv_translate_model(m: Iso4Model, v: Vec4<int>) -> Vec4<int> {
        v.diff(m.translation)
    }

    fn translate(&self, v: &Vec4<N>) -> (r: Vec4<N>) {
        v.plus(&self.translation)
    }

    fn inv_translate(&self, v: &Vec4<N>) -> (r: Vec4<N>) {
        v.minus(&self.translation)
    }
}

impl<N: Scalar> Rotation<Rot4<N>> for Iso4<N> {
    open spec fn rotation_model(m: Iso4Model) -> Mat4<int> {
        m.rotation
    }

    open spec fn inv_rotation_fits(m: Iso4Model) -> bool {
        true
    }

    open spec fn inv_rotation_model(m: Iso4Model) -> Mat4<int> {
        m.rotation.transposed()
    }

    open spec fn rotated_fits(m: Iso4Model, v: Mat4<int>) -> bool {
        Mat4::<int>::apply_fits::<N>(v, m.translation)
    }

    open spec fn rotated_model(m: Iso4Model, v: Mat4<int>) -> Iso4Model {
        Iso4Model { rotation: v.times(m.rotation), translation: v.apply(m.translation) }
    }

    open spec fn set_rotation_model(m: Iso4Model, v: Mat4<int>) -> Iso4Model {
        Iso4Model { rotation: v, translation: m.translation }
    }

    fn rotation(&self) -> (r: Rot4<N>) {
        self.rotation
    }

    fn inv_rotation(&self) -> (r: Rot4<N>) {
        self.rotation.transposed()
    }

    fn rotate_by(&mut self, v: &Rot4<N>) {
        self.translation = v.rmul(&self.translation);
        self.rotation = v.times(&self.rotation);
    }

    fn rotated(&self, v: &Rot4<N>) -> (r: Self) {
        Iso4 { rotation: v.times(&self.rotation), translation: v.rmul(&self.translation) }
    }

    fn set_rotation(&mut self, v: Rot4<N>) {
        self.rotation = v;
    }
}

impl<N: Scalar> Rotate<Vec4<N>> for Iso4<N> {
    open spec fn rotate_fits(m: Iso4Model, v: Vec4<int>) -> bool {
        Mat4::<int>::apply_fits::<N>(m.rotation, v)
    }

    open spec fn rotate_model(m: Iso4Model, v: Vec4<int>) -> Vec4<int> {
        m.rotation.apply(v)
    }

    open spec fn inv_rotate_fits(m: Iso4Model, v: Vec4<int>) -> bool {
        Mat4::<int>::apply_fits::<N>(m.rotation.transposed(), v)
    }

    open spec fn inv_rotate_model(m: Iso4Model, v: Vec4<int>) -> Vec4<int> {
        m.rotation.transposed().apply(v)
    }

    fn rotate(&self, v: &Vec4<N>) -> (r: Vec4<N>) {
        self.rotation.rotate(v)
    }

    fn inv_rotate(&self, v: &Vec4<N>) -> (r: Vec4<N>) {
        self.rotation.inv_rotate(v)
    }
}

impl<N: Scalar> RotationWithTranslation<Vec4<N>, Rot4<N>> for Iso4<N> {
}

impl<N: Scalar> RotationMatrix<Vec4<N>, Rot4<N>, Rot4<N>> for Iso4<N> {
    open spec fn to_rot_mat_model(m: Iso4Model) -> Mat4<int> {
        m.rotation
    }

    fn to_rot_mat(&self) -> (r: Rot4<N>) {
        self.rotation
    }
}

impl<N: Scalar> AbsoluteRotate<Vec4<N>> for Iso4<N> {
    open spec fn absolute_rotate_fits(m: Iso4Model, v: Vec4<int>) -> bool {
        Mat4::<int>::apply_fits::<N>(m.rotation.abs(), v)
    }

    open spec fn absolute_rotate_model(m: Iso4Model, v: Vec4<int>) -> Vec4<int> {
        m.rotation.abs().apply(v)
    }

    fn absolute_rotate(&self, v: &Vec4<N>) -> (r: Vec4<N>) {
        self.rotation.absolute_rotate(v)
    }
}

impl<N: Scalar> Transformation<Iso4<N>> for Iso4<N> {
    open spec fn transformation_model(m: Iso4Model) -> Iso4Model {
        m
    }

    open spec fn inv_transformation_fits(m: Iso4Model) -> bool {
        Iso4Model::inverse_fits::<N>(m)
    }

    open spec fn inv_transformation_model(m: Iso4Model) -> Iso4Model {
        m.inverse()
    }

    open spec fn transformed_fits(m: Iso4Model, v: Iso4Model) -> bool {
        Iso4Model::after_fits::<N>(v, m)
    }

    open spec fn transformed_model(m: Iso4Model, v: Iso4Model) -> Iso4Model {
        v.after(m)
    }

    open spec fn set_transformation_model(m: Iso4Model, v: Iso4Model) -> Iso4Model {
        v
    }

    fn transformation(&self) -> (r: Iso4<N>) {
        *self
    }

    fn inv_transformation(&self) -> (r: Iso4<N>) {
        let back = self.rotation.transposed();
        Iso4 { rotation: back, translation: back.rmul(&self.translation.negated()) }
    }

    fn transform_by(&mut self, v: &Iso4<N>) {
        *self = v.times(&*self);
    }

    fn transformed(&self, v: &Iso4<N>) -> (r: Self) {
        v.times(self)
    }

    fn set_transformation(&mut self, v: Iso4<N>) {
        *self = v;
    }
}

impl<N: Scalar> Transform<Vec4<N>> for Iso4<N> {
    open spec fn transform_fits(m: Iso4Model, v: Vec4<int>) -> bool {
        &&& Mat4::<int>::apply_fits::<N>(m.rotation, v)
        &&& m.apply(v).fits::<N>()
    }

    open spec fn transform_model(m: Iso4Model, v: Vec4<int>) -> Vec4<int> {
        m.apply(v)
    }

    open spec fn inv_transform_fits(m: Iso4Model, v: Vec4<int>) -> bool {
        &&& v.diff(m.translation).fits::<N>()
        &&& Mat4::<int>::apply_fits::<N>(m.rotation.transposed(), v.diff(m.translation))
    }

    open spec fn inv_transform_model(m: Iso4Model, v: Vec4<int>) -> Vec4<int> {
        m.apply_inverse(v)
    }

    fn transform(&self, v: &Vec4<N>) -> (r: Vec4<N>) {
        self.rotation.rotate(v).plus(&self.translation)
    }

    fn inv_transform(&self, v: &Vec4<N>) -> (r: Vec4<N>) {
        self.rotation.inv_rotate(&v.minus(&self.translation))
    }
}

impl<N: Scalar> Inv for Iso4<N> {
    open spec fn inv_fits(m: Iso4Model) -> bool {
        Iso4Model::inverse_fits::<N>(m)
    }

    open spec fn invertible(m: Iso4Model) -> bool {
        true
    }

    open spec fn inverse_model(m: Iso4Model) -> Iso4Model {
        m.inverse()
    }

    fn inverted(&self) -> (r: Option<Self>) {
        Some(self.inv_transformation())
    }

    fn invert(&mut self) -> (ok: bool) {
        *self = self.inv_transformation();
        true
    }
}

/// The translation of a rigid transformation of dimension 4 and its inverse
/// translation add up to zero.
pub proof fn lemma_translation_inverse4<N: Scalar>(m: Iso4Model)
    ensures
        <Iso4<N> as Translation<Vec4<N>>>::translation_model(m).sum(
            <Iso4<N> as Translation<Vec4<N>>>::inv_translation_model(m),
        ) == Vec4::<int>::origin(),
{
}

/// To move a point by the translation of a rigid transformation of dimension
/// 4 and to move it back, in either order, gives the point.
pub proof fn lemma_translate_inverse4<N: Scalar>(m: Iso4Model, p: Vec4<int>)
    ensures
        <Iso4<N> as Translate<Vec4<N>>>::inv_translate_model(
            m,
            <Iso4<N> as Translate<Vec4<N>>>::translate_model(m, p),
        ) == p,
        <Iso4<N> as Translate<Vec4<N>>>::translate_model(
            m,
            <Iso4<N> as Translate<Vec4<N>>>::inv_translate_model(m, p),
        ) == p,
{
}

/// To rotate a rigid transformation of dimension 4 by `amount` about
/// `center` is to compose its rotation with `amount`, and to turn its
/// translation about `center`.
pub proof fn lemma_rotated_wrt_point4<N: Scalar>(m: Iso4Model, amount: Mat4<int>, center: Vec4<int>)
    ensures
        rotated_wrt_point_model::<Iso4<N>, Vec4<N>, Rot4<N>>(m, amount, center)
            == <Iso4<N> as Translation<Vec4<N>>>::translated_model(
            <Iso4<N> as Rotation<Rot4<N>>>::rotated_model(
                <Iso4<N> as Translation<Vec4<N>>>::translated_model(m, center.opposite()),
                amount,
            ),
            center,
        ),
        rotated_wrt_point_model::<Iso4<N>, Vec4<N>, Rot4<N>>(m, amount, center) == (Iso4Model {
            rotation: amount.times(m.rotation),
            translation: amount.apply(m.translation.diff(center)).sum(center),
        }),
        rotated_wrt_point_model::<Iso4<N>, Vec4<N>, Rot4<N>>(m, amount, m.translation).translation
            == m.translation,
{
    assert(m.translation.sum(center.opposite()) == m.translation.diff(center));
    assert(m.translation.diff(m.translation) == Vec4::<int>::origin());
    lemma_apply_linear4(amount, m.translation, m.translation);
}

/// A rigid transformation of dimension 4 and its inverse undo each other on
/// every point, and compose to the identity.
pub proof fn lemma_inverse_iso4(m: Iso4Model, p: Vec4<int>)
    requires
        m.rotation.is_orthogonal(),
    ensures
        m.inverse().apply(p) == m.apply_inverse(p),
        m.inverse().apply(m.apply(p)) == p,
        m.apply(m.inverse().apply(p)) == p,
        m.inverse().after(m) == Iso4Model::identity(),
        m.after(m.inverse()) == Iso4Model::identity(),
        m.inverse().inverse() == m,
{
    let r = m.rotation;
    let t = m.translation;
    let back = r.transposed();
    lemma_apply_linear4(back, p, t);
    lemma_apply_linear4(back, r.apply(p), t);
    lemma_apply_linear4(r, back.apply(p), back.apply(t));
    lemma_apply_linear4(back, t, t);
    lemma_apply_linear4(r, back.apply(t), back.apply(t));
    lemma_orthogonal_undo4(r, p);
    lemma_orthogonal_undo4(r, t);
    lemma_orthogonal_undo4(r, t.opposite());
    assert(back.transposed() == r);
}

/// A composition of rigid transformations of dimension 4 takes a point
/// where its second takes the point to which its first takes it.
pub proof fn lemma_after_apply4(second: Iso4Model, first: Iso4Model, p: Vec4<int>)
    ensures
        second.after(first).apply(p) == second.apply(first.apply(p)),
{
    lemma_apply_times4(second.rotation, first.rotation, p);
    lemma_apply_linear4(second.rotation, first.rotation.apply(p), first.translation);
}

} // verus!
