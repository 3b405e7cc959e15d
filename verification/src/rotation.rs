//! Rotations: orthogonal matrices of dimension two to four.
//!
//! A rotation keeps its matrix to itself, so that every rotation is
//! orthogonal: it is made from the identity, from a quarter turn or from a
//! matrix that is orthogonal, and every operation on rotations gives a
//! rotation. Over a scalar type that stands for integers, the components of
//! an orthogonal matrix are `-1`, `0` and `1`, so that rotations compose
//! without any condition on their components.
use crate::matrix::{Mat2, Mat3, Mat4};
use crate::matrix_laws::{
    lemma_absolute_apply2, lemma_absolute_apply3, lemma_absolute_apply4, lemma_identity_orthogonal2,
    lemma_identity_orthogonal3, lemma_identity_orthogonal4, lemma_orthogonal_apply_fits2,
    lemma_orthogonal_apply_fits3, lemma_orthogonal_apply_fits4, lemma_orthogonal_closed2,
    lemma_orthogonal_closed3, lemma_orthogonal_closed4, lemma_orthogonal_entries2,
    lemma_orthogonal_entries3, lemma_orthogonal_entries4, lemma_orthogonal_undo2,
    lemma_orthogonal_undo3, lemma_orthogonal_undo4, lemma_unit_fits2, lemma_unit_fits3,
    lemma_unit_fits4, lemma_unit_times_fits2, lemma_unit_times_fits3, lemma_unit_times_fits4,
};
use crate::ring::{lemma_comm, lemma_row_mat_col2, lemma_row_mat_col3, lemma_row_mat_col4};
use crate::scalar::{One, Scalar, Zero};
use crate::traits::{
    Absolute, AbsoluteRotate, Dim, FromHomogeneous, Inv, LMul, Mat, RMul, Rotate, Rotation,
    RotationMatrix, ToHomogeneous, Transform, Transpose,
};
use crate::vector::{Vec2, Vec3, Vec4};
use vstd::prelude::*;

verus! {

/// A rotation of the space of dimension 2: an orthogonal matrix.
#[derive(Debug, PartialEq, Eq)]
pub struct Rot2<N: Scalar> {
    submat: Mat2<N>,
}

impl<N: Scalar> Clone for Rot2<N> {
    fn clone(&self) -> (r: Self)
        ensures
            r == *self,
    {
        *self
    }
}

impl<N: Scalar> Copy for Rot2<N> {
}

impl<N: Scalar> View for Rot2<N> {
    type V = Mat2<int>;

    closed spec fn view(&self) -> Mat2<int> {
        self.submat@
    }
}

impl<N: Scalar> Rot2<N> {
    #[verifier::type_invariant]
    spec fn orthogonal(self) -> bool {
        self.submat@.is_orthogonal()
    }

    /// The rotation with the matrix `m`, where `m` is orthogonal.
    pub fn from_mat(m: Mat2<N>) -> (r: Option<Self>)
        ensures
            r.is_some() == m@.is_orthogonal(),
            r matches Some(x) ==> x@ == m@,
    {
        if !m.is_within_unit() {
            proof {
                if m@.is_orthogonal() {
                    lemma_orthogonal_entries2(m@);
                }
            }
            return None;
        }
        proof {
            lemma_unit_fits2::<N>(m@);
            lemma_unit_times_fits2::<N>(m@, m@.transposed());
            lemma_unit_times_fits2::<N>(m@.transposed(), m@);
        }
        let t = m.transposed();
        let id: Mat2<N> = Mat2::one();
        if m.times(&t).same(&id) && t.times(&m).same(&id) {
            Some(Rot2 { submat: m })
        } else {
            None
        }
    }

    /// The rotation with the matrix `m`, which the caller knows to be
    /// orthogonal.
    pub fn from_orthogonal(m: Mat2<N>) -> (r: Self)
        requires
            m@.is_orthogonal(),
        ensures
            r@ == m@,
    {
        Rot2 { submat: m }
    }

    /// The matrix of the rotation.
    pub fn submat(&self) -> (m: Mat2<N>)
        ensures
            m@ == self@,
            m@.is_orthogonal(),
    {
        proof {
            use_type_invariant(self);
        }
        self.submat
    }

    /// The quarter turn that takes the first axis to the second.
    pub fn quarter_turn() -> (r: Self)
        ensures
            r@ == Self::quarter_turn_model(),
    {
        let z = N::zero();
        let u = N::one();
        proof {
            z.lemma_val();
            u.lemma_val();
            N::lemma_range();
        }
        let n = u.neg();
        let m = Mat2 {
            m11: z, m12: n,
            m21: u, m22: z,
        };
        proof {
            assert(m@ == Self::quarter_turn_model());
            Self::lemma_quarter_turn();
        }
        Rot2 { submat: m }
    }

    /// The matrix of `quarter_turn`.
    pub open spec fn quarter_turn_model() -> Mat2<int> {
        Mat2 {
            m11: 0, m12: -1,
            m21: 1, m22: 0,
        }
    }

    /// The matrix of `quarter_turn` is orthogonal.
    pub proof fn lemma_quarter_turn()
        ensures
            Self::quarter_turn_model().is_orthogonal(),
    {
    }

    /// A rotation is determined by its view.
    pub proof fn lemma_view_injective(a: Self, b: Self)
        requires
            a@ == b@,
        ensures
            a == b,
    {
        Mat2::lemma_view_injective(a.submat, b.submat);
    }

    /// The composition of `self` and `o`, which applies `o` first.
    pub fn times(&self, o: &Self) -> (r: Self)
        ensures
            r@ == self@.times(o@),
    {
        proof {
            use_type_invariant(self);
            use_type_invariant(o);
            lemma_orthogonal_entries2(self.submat@);
            lemma_orthogonal_entries2(o.submat@);
            lemma_unit_times_fits2::<N>(self.submat@, o.submat@);
            lemma_orthogonal_closed2(self.submat@, o.submat@);
        }
        Rot2 { submat: self.submat.times(&o.submat) }
    }
}

impl<N: Scalar> Dim for Rot2<N> {
    open spec fn dim_model() -> nat {
        2
    }

    fn dim() -> (r: usize) {
        2
    }
}

impl<N: Scalar> One for Rot2<N> {
    open spec fn is_one(&self) -> bool {
        self@ == Mat2::<int>::identity()
    }

    fn one() -> (r: Self) {
        proof {
            lemma_identity_orthogonal2();
        }
        Rot2 { submat: Mat2::one() }
    }
}

impl<N: Scalar> Transpose for Rot2<N> {
    open spec fn transposed_model(m: Mat2<int>) -> Mat2<int> {
        m.transposed()
    }

    proof fn lemma_transpose_involution(m: Mat2<int>) {
    }

    fn transposed(&self) -> (r: Self) {
        proof {
            use_type_invariant(self);
            lemma_orthogonal_closed2(self.submat@, self.submat@);
        }
        Rot2 { submat: self.submat.transposed() }
    }

    fn transpose(&mut self) {
        proof {
            use_type_invariant(&*self);
            lemma_orthogonal_closed2(self.submat@, self.submat@);
        }
        self.submat = self.submat.transposed();
    }
}

impl<N: Scalar> Inv for Rot2<N> {
    open spec fn inv_fits(m: Mat2<int>) -> bool {
        true
    }

    open spec fn invertible(m: Mat2<int>) -> bool {
        true
    }

    open spec fn inverse_model(m: Mat2<int>) -> Mat2<int> {
        m.transposed()
    }

    fn inverted(&self) -> (r: Option<Self>) {
        Some(self.transposed())
    }

    fn invert(&mut self) -> (ok: bool) {
        self.transpose();
        true
    }
}

impl<N: Scalar> Rotation<Rot2<N>> for Rot2<N> {
    open spec fn rotation_model(m: Mat2<int>) -> Mat2<int> {
        m
    }

    open spec fn inv_rotation_fits(m: Mat2<int>) -> bool {
        true
    }

    open spec fn inv_rotation_model(m: Mat2<int>) -> Mat2<int> {
        m.transposed()
    }

    open spec fn rotated_fits(m: Mat2<int>, v: Mat2<int>) -> bool {
        true
    }

    open spec fn rotated_model(m: Mat2<int>, v: Mat2<int>) -> Mat2<int> {
        v.times(m)
    }

    open spec fn set_rotation_model(m: Mat2<int>, v: Mat2<int>) -> Mat2<int> {
        v
    }

    fn rotation(&self) -> (r: Rot2<N>) {
        *self
    }

    fn inv_rotation(&self) -> (r: Rot2<N>) {
        self.transposed()
    }

    fn rotate_by(&mut self, v: &Rot2<N>) {
        *self = v.times(&*self);
    }

    fn rotated(&self, v: &Rot2<N>) -> (r: Self) {
        v.times(self)
    }

    fn set_rotation(&mut self, v: Rot2<N>) {
        *self = v;
    }
}

impl<N: Scalar> Rotate<Vec2<N>> for Rot2<N> {
    open spec fn rotate_fits(m: Mat2<int>, v: Vec2<int>) -> bool {
        Mat2::<int>::apply_fits::<N>(m, v)
    }

    open spec fn rotate_model(m: Mat2<int>, v: Vec2<int>) -> Vec2<int> {
        m.apply(v)
    }

    open spec fn inv_rotate_fits(m: Mat2<int>, v: Vec2<int>) -> bool {
        Mat2::<int>::apply_fits::<N>(m.transposed(), v)
    }

    open spec fn inv_rotate_model(m: Mat2<int>, v: Vec2<int>) -> Vec2<int> {
        m.transposed().apply(v)
    }

    fn rotate(&self, v: &Vec2<N>) -> (r: Vec2<N>) {
        self.submat.rmul(v)
    }

    fn inv_rotate(&self, v: &Vec2<N>) -> (r: Vec2<N>) {
        self.submat.transposed().rmul(v)
    }
}

impl<N: Scalar> Transform<Vec2<N>> for Rot2<N> {
    open spec fn transform_fits(m: Mat2<int>, v: Vec2<int>) -> bool {
        Mat2::<int>::apply_fits::<N>(m, v)
    }

    open spec fn transform_model(m: Mat2<int>, v: Vec2<int>) -> Vec2<int> {
        m.apply(v)
    }

    open spec fn inv_transform_fits(m: Mat2<int>, v: Vec2<int>) -> bool {
        Mat2::<int>::apply_fits::<N>(m.transposed(), v)
    }

    open spec fn inv_transform_model(m: Mat2<int>, v: Vec2<int>) -> Vec2<int> {
        m.transposed().apply(v)
    }

    fn transform(&self, v: &Vec2<N>) -> (r: Vec2<N>) {
        self.submat.rmul(v)
    }

    fn inv_transform(&self, v: &Vec2<N>) -> (r: Vec2<N>) {
        self.submat.transposed().rmul(v)
    }
}

impl<N: Scalar> RMul<Vec2<N>> for Rot2<N> {
    open spec fn rmul_fits(m: Mat2<int>, v: Vec2<int>) -> bool {
        Mat2::<int>::apply_fits::<N>(m, v)
    }

    open spec fn rmul_model(m: Mat2<int>, v: Vec2<int>) -> Vec2<int> {
        m.apply(v)
    }

    fn rmul(&self, v: &Vec2<N>) -> (r: Vec2<N>) {
        self.submat.rmul(v)
    }
}

impl<N: Scalar> LMul<Vec2<N>> for Rot2<N> {
    open spec fn lmul_fits(m: Mat2<int>, v: Vec2<int>) -> bool {
        Mat2::<int>::apply_left_fits::<N>(m, v)
    }

    open spec fn lmul_model(m: Mat2<int>, v: Vec2<int>) -> Vec2<int> {
        m.apply_left(v)
    }

    fn lmul(&self, v: &Vec2<N>) -> (r: Vec2<N>) {
        self.submat.lmul(v)
    }
}

impl<N: Scalar> Mat<Vec2<N>, Vec2<N>> for Rot2<N> {
}

impl<N: Scalar> RotationMatrix<Vec2<N>, Rot2<N>, Rot2<N>> for Rot2<N> {
    open spec fn to_rot_mat_model(m: Mat2<int>) -> Mat2<int> {
        m
    }

    fn to_rot_mat(&self) -> (r: Rot2<N>) {
        *self
    }
}

impl<N: Scalar> AbsoluteRotate<Vec2<N>> for Rot2<N> {
    open spec fn absolute_rotate_fits(m: Mat2<int>, v: Vec2<int>) -> bool {
        Mat2::<int>::apply_fits::<N>(m.abs(), v)
    }

    open spec fn absolute_rotate_model(m: Mat2<int>, v: Vec2<int>) -> Vec2<int> {
        m.abs().apply(v)
    }

    fn absolute_rotate(&self, v: &Vec2<N>) -> (r: Vec2<N>) {
        let a: Mat2<N> = self.absolute();
        a.rmul(v)
    }
}

impl<N: Scalar> Absolute<Mat2<N>> for Rot2<N> {
    open spec fn absolute_fits(m: Mat2<int>) -> bool {
        true
    }

    open spec fn absolute_model(m: Mat2<int>) -> Mat2<int> {
        m.abs()
    }

    fn absolute(&self) -> (r: Mat2<N>) {
        proof {
            use_type_invariant(self);
            lemma_orthogonal_entries2(self.submat@);
            lemma_unit_fits2::<N>(self.submat@);
            lemma_unit_fits2::<N>(self.submat@.abs());
        }
        self.submat.absolute()
    }
}

impl<N: Scalar> ToHomogeneous<Mat3<N>> for Rot2<N> {
    open spec fn to_homogeneous_model(m: Mat2<int>) -> Mat3<int> {
        m.lifted()
    }

    fn to_homogeneous(&self) -> (r: Mat3<N>) {
        self.submat.to_homogeneous()
    }
}

impl<N: Scalar> FromHomogeneous<Mat3<N>> for Rot2<N> {
    open spec fn from_fits(m: Mat3<int>) -> bool {
        m.lowered().is_orthogonal()
    }

    open spec fn from_model(m: Mat3<int>) -> Mat2<int> {
        m.lowered()
    }

    fn from(m: &Mat3<N>) -> (r: Self) {
        let block: Mat2<N> = FromHomogeneous::from(m);
        Rot2 { submat: block }
    }
}

/// The inverse rotation of a rotation of dimension 2 is its transpose, and
/// is its inverse: to rotate a vector by one and then by the other gives
/// the vector back.
pub proof fn lemma_inv_rotation2<N: Scalar>(r: Mat2<int>, v: Vec2<int>)
    requires
        r.is_orthogonal(),
    ensures
        <Rot2<N> as Rotation<Rot2<N>>>::inv_rotation_model(r)
            == <Rot2<N> as Transpose>::transposed_model(r),
        <Rot2<N> as Rotation<Rot2<N>>>::inv_rotation_model(r) == <Rot2<N> as Inv>::inverse_model(r),
        <Rot2<N> as Rotate<Vec2<N>>>::rotate_model(
            r,
            <Rot2<N> as Rotate<Vec2<N>>>::rotate_model(
                <Rot2<N> as Rotation<Rot2<N>>>::inv_rotation_model(r),
                v,
            ),
        ) == v,
        <Rot2<N> as Rotate<Vec2<N>>>::rotate_model(
            <Rot2<N> as Rotation<Rot2<N>>>::inv_rotation_model(r),
            <Rot2<N> as Rotate<Vec2<N>>>::rotate_model(r, v),
        ) == v,
        <Rot2<N> as Rotate<Vec2<N>>>::inv_rotate_model(r,
            <Rot2<N> as Rotate<Vec2<N>>>::rotate_model(r, v)) == v,
{
    lemma_orthogonal_undo2(r, v);
}

/// A rotation of dimension 2 can rotate, rotate back and rotate by its
/// absolute value every vector that is representable together with its
/// inverse, and what it makes of the vector is representable.
pub proof fn lemma_rotate_fits2<N: Scalar>(r: Mat2<int>, v: Vec2<int>)
    requires
        r.is_orthogonal(),
        v.fits::<N>(),
        v.opposite().fits::<N>(),
    ensures
        <Rot2<N> as Rotate<Vec2<N>>>::rotate_fits(r, v),
        <Rot2<N> as Rotate<Vec2<N>>>::inv_rotate_fits(r, v),
        <Rot2<N> as AbsoluteRotate<Vec2<N>>>::absolute_rotate_fits(r, v),
        <Rot2<N> as Rotate<Vec2<N>>>::rotate_model(r, v).fits::<N>(),
        <Rot2<N> as Rotate<Vec2<N>>>::inv_rotate_model(r, v).fits::<N>(),
{
    lemma_orthogonal_apply_fits2::<N>(r, v);
}

/// What a rotation of dimension 2 makes of a vector is bounded, component by
/// component, by what its absolute value makes of the absolute value of the
/// vector.
pub proof fn lemma_absolute_rotate2<N: Scalar>(r: Mat2<int>, v: Vec2<int>)
    ensures
        <Rot2<N> as Rotate<Vec2<N>>>::rotate_model(r, v).abs().x
            <= <Rot2<N> as AbsoluteRotate<Vec2<N>>>::absolute_rotate_model(r, v.abs()).x,
        <Rot2<N> as Rotate<Vec2<N>>>::rotate_model(r, v).abs().y
            <= <Rot2<N> as AbsoluteRotate<Vec2<N>>>::absolute_rotate_model(r, v.abs()).y,
{
    lemma_absolute_apply2(r, v);
}

/// A rotation of dimension 2 keeps inner products, and so norms.
pub proof fn lemma_rotation_keeps_dot2(r: Mat2<int>, v: Vec2<int>, w: Vec2<int>)
    requires
        r.is_orthogonal(),
    ensures
        r.apply(v).dot(r.apply(w)) == v.dot(w),
{
    let t = r.transposed();
    lemma_dot_apply2(r, v, r.apply(w));
    lemma_orthogonal_undo2(r, w);
}

/// The inner product of `m * v` and `w` is that of `v` and the transpose of
/// `m` times `w`.
pub proof fn lemma_dot_apply2(m: Mat2<int>, v: Vec2<int>, w: Vec2<int>)
    ensures
        m.apply(v).dot(w) == v.dot(m.transposed().apply(w)),
{
    lemma_row_mat_col2(
        w.x, w.y,
        m.m11, m.m12,
        m.m21, m.m22,
        v.x, v.y,
    );
    lemma_comm(m.row1().dot(v), w.x);
    lemma_comm(m.row2().dot(v), w.y);
    lemma_comm(v.x, m.transposed().row1().dot(w));
    lemma_comm(v.y, m.transposed().row2().dot(w));
    lemma_comm(m.m11, v.x);
    lemma_comm(m.m11, w.x);
    lemma_comm(m.m12, v.y);
    lemma_comm(m.m12, w.x);
    lemma_comm(m.m21, v.x);
    lemma_comm(m.m21, w.y);
    lemma_comm(m.m22, v.y);
    lemma_comm(m.m22, w.y);
}

/// A rotation of the space of dimension 3: an orthogonal matrix.
#[derive(Debug, PartialEq, Eq)]
pub struct Rot3<N: Scalar> {
    submat: Mat3<N>,
}

impl<N: Scalar> Clone for Rot3<N> {
    fn clone(&self) -> (r: Self)
        ensures
            r == *self,
    {
        *self
    }
}

impl<N: Scalar> Copy for Rot3<N> {
}

impl<N: Scalar> View for Rot3<N> {
    type V = Mat3<int>;

    closed spec fn view(&self) -> Mat3<int> {
        self.submat@
    }
}

impl<N: Scalar> Rot3<N> {
    #[verifier::type_invariant]
    spec fn orthogonal(self) -> bool {
        self.submat@.is_orthogonal()
    }

    /// The rotation with the matrix `m`, where `m` is orthogonal.
    pub fn from_mat(m: Mat3<N>) -> (r: Option<Self>)
        ensures
            r.is_some() == m@.is_orthogonal(),
            r matches Some(x) ==> x@ == m@,
    {
        if !m.is_within_unit() {
            proof {
                if m@.is_orthogonal() {
                    lemma_orthogonal_entries3(m@);
                }
            }
            return None;
        }
        proof {
            lemma_unit_fits3::<N>(m@);
            lemma_unit_times_fits3::<N>(m@, m@.transposed());
            lemma_unit_times_fits3::<N>(m@.transposed(), m@);
        }
        let t = m.transposed();
        let id: Mat3<N> = Mat3::one();
        if m.times(&t).same(&id) && t.times(&m).same(&id) {
            Some(Rot3 { submat: m })
        } else {
            None
        }
    }

    /// The rotation with the matrix `m`, which the caller knows to be
    /// orthogonal.
    pub fn from_orthogonal(m: Mat3<N>) -> (r: Self)
        requires
            m@.is_orthogonal(),
        ensures
            r@ == m@,
    {
        Rot3 { submat: m }
    }

    /// The matrix of the rotation.
    pub fn submat(&self) -> (m: Mat3<N>)
        ensures
            m@ == self@,
            m@.is_orthogonal(),
    {
        proof {
            use_type_invariant(self);
        }
        self.submat
    }

    /// The quarter turn about the first axis, which takes the second axis to
    /// the third.
    pub fn quarter_turn_x() -> (r: Self)
        ensures
            r@ == Self::quarter_turn_x_model(),
    {
        let z = N::zero();
        let u = N::one();
        proof {
            z.lemma_val();
            u.lemma_val();
            N::lemma_range();
        }
        let n = u.neg();
        let m = Mat3 {
            m11: u, m12: z, m13: z,
            m21: z, m22: z, m23: n,
            m31: z, m32: u, m33: z,
        };
        proof {
            assert(m@ == Self::quarter_turn_x_model());
            Self::lemma_quarter_turn_x();
        }
        Rot3 { submat: m }
    }

    /// The matrix of `quarter_turn_x`.
    pub open spec fn quarter_turn_x_model() -> Mat3<int> {
        Mat3 {
            m11: 1, m12: 0, m13: 0,
            m21: 0, m22: 0, m23: -1,
            m31: 0, m32: 1, m33: 0,
        }
    }

    /// The matrix of `quarter_turn_x` is orthogonal.
    pub proof fn lemma_quarter_turn_x()
        ensures
            Self::quarter_turn_x_model().is_orthogonal(),
    {
    }

    /// The quarter turn about the second axis, which takes the third axis to
    /// the first.
    pub fn quarter_turn_y() -> (r: Self)
        ensures
            r@ == Self::quarter_turn_y_model(),
    {
        let z = N::zero();
        let u = N::one();
        proof {
            z.lemma_val();
            u.lemma_val();
            N::lemma_range();
        }
        let n = u.neg();
        let m = Mat3 {
            m11: z, m12: z, m13: u,
            m21: z, m22: u, m23: z,
            m31: n, m32: z, m33: z,
        };
        proof {
            assert(m@ == Self::quarter_turn_y_model());
            Self::lemma_quarter_turn_y();
        }
        Rot3 { submat: m }
    }

    /// The matrix of `quarter_turn_y`.
    pub open spec fn quarter_turn_y_model() -> Mat3<int> {
        Mat3 {
            m11: 0, m12: 0, m13: 1,
            m21: 0, m22: 1, m23: 0,
            m31: -1, m32: 0, m33: 0,
        }
    }

    /// The matrix of `quarter_turn_y` is orthogonal.
    pub proof fn lemma_quarter_turn_y()
        ensures
            Self::quarter_turn_y_model().is_orthogonal(),
    {
    }

    /// The quarter turn about the third axis, which takes the first axis to
    /// the second.
    pub fn quarter_turn_z() -> (r: Self)
        ensures
            r@ == Self::quarter_turn_z_model(),
    {
        let z = N::zero();
        let u = N::one();
        proof {
            z.lemma_val();
            u.lemma_val();
            N::lemma_range();
        }
        let n = u.neg();
        let m = Mat3 {
            m11: z, m12: n, m13: z,
            m21: u, m22: z, m23: z,
            m31: z, m32: z, m33: u,
        };
        proof {
            assert(m@ == Self::quarter_turn_z_model());
            Self::lemma_quarter_turn_z();
        }
        Rot3 { submat: m }
    }

    /// The matrix of `quarter_turn_z`.
    pub open spec fn quarter_turn_z_model() -> Mat3<int> {
        Mat3 {
            m11: 0, m12: -1, m13: 0,
            m21: 1, m22: 0, m23: 0,
            m31: 0, m32: 0, m33: 1,
        }
    }

    /// The matrix of `quarter_turn_z` is orthogonal.
    pub proof fn lemma_quarter_turn_z()
        ensures
            Self::quarter_turn_z_model().is_orthogonal(),
    {
    }

    /// A rotation is determined by its view.
    pub proof fn lemma_view_injective(a: Self, b: Self)
        requires
            a@ == b@,
        ensures
            a == b,
    {
        Mat3::lemma_view_injective(a.submat, b.submat);
    }

    /// The composition of `self` and `o`, which applies `o` first.
    pub fn times(&self, o: &Self) -> (r: Self)
        ensures
            r@ == self@.times(o@),
    {
        proof {
            use_type_invariant(self);
            use_type_invariant(o);
            lemma_orthogonal_entries3(self.submat@);
            lemma_orthogonal_entries3(o.submat@);
            lemma_unit_times_fits3::<N>(self.submat@, o.submat@);
            lemma_orthogonal_closed3(self.submat@, o.submat@);
        }
        Rot3 { submat: self.submat.times(&o.submat) }
    }
}

impl<N: Scalar> Dim for Rot3<N> {
    open spec fn dim_model() -> nat {
        3
    }

    fn dim() -> (r: usize) {
        3
    }
}

impl<N: Scalar> One for Rot3<N> {
    open spec fn is_one(&self) -> bool {
        self@ == Mat3::<int>::identity()
    }

    fn one() -> (r: Self) {
        proof {
            lemma_identity_orthogonal3();
        }
        Rot3 { submat: Mat3::one() }
    }
}

impl<N: Scalar> Transpose for Rot3<N> {
    open spec fn transposed_model(m: Mat3<int>) -> Mat3<int> {
        m.transposed()
    }

    proof fn lemma_transpose_involution(m: Mat3<int>) {
    }

    fn transposed(&self) -> (r: Self) {
        proof {
            use_type_invariant(self);
            lemma_orthogonal_closed3(self.submat@, self.submat@);
        }
        Rot3 { submat: self.submat.transposed() }
    }

    fn transpose(&mut self) {
        proof {
            use_type_invariant(&*self);
            lemma_orthogonal_closed3(self.submat@, self.submat@);
        }
        self.submat = self.submat.transposed();
    }
}

impl<N: Scalar> Inv for Rot3<N> {
    open spec fn inv_fits(m: Mat3<int>) -> bool {
        true
    }

    open spec fn invertible(m: Mat3<int>) -> bool {
        true
    }

    open spec fn inverse_model(m: Mat3<int>) -> Mat3<int> {
        m.transposed()
    }

    fn inverted(&self) -> (r: Option<Self>) {
        Some(self.transposed())
    }

    fn invert(&mut self) -> (ok: bool) {
        self.transpose();
        true
    }
}

impl<N: Scalar> Rotation<Rot3<N>> for Rot3<N> {
    open spec fn rotation_model(m: Mat3<int>) -> Mat3<int> {
        m
    }

    open spec fn inv_rotation_fits(m: Mat3<int>) -> bool {
        true
    }

    open spec fn inv_rotation_model(m: Mat3<int>) -> Mat3<int> {
        m.transposed()
    }

    open spec fn rotated_fits(m: Mat3<int>, v: Mat3<int>) -> bool {
        true
    }

    open spec fn rotated_model(m: Mat3<int>, v: Mat3<int>) -> Mat3<int> {
        v.times(m)
    }

    open spec fn set_rotation_model(m: Mat3<int>, v: Mat3<int>) -> Mat3<int> {
        v
    }

    fn rotation(&self) -> (r: Rot3<N>) {
        *self
    }

    fn inv_rotation(&self) -> (r: Rot3<N>) {
        self.transposed()
    }

    fn rotate_by(&mut self, v: &Rot3<N>) {
        *self = v.times(&*self);
    }

    fn rotated(&self, v: &Rot3<N>) -> (r: Self) {
        v.times(self)
    }

    fn set_rotation(&mut self, v: Rot3<N>) {
        *self = v;
    }
}

impl<N: Scalar> Rotate<Vec3<N>> for Rot3<N> {
    open spec fn rotate_fits(m: Mat3<int>, v: Vec3<int>) -> bool {
        Mat3::<int>::apply_fits::<N>(m, v)
    }

    open spec fn rotate_model(m: Mat3<int>, v: Vec3<int>) -> Vec3<int> {
        m.apply(v)
    }

    open spec fn inv_rotate_fits(m: Mat3<int>, v: Vec3<int>) -> bool {
        Mat3::<int>::apply_fits::<N>(m.transposed(), v)
    }

    open spec fn inv_rotate_model(m: Mat3<int>, v: Vec3<int>) -> Vec3<int> {
        m.transposed().apply(v)
    }

    fn rotate(&self, v: &Vec3<N>) -> (r: Vec3<N>) {
        self.submat.rmul(v)
    }

    fn inv_rotate(&self, v: &Vec3<N>) -> (r: Vec3<N>) {
        self.submat.transposed().rmul(v)
    }
}

impl<N: Scalar> Transform<Vec3<N>> for Rot3<N> {
    open spec fn transform_fits(m: Mat3<int>, v: Vec3<int>) -> bool {
        Mat3::<int>::apply_fits::<N>(m, v)
    }

    open spec fn transform_model(m: Mat3<int>, v: Vec3<int>) -> Vec3<int> {
        m.apply(v)
    }

    open spec fn inv_transform_fits(m: Mat3<int>, v: Vec3<int>) -> bool {
        Mat3::<int>::apply_fits::<N>(m.transposed(), v)
    }

    open spec fn inv_transform_model(m: Mat3<int>, v: Vec3<int>) -> Vec3<int> {
        m.transposed().apply(v)
    }

    fn transform(&self, v: &Vec3<N>) -> (r: Vec3<N>) {
        self.submat.rmul(v)
    }

    fn inv_transform(&self, v: &Vec3<N>) -> (r: Vec3<N>) {
        self.submat.transposed().rmul(v)
    }
}

impl<N: Scalar> RMul<Vec3<N>> for Rot3<N> {
    open spec fn rmul_fits(m: Mat3<int>, v: Vec3<int>) -> bool {
        Mat3::<int>::apply_fits::<N>(m, v)
    }

    open spec fn rmul_model(m: Mat3<int>, v: Vec3<int>) -> Vec3<int> {
        m.apply(v)
    }

    fn rmul(&self, v: &Vec3<N>) -> (r: Vec3<N>) {
        self.submat.rmul(v)
    }
}

impl<N: Scalar> LMul<Vec3<N>> for Rot3<N> {
    open spec fn lmul_fits(m: Mat3<int>, v: Vec3<int>) -> bool {
        Mat3::<int>::apply_left_fits::<N>(m, v)
    }

    open spec fn lmul_model(m: Mat3<int>, v: Vec3<int>) -> Vec3<int> {
        m.apply_left(v)
    }

    fn lmul(&self, v: &Vec3<N>) -> (r: Vec3<N>) {
        self.submat.lmul(v)
    }
}

impl<N: Scalar> Mat<Vec3<N>, Vec3<N>> for Rot3<N> {
}

impl<N: Scalar> RotationMatrix<Vec3<N>, Rot3<N>, Rot3<N>> for Rot3<N> {
    open spec fn to_rot_mat_model(m: Mat3<int>) -> Mat3<int> {
        m
    }

    fn to_rot_mat(&self) -> (r: Rot3<N>) {
        *self
    }
}

impl<N: Scalar> AbsoluteRotate<Vec3<N>> for Rot3<N> {
    open spec fn absolute_rotate_fits(m: Mat3<int>, v: Vec3<int>) -> bool {
        Mat3::<int>::apply_fits::<N>(m.abs(), v)
    }

    open spec fn absolute_rotate_model(m: Mat3<int>, v: Vec3<int>) -> Vec3<int> {
        m.abs().apply(v)
    }

    fn absolute_rotate(&self, v: &Vec3<N>) -> (r: Vec3<N>) {
        let a: Mat3<N> = self.absolute();
        a.rmul(v)
    }
}

impl<N: Scalar> Absolute<Mat3<N>> for Rot3<N> {
    open spec fn absolute_fits(m: Mat3<int>) -> bool {
        true
    }

    open spec fn absolute_model(m: Mat3<int>) -> Mat3<int> {
        m.abs()
    }

    fn absolute(&self) -> (r: Mat3<N>) {
        proof {
            use_type_invariant(self);
            lemma_orthogonal_entries3(self.submat@);
            lemma_unit_fits3::<N>(self.submat@);
            lemma_unit_fits3::<N>(self.submat@.abs());
        }
        self.submat.absolute()
    }
}

impl<N: Scalar> ToHomogeneous<Mat4<N>> for Rot3<N> {
    open spec fn to_homogeneous_model(m: Mat3<int>) -> Mat4<int> {
        m.lifted()
    }

    fn to_homogeneous(&self) -> (r: Mat4<N>) {
        self.submat.to_homogeneous()
    }
}

impl<N: Scalar> FromHomogeneous<Mat4<N>> for Rot3<N> {
    open spec fn from_fits(m: Mat4<int>) -> bool {
        m.lowered().is_orthogonal()
    }

    open spec fn from_model(m: Mat4<int>) -> Mat3<int> {
        m.lowered()
    }

    fn from(m: &Mat4<N>) -> (r: Self) {
        let block: Mat3<N> = FromHomogeneous::from(m);
        Rot3 { submat: block }
    }
}

/// The inverse rotation of a rotation of dimension 3 is its transpose, and
/// is its inverse: to rotate a vector by one and then by the other gives
/// the vector back.
pub proof fn lemma_inv_rotation3<N: Scalar>(r: Mat3<int>, v: Vec3<int>)
    requires
        r.is_orthogonal(),
    ensures
        <Rot3<N> as Rotation<Rot3<N>>>::inv_rotation_model(r)
            == <Rot3<N> as Transpose>::transposed_model(r),
        <Rot3<N> as Rotation<Rot3<N>>>::inv_rotation_model(r) == <Rot3<N> as Inv>::inverse_model(r),
        <Rot3<N> as Rotate<Vec3<N>>>::rotate_model(
            r,
            <Rot3<N> as Rotate<Vec3<N>>>::rotate_model(
                <Rot3<N> as Rotation<Rot3<N>>>::inv_rotation_model(r),
                v,
            ),
        ) == v,
        <Rot3<N> as Rotate<Vec3<N>>>::rotate_model(
            <Rot3<N> as Rotation<Rot3<N>>>::inv_rotation_model(r),
            <Rot3<N> as Rotate<Vec3<N>>>::rotate_model(r, v),
        ) == v,
        <Rot3<N> as Rotate<Vec3<N>>>::inv_rotate_model(r,
            <Rot3<N> as Rotate<Vec3<N>>>::rotate_model(r, v)) == v,
{
    lemma_orthogonal_undo3(r, v);
}

/// A rotation of dimension 3 can rotate, rotate back and rotate by its
/// absolute value every vector that is representable together with its
/// inverse, and what it makes of the vector is representable.
pub proof fn lemma_rotate_fits3<N: Scalar>(r: Mat3<int>, v: Vec3<int>)
    requires
        r.is_orthogonal(),
        v.fits::<N>(),
        v.opposite().fits::<N>(),
    ensures
        <Rot3<N> as Rotate<Vec3<N>>>::rotate_fits(r, v),
        <Rot3<N> as Rotate<Vec3<N>>>::inv_rotate_fits(r, v),
        <Rot3<N> as AbsoluteRotate<Vec3<N>>>::absolute_rotate_fits(r, v),
        <Rot3<N> as Rotate<Vec3<N>>>::rotate_model(r, v).fits::<N>(),
        <Rot3<N> as Rotate<Vec3<N>>>::inv_rotate_model(r, v).fits::<N>(),
{
    lemma_orthogonal_apply_fits3::<N>(r, v);
}

/// What a rotation of dimension 3 makes of a vector is bounded, component by
/// component, by what its absolute value makes of the absolute value of the
/// vector.
pub proof fn lemma_absolute_rotate3<N: Scalar>(r: Mat3<int>, v: Vec3<int>)
    ensures
        <Rot3<N> as Rotate<Vec3<N>>>::rotate_model(r, v).abs().x
            <= <Rot3<N> as AbsoluteRotate<Vec3<N>>>::absolute_rotate_model(r, v.abs()).x,
        <Rot3<N> as Rotate<Vec3<N>>>::rotate_model(r, v).abs().y
            <= <Rot3<N> as AbsoluteRotate<Vec3<N>>>::absolute_rotate_model(r, v.abs()).y,
        <Rot3<N> as Rotate<Vec3<N>>>::rotate_model(r, v).abs().z
            <= <Rot3<N> as AbsoluteRotate<Vec3<N>>>::absolute_rotate_model(r, v.abs()).z,
{
    lemma_absolute_apply3(r, v);
}

/// A rotation of dimension 3 keeps inner products, and so norms.
pub proof fn lemma_rotation_keeps_dot3(r: Mat3<int>, v: Vec3<int>, w: Vec3<int>)
    requires
        r.is_orthogonal(),
    ensures
        r.apply(v).dot(r.apply(w)) == v.dot(w),
{
    let t = r.transposed();
    lemma_dot_apply3(r, v, r.apply(w));
    lemma_orthogonal_undo3(r, w);
}

/// The inner product of `m * v` and `w` is that of `v` and the transpose of
/// `m` times `w`.
pub proof fn lemma_dot_apply3(m: Mat3<int>, v: Vec3<int>, w: Vec3<int>)
    ensures
        m.apply(v).dot(w) == v.dot(m.transposed().apply(w)),
{
    lemma_row_mat_col3(
        w.x, w.y, w.z,
        m.m11, m.m12, m.m13,
        m.m21, m.m22, m.m23,
        m.m31, m.m32, m.m33,
        v.x, v.y, v.z,
    );
    lemma_comm(m.row1().dot(v), w.x);
    lemma_comm(m.row2().dot(v), w.y);
    lemma_comm(m.row3().dot(v), w.z);
    lemma_comm(v.x, m.transposed().row1().dot(w));
    lemma_comm(v.y, m.transposed().row2().dot(w));
    lemma_comm(v.z, m.transposed().row3().dot(w));
    lemma_comm(m.m11, v.x);
    lemma_comm(m.m11, w.x);
    lemma_comm(m.m12, v.y);
    lemma_comm(m.m12, w.x);
    lemma_comm(m.m13, v.z);
    lemma_comm(m.m13, w.x);
    lemma_comm(m.m21, v.x);
    lemma_comm(m.m21, w.y);
    lemma_comm(m.m22, v.y);
    lemma_comm(m.m22, w.y);
    lemma_comm(m.m23, v.z);
    lemma_comm(m.m23, w.y);
    lemma_comm(m.m31, v.x);
    lemma_comm(m.m31, w.z);
    lemma_comm(m.m32, v.y);
    lemma_comm(m.m32, w.z);
    lemma_comm(m.m33, v.z);
    lemma_comm(m.m33, w.z);
}

/// A rotation of the space of dimension 4: an orthogonal matrix.
#[derive(Debug, PartialEq, Eq)]
pub struct Rot4<N: Scalar> {
    submat: Mat4<N>,
}

impl<N: Scalar> Clone for Rot4<N> {
    fn clone(&self) -> (r: Self)
        ensures
            r == *self,
    {
        *self
    }
}

impl<N: Scalar> Copy for Rot4<N> {
}

impl<N: Scalar> View for Rot4<N> {
    type V = Mat4<int>;

    closed spec fn view(&self) -> Mat4<int> {
        self.submat@
    }
}

impl<N: Scalar> Rot4<N> {
    #[verifier::type_invariant]
    spec fn orthogonal(self) -> bool {
        self.submat@.is_orthogonal()
    }

    /// The rotation with the matrix `m`, where `m` is orthogonal.
    pub fn from_mat(m: Mat4<N>) -> (r: Option<Self>)
        ensures
            r.is_some() == m@.is_orthogonal(),
            r matches Some(x) ==> x@ == m@,
    {
        if !m.is_within_unit() {
            proof {
                if m@.is_orthogonal() {
                    lemma_orthogonal_entries4(m@);
                }
            }
            return None;
        }
        proof {
            lemma_unit_fits4::<N>(m@);
            lemma_unit_times_fits4::<N>(m@, m@.transposed());
            lemma_unit_times_fits4::<N>(m@.transposed(), m@);
        }
        let t = m.transposed();
        let id: Mat4<N> = Mat4::one();
        if m.times(&t).same(&id) && t.times(&m).same(&id) {
            Some(Rot4 { submat: m })
        } else {
            None
        }
    }

    /// The rotation with the matrix `m`, which the caller knows to be
    /// orthogonal.
    pub fn from_orthogonal(m: Mat4<N>) -> (r: Self)
        requires
            m@.is_orthogonal(),
        ensures
            r@ == m@,
    {
        Rot4 { submat: m }
    }

    /// The matrix of the rotation.
    pub fn submat(&self) -> (m: Mat4<N>)
        ensures
            m@ == self@,
            m@.is_orthogonal(),
    {
        proof {
            use_type_invariant(self);
        }
        self.submat
    }

    /// A rotation is determined by its view.
    pub proof fn lemma_view_injective(a: Self, b: Self)
        requires
            a@ == b@,
        ensures
            a == b,
    {
        Mat4::lemma_view_injective(a.submat, b.submat);
    }

    /// The composition of `self` and `o`, which applies `o` first.
    pub fn times(&self, o: &Self) -> (r: Self)
        ensures
            r@ == self@.times(o@),
    {
        proof {
            use_type_invariant(self);
            use_type_invariant(o);
            lemma_orthogonal_entries4(self.submat@);
            lemma_orthogonal_entries4(o.submat@);
            lemma_unit_times_fits4::<N>(self.submat@, o.submat@);
            lemma_orthogonal_closed4(self.submat@, o.submat@);
        }
        Rot4 { submat: self.submat.times(&o.submat) }
    }
}

impl<N: Scalar> Dim for Rot4<N> {
    open spec fn dim_model() -> nat {
        4
    }

    fn dim() -> (r: usize) {
        4
    }
}

impl<N: Scalar> One for Rot4<N> {
    open spec fn is_one(&self) -> bool {
        self@ == Mat4::<int>::identity()
    }

    fn one() -> (r: Self) {
        proof {
            lemma_identity_orthogonal4();
        }
        Rot4 { submat: Mat4::one() }
    }
}

impl<N: Scalar> Transpose for Rot4<N> {
    open spec fn transposed_model(m: Mat4<int>) -> Mat4<int> {
        m.transposed()
    }

    proof fn lemma_transpose_involution(m: Mat4<int>) {
    }

    fn transposed(&self) -> (r: Self) {
        proof {
            use_type_invariant(self);
            lemma_orthogonal_closed4(self.submat@, self.submat@);
        }
        Rot4 { submat: self.submat.transposed() }
    }

    fn transpose(&mut self) {
        proof {
            use_type_invariant(&*self);
            lemma_orthogonal_closed4(self.submat@, self.submat@);
        }
        self.submat = self.submat.transposed();
    }
}

impl<N: Scalar> Inv for Rot4<N> {
    open spec fn inv_fits(m: Mat4<int>) -> bool {
        true
    }

    open spec fn invertible(m: Mat4<int>) -> bool {
        true
    }

    open spec fn inverse_model(m: Mat4<int>) -> Mat4<int> {
        m.transposed()
    }

    fn inverted(&self) -> (r: Option<Self>) {
        Some(self.transposed())
    }

    fn invert(&mut self) -> (ok: bool) {
        self.transpose();
        true
    }
}

impl<N: Scalar> Rotation<Rot4<N>> for Rot4<N> {
    open spec fn rotation_model(m: Mat4<int>) -> Mat4<int> {
        m
    }

    open spec fn inv_rotation_fits(m: Mat4<int>) -> bool {
        true
    }

    open spec fn inv_rotation_model(m: Mat4<int>) -> Mat4<int> {
        m.transposed()
    }

    open spec fn rotated_fits(m: Mat4<int>, v: Mat4<int>) -> bool {
        true
    }

    open spec fn rotated_model(m: Mat4<int>, v: Mat4<int>) -> Mat4<int> {
        v.times(m)
    }

    open spec fn set_rotation_model(m: Mat4<int>, v: Mat4<int>) -> Mat4<int> {
        v
    }

    fn rotation(&self) -> (r: Rot4<N>) {
        *self
    }

    fn inv_rotation(&self) -> (r: Rot4<N>) {
        self.transposed()
    }

    fn rotate_by(&mut self, v: &Rot4<N>) {
        *self = v.times(&*self);
    }

    fn rotated(&self, v: &Rot4<N>) -> (r: Self) {
        v.times(self)
    }

    fn set_rotation(&mut self, v: Rot4<N>) {
        *self = v;
    }
}

impl<N: Scalar> Rotate<Vec4<N>> for Rot4<N> {
    open spec fn rotate_fits(m: Mat4<int>, v: Vec4<int>) -> bool {
        Mat4::<int>::apply_fits::<N>(m, v)
    }

    open spec fn rotate_model(m: Mat4<int>, v: Vec4<int>) -> Vec4<int> {
        m.apply(v)
    }

    open spec fn inv_rotate_fits(m: Mat4<int>, v: Vec4<int>) -> bool {
        Mat4::<int>::apply_fits::<N>(m.transposed(), v)
    }

    open spec fn inv_rotate_model(m: Mat4<int>, v: Vec4<int>) -> Vec4<int> {
        m.transposed().apply(v)
    }

    fn rotate(&self, v: &Vec4<N>) -> (r: Vec4<N>) {
        self.submat.rmul(v)
    }

    fn inv_rotate(&self, v: &Vec4<N>) -> (r: Vec4<N>) {
        self.submat.transposed().rmul(v)
    }
}

impl<N: Scalar> Transform<Vec4<N>> for Rot4<N> {
    open spec fn transform_fits(m: Mat4<int>, v: Vec4<int>) -> bool {
        Mat4::<int>::apply_fits::<N>(m, v)
    }

    open spec fn transform_model(m: Mat4<int>, v: Vec4<int>) -> Vec4<int> {
        m.apply(v)
    }

    open spec fn inv_transform_fits(m: Mat4<int>, v: Vec4<int>) -> bool {
        Mat4::<int>::apply_fits::<N>(m.transposed(), v)
    }

    open spec fn inv_transform_model(m: Mat4<int>, v: Vec4<int>) -> Vec4<int> {
        m.transposed().apply(v)
    }

    fn transform(&self, v: &Vec4<N>) -> (r: Vec4<N>) {
        self.submat.rmul(v)
    }

    fn inv_transform(&self, v: &Vec4<N>) -> (r: Vec4<N>) {
        self.submat.transposed().rmul(v)
    }
}

impl<N: Scalar> RMul<Vec4<N>> for Rot4<N> {
    open spec fn rmul_fits(m: Mat4<int>, v: Vec4<int>) -> bool {
        Mat4::<int>::apply_fits::<N>(m, v)
    }

    open spec fn rmul_model(m: Mat4<int>, v: Vec4<int>) -> Vec4<int> {
        m.apply(v)
    }

    fn rmul(&self, v: &Vec4<N>) -> (r: Vec4<N>) {
        self.submat.rmul(v)
    }
}

impl<N: Scalar> LMul<Vec4<N>> for Rot4<N> {
    open spec fn lmul_fits(m: Mat4<int>, v: Vec4<int>) -> bool {
        Mat4::<int>::apply_left_fits::<N>(m, v)
    }

    open spec fn lmul_model(m: Mat4<int>, v: Vec4<int>) -> Vec4<int> {
        m.apply_left(v)
    }

    fn lmul(&self, v: &Vec4<N>) -> (r: Vec4<N>) {
        self.submat.lmul(v)
    }
}

impl<N: Scalar> Mat<Vec4<N>, Vec4<N>> for Rot4<N> {
}

impl<N: Scalar> RotationMatrix<Vec4<N>, Rot4<N>, Rot4<N>> for Rot4<N> {
    open spec fn to_rot_mat_model(m: Mat4<int>) -> Mat4<int> {
        m
    }

    fn to_rot_mat(&self) -> (r: Rot4<N>) {
        *self
    }
}

impl<N: Scalar> AbsoluteRotate<Vec4<N>> for Rot4<N> {
    open spec fn absolute_rotate_fits(m: Mat4<int>, v: Vec4<int>) -> bool {
        Mat4::<int>::apply_fits::<N>(m.abs(), v)
    }

    open spec fn absolute_rotate_model(m: Mat4<int>, v: Vec4<int>) -> Vec4<int> {
        m.abs().apply(v)
    }

    fn absolute_rotate(&self, v: &Vec4<N>) -> (r: Vec4<N>) {
        let a: Mat4<N> = self.absolute();
        a.rmul(v)
    }
}

impl<N: Scalar> Absolute<Mat4<N>> for Rot4<N> {
    open spec fn absolute_fits(m: Mat4<int>) -> bool {
        true
    }

    open spec fn absolute_model(m: Mat4<int>) -> Mat4<int> {
        m.abs()
    }

    fn absolute(&self) -> (r: Mat4<N>) {
        proof {
            use_type_invariant(self);
            lemma_orthogonal_entries4(self.submat@);
            lemma_unit_fits4::<N>(self.submat@);
            lemma_unit_fits4::<N>(self.submat@.abs());
        }
        self.submat.absolute()
    }
}

/// The inverse rotation of a rotation of dimension 4 is its transpose, and
/// is its inverse: to rotate a vector by one and then by the other gives
/// the vector back.
pub proof fn lemma_inv_rotation4<N: Scalar>(r: Mat4<int>, v: Vec4<int>)
    requires
        r.is_orthogonal(),
    ensures
        <Rot4<N> as Rotation<Rot4<N>>>::inv_rotation_model(r)
            == <Rot4<N> as Transpose>::transposed_model(r),
        <Rot4<N> as Rotation<Rot4<N>>>::inv_rotation_model(r) == <Rot4<N> as Inv>::inverse_model(r),
        <Rot4<N> as Rotate<Vec4<N>>>::rotate_model(
            r,
            <Rot4<N> as Rotate<Vec4<N>>>::rotate_model(
                <Rot4<N> as Rotation<Rot4<N>>>::inv_rotation_model(r),
                v,
            ),
        ) == v,
        <Rot4<N> as Rotate<Vec4<N>>>::rotate_model(
            <Rot4<N> as Rotation<Rot4<N>>>::inv_rotation_model(r),
            <Rot4<N> as Rotate<Vec4<N>>>::rotate_model(r, v),
        ) == v,
        <Rot4<N> as Rotate<Vec4<N>>>::inv_rotate_model(r,
            <Rot4<N> as Rotate<Vec4<N>>>::rotate_model(r, v)) == v,
{
    lemma_orthogonal_undo4(r, v);
}

/// A rotation of dimension 4 can rotate, rotate back and rotate by its
/// absolute value every vector that is representable together with its
/// inverse, and what it makes of the vector is representable.
pub proof fn lemma_rotate_fits4<N: Scalar>(r: Mat4<int>, v: Vec4<int>)
    requires
        r.is_orthogonal(),
        v.fits::<N>(),
        v.opposite().fits::<N>(),
    ensures
        <Rot4<N> as Rotate<Vec4<N>>>::rotate_fits(r, v),
        <Rot4<N> as Rotate<Vec4<N>>>::inv_rotate_fits(r, v),
        <Rot4<N> as AbsoluteRotate<Vec4<N>>>::absolute_rotate_fits(r, v),
        <Rot4<N> as Rotate<Vec4<N>>>::rotate_model(r, v).fits::<N>(),
        <Rot4<N> as Rotate<Vec4<N>>>::inv_rotate_model(r, v).fits::<N>(),
{
    lemma_orthogonal_apply_fits4::<N>(r, v);
}

/// What a rotation of dimension 4 makes of a vector is bounded, component by
/// component, by what its absolute value makes of the absolute value of the
/// vector.
pub proof fn lemma_absolute_rotate4<N: Scalar>(r: Mat4<int>, v: Vec4<int>)
    ensures
        <Rot4<N> as Rotate<Vec4<N>>>::rotate_model(r, v).abs().x
            <= <Rot4<N> as AbsoluteRotate<Vec4<N>>>::absolute_rotate_model(r, v.abs()).x,
        <Rot4<N> as Rotate<Vec4<N>>>::rotate_model(r, v).abs().y
            <= <Rot4<N> as AbsoluteRotate<Vec4<N>>>::absolute_rotate_model(r, v.abs()).y,
        <Rot4<N> as Rotate<Vec4<N>>>::rotate_model(r, v).abs().z
            <= <Rot4<N> as AbsoluteRotate<Vec4<N>>>::absolute_rotate_model(r, v.abs()).z,
        <Rot4<N> as Rotate<Vec4<N>>>::rotate_model(r, v).abs().w
            <= <Rot4<N> as AbsoluteRotate<Vec4<N>>>::absolute_rotate_model(r, v.abs()).w,
{
    lemma_absolute_apply4(r, v);
}

/// A rotation of dimension 4 keeps inner products, and so norms.
pub proof fn lemma_rotation_keeps_dot4(r: Mat4<int>, v: Vec4<int>, w: Vec4<int>)
    requires
        r.is_orthogonal(),
    ensures
        r.apply(v).dot(r.apply(w)) == v.dot(w),
{
    let t = r.transposed();
    lemma_dot_apply4(r, v, r.apply(w));
    lemma_orthogonal_undo4(r, w);
}

/// The inner product of `m * v` and `w` is that of `v` and the transpose of
/// `m` times `w`.
pub proof fn lemma_dot_apply4(m: Mat4<int>, v: Vec4<int>, w: Vec4<int>)
    ensures
        m.apply(v).dot(w) == v.dot(m.transposed().apply(w)),
{
    lemma_row_mat_col4(
        w.x, w.y, w.z, w.w,
        m.m11, m.m12, m.m13, m.m14,
        m.m21, m.m22, m.m23, m.m24,
        m.m31, m.m32, m.m33, m.m34,
        m.m41, m.m42, m.m43, m.m44,
        v.x, v.y, v.z, v.w,
    );
    lemma_comm(m.row1().dot(v), w.x);
    lemma_comm(m.row2().dot(v), w.y);
    lemma_comm(m.row3().dot(v), w.z);
    lemma_comm(m.row4().dot(v), w.w);
    lemma_comm(v.x, m.transposed().row1().dot(w));
    lemma_comm(v.y, m.transposed().row2().dot(w));
    lemma_comm(v.z, m.transposed().row3().dot(w));
    lemma_comm(v.w, m.transposed().row4().dot(w));
    lemma_comm(m.m11, v.x);
    lemma_comm(m.m11, w.x);
    lemma_comm(m.m12, v.y);
    lemma_comm(m.m12, w.x);
    lemma_comm(m.m13, v.z);
    lemma_comm(m.m13, w.x);
    lemma_comm(m.m14, v.w);
    lemma_comm(m.m14, w.x);
    lemma_comm(m.m21, v.x);
    lemma_comm(m.m21, w.y);
    lemma_comm(m.m22, v.y);
    lemma_comm(m.m22, w.y);
    lemma_comm(m.m23, v.z);
    lemma_comm(m.m23, w.y);
    lemma_comm(m.m24, v.w);
    lemma_comm(m.m24, w.y);
    lemma_comm(m.m31, v.x);
    lemma_comm(m.m31, w.z);
    lemma_comm(m.m32, v.y);
    lemma_comm(m.m32, w.z);
    lemma_comm(m.m33, v.z);
    lemma_comm(m.m33, w.z);
    lemma_comm(m.m34, v.w);
    lemma_comm(m.m34, w.z);
    lemma_comm(m.m41, v.x);
    lemma_comm(m.m41, w.w);
    lemma_comm(m.m42, v.y);
    lemma_comm(m.m42, w.w);
    lemma_comm(m.m43, v.z);
    lemma_comm(m.m43, w.w);
    lemma_comm(m.m44, v.w);
    lemma_comm(m.m44, w.w);
}

} // verus!
