//! Square matrices of dimension one to six.
//!
//! The view of a matrix over a scalar type is the matrix of the integers
//! that its components stand for; the algebra of matrices is stated on
//! matrices of integers.
use crate::determinant::lemma_cross3_swap_last;
use crate::scalar::{abs_int, Cast, fits, One, Scalar, Zero};
use crate::traits::{
    Absolute, Cross, Dim, Dot, FromHomogeneous, Inv, LMul, Mat, MatCast, RMul, ToHomogeneous,
    Transpose,
};
use crate::vector::{lemma_cross_anticommutative, Vec1, Vec2, Vec3, Vec4, Vec5, Vec6};
use vstd::prelude::*;

verus! {

/// A square matrix of dimension one; `m23` is the component of row 2 and
/// column 3.
#[derive(Clone, Copy, Debug, PartialEq, Eq)]
pub struct Mat1<N> {
    pub m11: N,
}

impl<N> Mat1<N> {
    /// The matrix with the given components, row by row.
    pub fn new(
        m11: N,
    ) -> (r: Self)
        ensures
            r == (Mat1 { m11 }),
    {
        Mat1 { m11 }
    }
}

impl<N: Scalar> View for Mat1<N> {
    type V = Mat1<int>;

    open spec fn view(&self) -> Mat1<int> {
        Mat1 {
            m11: self.m11.val(),
        }
    }
}

impl Mat1<int> {
    /// The zero matrix.
    pub open spec fn origin() -> Self {
        Mat1 {
            m11: 0,
        }
    }

    /// The identity matrix.
    pub open spec fn identity() -> Self {
        Mat1 {
            m11: 1,
        }
    }

    /// Whether every component is representable in the scalar type `N`.
    pub open spec fn fits<N: Scalar>(self) -> bool {
        &&& fits::<N>(self.m11)
    }

    /// Row 1.
    pub open spec fn row1(self) -> Vec1<int> {
        Vec1 { x: self.m11 }
    }

    /// Column 1.
    pub open spec fn col1(self) -> Vec1<int> {
        Vec1 { x: self.m11 }
    }

    /// The transpose.
    pub open spec fn transposed(self) -> Self {
        Mat1 {
            m11: self.m11,
        }
    }

    /// Additive inverse.
    pub open spec fn opposite(self) -> Self {
        Mat1 {
            m11: -self.m11,
        }
    }

    /// Every component multiplied by `k`.
    pub open spec fn scale(self, k: int) -> Self {
        Mat1 {
            m11: self.m11 * k,
        }
    }

    /// Component-wise absolute value.
    pub open spec fn abs(self) -> Self {
        Mat1 {
            m11: abs_int(self.m11),
        }
    }

    /// The matrix product `self * o`.
    pub open spec fn times(self, o: Self) -> Self {
        Mat1 {
            m11: self.row1().dot(o.col1()),
        }
    }

    /// Whether every step of the product `a * b` is representable in `N`.
    pub open spec fn times_fits<N: Scalar>(a: Self, b: Self) -> bool {
        &&& <Vec1<N> as Dot<N>>::dot_fits(a.row1(), b.col1())
    }

    /// The product `self * v`, with `v` as a column.
    pub open spec fn apply(self, v: Vec1<int>) -> Vec1<int> {
        Vec1 { x: self.row1().dot(v) }
    }

    /// Whether every step of the product `m * v` is representable in `N`.
    pub open spec fn apply_fits<N: Scalar>(m: Self, v: Vec1<int>) -> bool {
        &&& <Vec1<N> as Dot<N>>::dot_fits(m.row1(), v)
    }

    /// The product `v * self`, with `v` as a row.
    pub open spec fn apply_left(self, v: Vec1<int>) -> Vec1<int> {
        Vec1 { x: v.dot(self.col1()) }
    }

    /// Whether every step of the product `v * m` is representable in `N`.
    pub open spec fn apply_left_fits<N: Scalar>(m: Self, v: Vec1<int>) -> bool {
        &&& <Vec1<N> as Dot<N>>::dot_fits(v, m.col1())
    }

    /// The matrix as the upper left block of a matrix one dimension larger,
    /// which is the identity elsewhere.
    pub open spec fn lifted(self) -> Mat2<int> {
        Mat2 {
            m11: self.m11, m12: 0,
            m21: 0, m22: 1,
        }
    }

    /// The determinant.
    pub open spec fn det(self) -> int {
        self.m11
    }

    /// The adjugate: the matrix whose product with `self` is the
    /// determinant times the identity.
    pub open spec fn adjugate(self) -> Self {
        Mat1 { m11: 1 }
    }

    /// Whether the determinant is `1` or `-1`.
    pub open spec fn is_unimodular(self) -> bool {
        self.det() == 1 || self.det() == -1
    }

    /// Whether the matrix has an inverse with integer components.
    pub open spec fn has_inverse(self) -> bool {
        exists|x: Self| #[trigger] self.times(x) == Self::identity()
    }

    /// The inverse of a matrix that has one.
    pub open spec fn inverse(self) -> Self {
        if self.det() == 1 {
            self.adjugate()
        } else {
            self.adjugate().opposite()
        }
    }
}

impl<N: Scalar> Mat1<N> {
    /// The matrix product `self * o`.
    pub fn times(&self, o: &Self) -> (r: Self)
        requires
            Mat1::<int>::times_fits::<N>(self@, o@),
        ensures
            r@ == self@.times(o@),
    {
        Mat1 {
            m11: self.m11.times(o.m11),
        }
    }

    /// Every component multiplied by `k`.
    pub fn scaled(&self, k: N) -> (r: Self)
        requires
            self@.scale(k.val()).fits::<N>(),
        ensures
            r@ == self@.scale(k.val()),
    {
        Mat1 {
            m11: self.m11.times(k),
        }
    }

    /// The additive inverse.
    pub fn opposite(&self) -> (r: Self)
        requires
            self@.opposite().fits::<N>(),
        ensures
            r@ == self@.opposite(),
    {
        Mat1 {
            m11: self.m11.neg(),
        }
    }

    /// Whether `self` and `o` have the same components.
    pub fn same(&self, o: &Self) -> (r: bool)
        ensures
            r == (self@ == o@),
    {
        self.m11.same(o.m11)
    }

    /// A matrix is determined by its view.
    pub proof fn lemma_view_injective(a: Self, b: Self)
        requires
            a@ == b@,
        ensures
            a == b,
    {
        a.m11.lemma_val();
        b.m11.lemma_val();
    }
}

impl<N> Dim for Mat1<N> {
    open spec fn dim_model() -> nat {
        1
    }

    fn dim() -> (r: usize) {
        1
    }
}

impl<N: Scalar> Zero for Mat1<N> {
    open spec fn is_zero(&self) -> bool {
        self@ == Mat1::<int>::origin()
    }

    fn zero() -> (r: Self) {
        let z = N::zero();
        proof {
            z.lemma_val();
        }
        Mat1 {
            m11: z,
        }
    }
}

impl<N: Scalar> One for Mat1<N> {
    open spec fn is_one(&self) -> bool {
        self@ == Mat1::<int>::identity()
    }

    fn one() -> (r: Self) {
        let z = N::zero();
        let u = N::one();
        proof {
            z.lemma_val();
            u.lemma_val();
        }
        Mat1 {
            m11: u,
        }
    }
}

impl<N: Scalar> Transpose for Mat1<N> {
    open spec fn transposed_model(m: Mat1<int>) -> Mat1<int> {
        m.transposed()
    }

    proof fn lemma_transpose_involution(m: Mat1<int>) {
    }

    fn transposed(&self) -> (r: Self) {
        Mat1 {
            m11: self.m11,
        }
    }

    fn transpose(&mut self) {
        *self = self.transposed();
    }
}

impl<N: Scalar> RMul<Vec1<N>> for Mat1<N> {
    open spec fn rmul_fits(m: Mat1<int>, v: Vec1<int>) -> bool {
        Mat1::<int>::apply_fits::<N>(m, v)
    }

    open spec fn rmul_model(m: Mat1<int>, v: Vec1<int>) -> Vec1<int> {
        m.apply(v)
    }

    fn rmul(&self, v: &Vec1<N>) -> (r: Vec1<N>) {
        Vec1 {
            x: self.m11.times(v.x),
        }
    }
}

impl<N: Scalar> LMul<Vec1<N>> for Mat1<N> {
    open spec fn lmul_fits(m: Mat1<int>, v: Vec1<int>) -> bool {
        Mat1::<int>::apply_left_fits::<N>(m, v)
    }

    open spec fn lmul_model(m: Mat1<int>, v: Vec1<int>) -> Vec1<int> {
        m.apply_left(v)
    }

    fn lmul(&self, v: &Vec1<N>) -> (r: Vec1<N>) {
        Vec1 {
            x: v.x.times(self.m11),
        }
    }
}

impl<N: Scalar> Mat<Vec1<N>, Vec1<N>> for Mat1<N> {
}

impl<N: Scalar> Absolute<Mat1<N>> for Mat1<N> {
    open spec fn absolute_fits(m: Mat1<int>) -> bool {
        m.abs().fits::<N>()
    }

    open spec fn absolute_model(m: Mat1<int>) -> Mat1<int> {
        m.abs()
    }

    fn absolute(&self) -> (r: Mat1<N>) {
        Mat1 {
            m11: self.m11.abs(),
        }
    }
}

impl<N: Scalar> ToHomogeneous<Mat2<N>> for Mat1<N> {
    open spec fn to_homogeneous_model(m: Mat1<int>) -> Mat2<int> {
        m.lifted()
    }

    fn to_homogeneous(&self) -> (r: Mat2<N>) {
        let z = N::zero();
        let u = N::one();
        proof {
            z.lemma_val();
            u.lemma_val();
        }
        Mat2 {
            m11: self.m11, m12: z,
            m21: z, m22: u,
        }
    }
}

impl<N: Scalar> FromHomogeneous<Mat2<N>> for Mat1<N> {
    open spec fn from_fits(m: Mat2<int>) -> bool {
        true
    }

    open spec fn from_model(m: Mat2<int>) -> Mat1<int> {
        m.lowered()
    }

    fn from(m: &Mat2<N>) -> (r: Self) {
        Mat1 {
            m11: m.m11,
        }
    }
}

impl<N: Cast<M>, M: Scalar> MatCast<Mat1<M>> for Mat1<N> {
    open spec fn cast_fits(m: Mat1<int>) -> bool {
        m.fits::<M>()
    }

    open spec fn cast_model(m: Mat1<int>) -> Mat1<int> {
        m
    }

    fn from(m: Self) -> (r: Mat1<M>) {
        Mat1 {
            m11: m.m11.cast(),
        }
    }
}

impl<N: Scalar> Inv for Mat1<N> {
    open spec fn inv_fits(m: Mat1<int>) -> bool {
        m.det() != 0 ==> m.is_unimodular()
    }

    open spec fn invertible(m: Mat1<int>) -> bool {
        m.det() != 0
    }

    open spec fn inverse_model(m: Mat1<int>) -> Mat1<int> {
        m.inverse()
    }

    fn inverted(&self) -> (r: Option<Self>) {
        let u = N::one();
        proof {
            u.lemma_val();
            N::lemma_range();
        }
        if self.m11.same(u) {
            Some(Mat1 { m11: u })
        } else if self.m11.same(u.neg()) {
            Some(Mat1 { m11: u.neg() })
        } else {
            None
        }
    }

    fn invert(&mut self) -> (ok: bool) {
        match self.inverted() {
            Some(m) => {
                *self = m;
                true
            },
            None => false,
        }
    }
}

/// A square matrix of dimension two; `m23` is the component of row 2 and
/// column 3.
#[derive(Clone, Copy, Debug, PartialEq, Eq)]
pub struct Mat2<N> {
    pub m11: N,
    pub m12: N,
    pub m21: N,
    pub m22: N,
}

impl<N> Mat2<N> {
    /// The matrix with the given components, row by row.
    pub fn new(
        m11: N, m12: N,
        m21: N, m22: N,
    ) -> (r: Self)
        ensures
            r == (Mat2 { m11, m12, m21, m22 }),
    {
        Mat2 { m11, m12, m21, m22 }
    }
}

impl<N: Scalar> View for Mat2<N> {
    type V = Mat2<int>;

    open spec fn view(&self) -> Mat2<int> {
        Mat2 {
            m11: self.m11.val(), m12: self.m12.val(),
            m21: self.m21.val(), m22: self.m22.val(),
        }
    }
}

impl Mat2<int> {
    /// The zero matrix.
    pub open spec fn origin() -> Self {
        Mat2 {
            m11: 0, m12: 0,
            m21: 0, m22: 0,
        }
    }

    /// The identity matrix.
    pub open spec fn identity() -> Self {
        Mat2 {
            m11: 1, m12: 0,
            m21: 0, m22: 1,
        }
    }

    /// Whether every component is representable in the scalar type `N`.
    pub open spec fn fits<N: Scalar>(self) -> bool {
        &&& fits::<N>(self.m11)
        &&& fits::<N>(self.m12)
        &&& fits::<N>(self.m21)
        &&& fits::<N>(self.m22)
    }

    /// Row 1.
    pub open spec fn row1(self) -> Vec2<int> {
        Vec2 { x: self.m11, y: self.m12 }
    }

    /// Row 2.
    pub open spec fn row2(self) -> Vec2<int> {
        Vec2 { x: self.m21, y: self.m22 }
    }

    /// Column 1.
    pub open spec fn col1(self) -> Vec2<int> {
        Vec2 { x: self.m11, y: self.m21 }
    }

    /// Column 2.
    pub open spec fn col2(self) -> Vec2<int> {
        Vec2 { x: self.m12, y: self.m22 }
    }

    /// The transpose.
    pub open spec fn transposed(self) -> Self {
        Mat2 {
            m11: self.m11, m12: self.m21,
            m21: self.m12, m22: self.m22,
        }
    }

    /// Additive inverse.
    pub open spec fn opposite(self) -> Self {
        Mat2 {
            m11: -self.m11, m12: -self.m12,
            m21: -self.m21, m22: -self.m22,
        }
    }

    /// Every component multiplied by `k`.
    pub open spec fn scale(self, k: int) -> Self {
        Mat2 {
            m11: self.m11 * k, m12: self.m12 * k,
            m21: self.m21 * k, m22: self.m22 * k,
        }
    }

    /// Component-wise absolute value.
    pub open spec fn abs(self) -> Self {
        Mat2 {
            m11: abs_int(self.m11), m12: abs_int(self.m12),
            m21: abs_int(self.m21), m22: abs_int(self.m22),
        }
    }

    /// The matrix product `self * o`.
    pub open spec fn times(self, o: Self) -> Self {
        Mat2 {
            m11: self.row1().dot(o.col1()),
            m12: self.row1().dot(o.col2()),
            m21: self.row2().dot(o.col1()),
            m22: self.row2().dot(o.col2()),
        }
    }

    /// Whether every step of the product `a * b` is representable in `N`.
    pub open spec fn times_fits<N: Scalar>(a: Self, b: Self) -> bool {
        &&& <Vec2<N> as Dot<N>>::dot_fits(a.row1(), b.col1())
        &&& <Vec2<N> as Dot<N>>::dot_fits(a.row1(), b.col2())
        &&& <Vec2<N> as Dot<N>>::dot_fits(a.row2(), b.col1())
        &&& <Vec2<N> as Dot<N>>::dot_fits(a.row2(), b.col2())
    }

    /// The product `self * v`, with `v` as a column.
    pub open spec fn apply(self, v: Vec2<int>) -> Vec2<int> {
        Vec2 { x: self.row1().dot(v), y: self.row2().dot(v) }
    }

    /// Whether every step of the product `m * v` is representable in `N`.
    pub open spec fn apply_fits<N: Scalar>(m: Self, v: Vec2<int>) -> bool {
        &&& <Vec2<N> as Dot<N>>::dot_fits(m.row1(), v)
        &&& <Vec2<N> as Dot<N>>::dot_fits(m.row2(), v)
    }

    /// The product `v * self`, with `v` as a row.
    pub open spec fn apply_left(self, v: Vec2<int>) -> Vec2<int> {
        Vec2 { x: v.dot(self.col1()), y: v.dot(self.col2()) }
    }

    /// Whether every step of the product `v * m` is representable in `N`.
    pub open spec fn apply_left_fits<N: Scalar>(m: Self, v: Vec2<int>) -> bool {
        &&& <Vec2<N> as Dot<N>>::dot_fits(v, m.col1())
        &&& <Vec2<N> as Dot<N>>::dot_fits(v, m.col2())
    }

    /// Whether every component is `-1`, `0` or `1`.
    pub open spec fn within_unit(self) -> bool {
        &&& -1 <= self.m11 <= 1
        &&& -1 <= self.m12 <= 1
        &&& -1 <= self.m21 <= 1
        &&& -1 <= self.m22 <= 1
    }

    /// Whether the matrix is orthogonal: its transpose is its inverse.
    pub open spec fn is_orthogonal(self) -> bool {
        &&& self.times(self.transposed()) == Self::identity()
        &&& self.transposed().times(self) == Self::identity()
    }

    /// The matrix as the upper left block of a matrix one dimension larger,
    /// which is the identity elsewhere.
    pub open spec fn lifted(self) -> Mat3<int> {
        Mat3 {
            m11: self.m11, m12: self.m12, m13: 0,
            m21: self.m21, m22: self.m22, m23: 0,
            m31: 0, m32: 0, m33: 1,
        }
    }

    /// The upper left block, one dimension smaller.
    pub open spec fn lowered(self) -> Mat1<int> {
        Mat1 {
            m11: self.m11,
        }
    }

    /// The determinant.
    pub open spec fn det(self) -> int {
        self.m11 * self.m22 - self.m12 * self.m21
    }

    /// The adjugate: the matrix whose product with `self` is the
    /// determinant times the identity.
    pub open spec fn adjugate(self) -> Self {
        Mat2 { m11: self.m22, m12: -self.m12, m21: -self.m21, m22: self.m11 }
    }

    /// Whether the determinant is `1` or `-1`.
    pub open spec fn is_unimodular(self) -> bool {
        self.det() == 1 || self.det() == -1
    }

    /// Whether the matrix has an inverse with integer components.
    pub open spec fn has_inverse(self) -> bool {
        exists|x: Self| #[trigger] self.times(x) == Self::identity()
    }

    /// The inverse of a matrix that has one.
    pub open spec fn inverse(self) -> Self {
        if self.det() == 1 {
            self.adjugate()
        } else {
            self.adjugate().opposite()
        }
    }
}

impl<N: Scalar> Mat2<N> {
    /// The matrix product `self * o`.
    pub fn times(&self, o: &Self) -> (r: Self)
        requires
            Mat2::<int>::times_fits::<N>(self@, o@),
        ensures
            r@ == self@.times(o@),
    {
        Mat2 {
            m11: self.m11.times(o.m11).plus(self.m12.times(o.m21)),
            m12: self.m11.times(o.m12).plus(self.m12.times(o.m22)),
            m21: self.m21.times(o.m11).plus(self.m22.times(o.m21)),
            m22: self.m21.times(o.m12).plus(self.m22.times(o.m22)),
        }
    }

    /// Every component multiplied by `k`.
    pub fn scaled(&self, k: N) -> (r: Self)
        requires
            self@.scale(k.val()).fits::<N>(),
        ensures
            r@ == self@.scale(k.val()),
    {
        Mat2 {
            m11: self.m11.times(k),
            m12: self.m12.times(k),
            m21: self.m21.times(k),
            m22: self.m22.times(k),
        }
    }

    /// The additive inverse.
    pub fn opposite(&self) -> (r: Self)
        requires
            self@.opposite().fits::<N>(),
        ensures
            r@ == self@.opposite(),
    {
        Mat2 {
            m11: self.m11.neg(),
            m12: self.m12.neg(),
            m21: self.m21.neg(),
            m22: self.m22.neg(),
        }
    }

    /// Whether `self` and `o` have the same components.
    pub fn same(&self, o: &Self) -> (r: bool)
        ensures
            r == (self@ == o@),
    {
        self.m11.same(o.m11)
            && self.m12.same(o.m12)
            && self.m21.same(o.m21)
            && self.m22.same(o.m22)
    }

    /// Whether every component of `self` is `-1`, `0` or `1`.
    pub fn is_within_unit(&self) -> (r: bool)
        ensures
            r == self@.within_unit(),
    {
        let u = N::one();
        proof {
            u.lemma_val();
            N::lemma_range();
        }
        let n = u.neg();
        !self.m11.lt(n) && !u.lt(self.m11)
            && !self.m12.lt(n) && !u.lt(self.m12)
            && !self.m21.lt(n) && !u.lt(self.m21)
            && !self.m22.lt(n) && !u.lt(self.m22)
    }

    /// A matrix is determined by its view.
    pub proof fn lemma_view_injective(a: Self, b: Self)
        requires
            a@ == b@,
        ensures
            a == b,
    {
        a.m11.lemma_val();
        b.m11.lemma_val();
        a.m12.lemma_val();
        b.m12.lemma_val();
        a.m21.lemma_val();
        b.m21.lemma_val();
        a.m22.lemma_val();
        b.m22.lemma_val();
    }
}

impl<N> Dim for Mat2<N> {
    open spec fn dim_model() -> nat {
        2
    }

    fn dim() -> (r: usize) {
        2
    }
}

impl<N: Scalar> Zero for Mat2<N> {
    open spec fn is_zero(&self) -> bool {
        self@ == Mat2::<int>::origin()
    }

    fn zero() -> (r: Self) {
        let z = N::zero();
        proof {
            z.lemma_val();
        }
        Mat2 {
            m11: z, m12: z,
            m21: z, m22: z,
        }
    }
}

impl<N: Scalar> One for Mat2<N> {
    open spec fn is_one(&self) -> bool {
        self@ == Mat2::<int>::identity()
    }

    fn one() -> (r: Self) {
        let z = N::zero();
        let u = N::one();
        proof {
            z.lemma_val();
            u.lemma_val();
        }
        Mat2 {
            m11: u, m12: z,
            m21: z, m22: u,
        }
    }
}

impl<N: Scalar> Transpose for Mat2<N> {
    open spec fn transposed_model(m: Mat2<int>) -> Mat2<int> {
        m.transposed()
    }

    proof fn lemma_transpose_involution(m: Mat2<int>) {
    }

    fn transposed(&self) -> (r: Self) {
        Mat2 {
            m11: self.m11, m12: self.m21,
            m21: self.m12, m22: self.m22,
        }
    }

    fn transpose(&mut self) {
        *self = self.transposed();
    }
}

impl<N: Scalar> RMul<Vec2<N>> for Mat2<N> {
    open spec fn rmul_fits(m: Mat2<int>, v: Vec2<int>) -> bool {
        Mat2::<int>::apply_fits::<N>(m, v)
    }

    open spec fn rmul_model(m: Mat2<int>, v: Vec2<int>) -> Vec2<int> {
        m.apply(v)
    }

    fn rmul(&self, v: &Vec2<N>) -> (r: Vec2<N>) {
        Vec2 {
            x: self.m11.times(v.x).plus(self.m12.times(v.y)),
            y: self.m21.times(v.x).plus(self.m22.times(v.y)),
        }
    }
}

impl<N: Scalar> LMul<Vec2<N>> for Mat2<N> {
    open spec fn lmul_fits(m: Mat2<int>, v: Vec2<int>) -> bool {
        Mat2::<int>::apply_left_fits::<N>(m, v)
    }

    open spec fn lmul_model(m: Mat2<int>, v: Vec2<int>) -> Vec2<int> {
        m.apply_left(v)
    }

    fn lmul(&self, v: &Vec2<N>) -> (r: Vec2<N>) {
        Vec2 {
            x: v.x.times(self.m11).plus(v.y.times(self.m21)),
            y: v.x.times(self.m12).plus(v.y.times(self.m22)),
        }
    }
}

impl<N: Scalar> Mat<Vec2<N>, Vec2<N>> for Mat2<N> {
}

impl<N: Scalar> Absolute<Mat2<N>> for Mat2<N> {
    open spec fn absolute_fits(m: Mat2<int>) -> bool {
        m.abs().fits::<N>()
    }

    open spec fn absolute_model(m: Mat2<int>) -> Mat2<int> {
        m.abs()
    }

    fn absolute(&self) -> (r: Mat2<N>) {
        Mat2 {
            m11: self.m11.abs(),
            m12: self.m12.abs(),
            m21: self.m21.abs(),
            m22: self.m22.abs(),
        }
    }
}

impl<N: Scalar> ToHomogeneous<Mat3<N>> for Mat2<N> {
    open spec fn to_homogeneous_model(m: Mat2<int>) -> Mat3<int> {
        m.lifted()
    }

    fn to_homogeneous(&self) -> (r: Mat3<N>) {
        let z = N::zero();
        let u = N::one();
        proof {
            z.lemma_val();
            u.lemma_val();
        }
        Mat3 {
            m11: self.m11, m12: self.m12, m13: z,
            m21: self.m21, m22: self.m22, m23: z,
            m31: z, m32: z, m33: u,
        }
    }
}

impl<N: Scalar> FromHomogeneous<Mat3<N>> for Mat2<N> {
    open spec fn from_fits(m: Mat3<int>) -> bool {
        true
    }

    open spec fn from_model(m: Mat3<int>) -> Mat2<int> {
        m.lowered()
    }

    fn from(m: &Mat3<N>) -> (r: Self) {
        Mat2 {
            m11: m.m11, m12: m.m12,
            m21: m.m21, m22: m.m22,
        }
    }
}

impl<N: Cast<M>, M: Scalar> MatCast<Mat2<M>> for Mat2<N> {
    open spec fn cast_fits(m: Mat2<int>) -> bool {
        m.fits::<M>()
    }

    open spec fn cast_model(m: Mat2<int>) -> Mat2<int> {
        m
    }

    fn from(m: Self) -> (r: Mat2<M>) {
        Mat2 {
            m11: m.m11.cast(),
            m12: m.m12.cast(),
            m21: m.m21.cast(),
            m22: m.m22.cast(),
        }
    }
}

impl<N: Scalar> Inv for Mat2<N> {
    open spec fn inv_fits(m: Mat2<int>) -> bool {
        &&& fits::<N>(m.m11 * m.m22)
        &&& fits::<N>(m.m12 * m.m21)
        &&& fits::<N>(m.det())
        &&& m.det() == 1 ==> fits::<N>(-m.m12) && fits::<N>(-m.m21)
        &&& m.det() == -1 ==> fits::<N>(-m.m11) && fits::<N>(-m.m22)
        &&& m.det() != 0 ==> m.is_unimodular()
    }

    open spec fn invertible(m: Mat2<int>) -> bool {
        m.det() != 0
    }

    open spec fn inverse_model(m: Mat2<int>) -> Mat2<int> {
        m.inverse()
    }

    fn inverted(&self) -> (r: Option<Self>) {
        let u = N::one();
        proof {
            u.lemma_val();
            N::lemma_range();
        }
        let det = self.m11.times(self.m22).minus(self.m12.times(self.m21));
        if det.same(u) {
            Some(Mat2 { m11: self.m22, m12: self.m12.neg(), m21: self.m21.neg(), m22: self.m11 })
        } else if det.same(u.neg()) {
            Some(Mat2 { m11: self.m22.neg(), m12: self.m12, m21: self.m21, m22: self.m11.neg() })
        } else {
            None
        }
    }

    fn invert(&mut self) -> (ok: bool) {
        match self.inverted() {
            Some(m) => {
                *self = m;
                true
            },
            None => false,
        }
    }
}

/// A square matrix of dimension three; `m23` is the component of row 2 and
/// column 3.
#[derive(Clone, Copy, Debug, PartialEq, Eq)]
pub struct Mat3<N> {
    pub m11: N,
    pub m12: N,
    pub m13: N,
    pub m21: N,
    pub m22: N,
    pub m23: N,
    pub m31: N,
    pub m32: N,
    pub m33: N,
}

impl<N> Mat3<N> {
    /// The matrix with the given components, row by row.
    pub fn new(
        m11: N, m12: N, m13: N,
        m21: N, m22: N, m23: N,
        m31: N, m32: N, m33: N,
    ) -> (r: Self)
        ensures
            r == (Mat3 { m11, m12, m13, m21, m22, m23, m31, m32, m33 }),
    {
        Mat3 { m11, m12, m13, m21, m22, m23, m31, m32, m33 }
    }
}

impl<N: Scalar> View for Mat3<N> {
    type V = Mat3<int>;

    open spec fn view(&self) -> Mat3<int> {
        Mat3 {
            m11: self.m11.val(), m12: self.m12.val(), m13: self.m13.val(),
            m21: self.m21.val(), m22: self.m22.val(), m23: self.m23.val(),
            m31: self.m31.val(), m32: self.m32.val(), m33: self.m33.val(),
        }
    }
}

impl Mat3<int> {
    /// The zero matrix.
    pub open spec fn origin() -> Self {
        Mat3 {
            m11: 0, m12: 0, m13: 0,
            m21: 0, m22: 0, m23: 0,
            m31: 0, m32: 0, m33: 0,
        }
    }

    /// The identity matrix.
    pub open spec fn identity() -> Self {
        Mat3 {
            m11: 1, m12: 0, m13: 0,
            m21: 0, m22: 1, m23: 0,
            m31: 0, m32: 0, m33: 1,
        }
    }

    /// Whether every component is representable in the scalar type `N`.
    pub open spec fn fits<N: Scalar>(self) -> bool {
        &&& fits::<N>(self.m11)
        &&& fits::<N>(self.m12)
        &&& fits::<N>(self.m13)
        &&& fits::<N>(self.m21)
        &&& fits::<N>(self.m22)
        &&& fits::<N>(self.m23)
        &&& fits::<N>(self.m31)
        &&& fits::<N>(self.m32)
        &&& fits::<N>(self.m33)
    }

    /// Row 1.
    pub open spec fn row1(self) -> Vec3<int> {
        Vec3 { x: self.m11, y: self.m12, z: self.m13 }
    }

    /// Row 2.
    pub open spec fn row2(self) -> Vec3<int> {
        Vec3 { x: self.m21, y: self.m22, z: self.m23 }
    }

    /// Row 3.
    pub open spec fn row3(self) -> Vec3<int> {
        Vec3 { x: self.m31, y: self.m32, z: self.m33 }
    }

    /// Column 1.
    pub open spec fn col1(self) -> Vec3<int> {
        Vec3 { x: self.m11, y: self.m21, z: self.m31 }
    }

    /// Column 2.
    pub open spec fn col2(self) -> Vec3<int> {
        Vec3 { x: self.m12, y: self.m22, z: self.m32 }
    }

    /// Column 3.
    pub open spec fn col3(self) -> Vec3<int> {
        Vec3 { x: self.m13, y: self.m23, z: self.m33 }
    }

    /// The transpose.
    pub open spec fn transposed(self) -> Self {
        Mat3 {
            m11: self.m11, m12: self.m21, m13: self.m31,
            m21: self.m12, m22: self.m22, m23: self.m32,
            m31: self.m13, m32: self.m23, m33: self.m33,
        }
    }

    /// Additive inverse.
    pub open spec fn opposite(self) -> Self {
        Mat3 {
            m11: -self.m11, m12: -self.m12, m13: -self.m13,
            m21: -self.m21, m22: -self.m22, m23: -self.m23,
            m31: -self.m31, m32: -self.m32, m33: -self.m33,
        }
    }

    /// Every component multiplied by `k`.
    pub open spec fn scale(self, k: int) -> Self {
        Mat3 {
            m11: self.m11 * k, m12: self.m12 * k, m13: self.m13 * k,
            m21: self.m21 * k, m22: self.m22 * k, m23: self.m23 * k,
            m31: self.m31 * k, m32: self.m32 * k, m33: self.m33 * k,
        }
    }

    /// Component-wise absolute value.
    pub open spec fn abs(self) -> Self {
        Mat3 {
            m11: abs_int(self.m11), m12: abs_int(self.m12), m13: abs_int(self.m13),
            m21: abs_int(self.m21), m22: abs_int(self.m22), m23: abs_int(self.m23),
            m31: abs_int(self.m31), m32: abs_int(self.m32), m33: abs_int(self.m33),
        }
    }

    /// The matrix product `self * o`.
    pub open spec fn times(self, o: Self) -> Self {
        Mat3 {
            m11: self.row1().dot(o.col1()),
            m12: self.row1().dot(o.col2()),
            m13: self.row1().dot(o.col3()),
            m21: self.row2().dot(o.col1()),
            m22: self.row2().dot(o.col2()),
            m23: self.row2().dot(o.col3()),
            m31: self.row3().dot(o.col1()),
            m32: self.row3().dot(o.col2()),
            m33: self.row3().dot(o.col3()),
        }
    }

    /// Whether every step of the product `a * b` is representable in `N`.
    pub open spec fn times_fits<N: Scalar>(a: Self, b: Self) -> bool {
        &&& <Vec3<N> as Dot<N>>::dot_fits(a.row1(), b.col1())
        &&& <Vec3<N> as Dot<N>>::dot_fits(a.row1(), b.col2())
        &&& <Vec3<N> as Dot<N>>::dot_fits(a.row1(), b.col3())
        &&& <Vec3<N> as Dot<N>>::dot_fits(a.row2(), b.col1())
        &&& <Vec3<N> as Dot<N>>::dot_fits(a.row2(), b.col2())
        &&& <Vec3<N> as Dot<N>>::dot_fits(a.row2(), b.col3())
        &&& <Vec3<N> as Dot<N>>::dot_fits(a.row3(), b.col1())
        &&& <Vec3<N> as Dot<N>>::dot_fits(a.row3(), b.col2())
        &&& <Vec3<N> as Dot<N>>::dot_fits(a.row3(), b.col3())
    }

    /// The product `self * v`, with `v` as a column.
    pub open spec fn apply(self, v: Vec3<int>) -> Vec3<int> {
        Vec3 { x: self.row1().dot(v), y: self.row2().dot(v), z: self.row3().dot(v) }
    }

    /// Whether every step of the product `m * v` is representable in `N`.
    pub open spec fn apply_fits<N: Scalar>(m: Self, v: Vec3<int>) -> bool {
        &&& <Vec3<N> as Dot<N>>::dot_fits(m.row1(), v)
        &&& <Vec3<N> as Dot<N>>::dot_fits(m.row2(), v)
        &&& <Vec3<N> as Dot<N>>::dot_fits(m.row3(), v)
    }

    /// The product `v * self`, with `v` as a row.
    pub open spec fn apply_left(self, v: Vec3<int>) -> Vec3<int> {
        Vec3 { x: v.dot(self.col1()), y: v.dot(self.col2()), z: v.dot(self.col3()) }
    }

    /// Whether every step of the product `v * m` is representable in `N`.
    pub open spec fn apply_left_fits<N: Scalar>(m: Self, v: Vec3<int>) -> bool {
        &&& <Vec3<N> as Dot<N>>::dot_fits(v, m.col1())
        &&& <Vec3<N> as Dot<N>>::dot_fits(v, m.col2())
        &&& <Vec3<N> as Dot<N>>::dot_fits(v, m.col3())
    }

    /// Whether every component is `-1`, `0` or `1`.
    pub open spec fn within_unit(self) -> bool {
        &&& -1 <= self.m11 <= 1
        &&& -1 <= self.m12 <= 1
        &&& -1 <= self.m13 <= 1
        &&& -1 <= self.m21 <= 1
        &&& -1 <= self.m22 <= 1
        &&& -1 <= self.m23 <= 1
        &&& -1 <= self.m31 <= 1
        &&& -1 <= self.m32 <= 1
        &&& -1 <= self.m33 <= 1
    }

    /// Whether the matrix is orthogonal: its transpose is its inverse.
    pub open spec fn is_orthogonal(self) -> bool {
        &&& self.times(self.transposed()) == Self::identity()
        &&& self.transposed().times(self) == Self::identity()
    }

    /// The matrix as the upper left block of a matrix one dimension larger,
    /// which is the identity elsewhere.
    pub open spec fn lifted(self) -> Mat4<int> {
        Mat4 {
            m11: self.m11, m12: self.m12, m13: self.m13, m14: 0,
            m21: self.m21, m22: self.m22, m23: self.m23, m24: 0,
            m31: self.m31, m32: self.m32, m33: self.m33, m34: 0,
            m41: 0, m42: 0, m43: 0, m44: 1,
        }
    }

    /// The upper left block, one dimension smaller.
    pub open spec fn lowered(self) -> Mat2<int> {
        Mat2 {
            m11: self.m11, m12: self.m12,
            m21: self.m21, m22: self.m22,
        }
    }

    /// The matrix with the given rows.
    pub open spec fn from_rows(r1: Vec3<int>, r2: Vec3<int>, r3: Vec3<int>) -> Self {
        Mat3 {
            m11: r1.x, m12: r1.y, m13: r1.z,
            m21: r2.x, m22: r2.y, m23: r2.z,
            m31: r3.x, m32: r3.y, m33: r3.z,
        }
    }

    /// The cofactors: each the determinant of the matrix without a row and
    /// a column, with the sign of its place.
    pub open spec fn cofactors(self) -> Self {
        Self::from_rows(
            self.row2().cross(self.row3()),
            self.row3().cross(self.row1()),
            self.row1().cross(self.row2()),
        )
    }

    /// The determinant.
    pub open spec fn det(self) -> int {
        self.row1().triple(self.row2(), self.row3())
    }

    /// The adjugate: the matrix whose product with `self` is the
    /// determinant times the identity.
    pub open spec fn adjugate(self) -> Self {
        self.cofactors().transposed()
    }

    /// Whether the determinant is `1` or `-1`.
    pub open spec fn is_unimodular(self) -> bool {
        self.det() == 1 || self.det() == -1
    }

    /// Whether the matrix has an inverse with integer components.
    pub open spec fn has_inverse(self) -> bool {
        exists|x: Self| #[trigger] self.times(x) == Self::identity()
    }

    /// The inverse of a matrix that has one.
    pub open spec fn inverse(self) -> Self {
        if self.det() == 1 {
            self.adjugate()
        } else {
            self.adjugate().opposite()
        }
    }
}

impl<N: Scalar> Mat3<N> {
    /// The matrix product `self * o`.
    pub fn times(&self, o: &Self) -> (r: Self)
        requires
            Mat3::<int>::times_fits::<N>(self@, o@),
        ensures
            r@ == self@.times(o@),
    {
        Mat3 {
            m11: self.m11.times(o.m11).plus(self.m12.times(o.m21)).plus(self.m13.times(o.m31)),
            m12: self.m11.times(o.m12).plus(self.m12.times(o.m22)).plus(self.m13.times(o.m32)),
            m13: self.m11.times(o.m13).plus(self.m12.times(o.m23)).plus(self.m13.times(o.m33)),
            m21: self.m21.times(o.m11).plus(self.m22.times(o.m21)).plus(self.m23.times(o.m31)),
            m22: self.m21.times(o.m12).plus(self.m22.times(o.m22)).plus(self.m23.times(o.m32)),
            m23: self.m21.times(o.m13).plus(self.m22.times(o.m23)).plus(self.m23.times(o.m33)),
            m31: self.m31.times(o.m11).plus(self.m32.times(o.m21)).plus(self.m33.times(o.m31)),
            m32: self.m31.times(o.m12).plus(self.m32.times(o.m22)).plus(self.m33.times(o.m32)),
            m33: self.m31.times(o.m13).plus(self.m32.times(o.m23)).plus(self.m33.times(o.m33)),
        }
    }

    /// Every component multiplied by `k`.
    pub fn scaled(&self, k: N) -> (r: Self)
        requires
            self@.scale(k.val()).fits::<N>(),
        ensures
            r@ == self@.scale(k.val()),
    {
        Mat3 {
            m11: self.m11.times(k),
            m12: self.m12.times(k),
            m13: self.m13.times(k),
            m21: self.m21.times(k),
            m22: self.m22.times(k),
            m23: self.m23.times(k),
            m31: self.m31.times(k),
            m32: self.m32.times(k),
            m33: self.m33.times(k),
        }
    }

    /// The additive inverse.
    pub fn opposite(&self) -> (r: Self)
        requires
            self@.opposite().fits::<N>(),
        ensures
            r@ == self@.opposite(),
    {
        Mat3 {
            m11: self.m11.neg(),
            m12: self.m12.neg(),
            m13: self.m13.neg(),
            m21: self.m21.neg(),
            m22: self.m22.neg(),
            m23: self.m23.neg(),
            m31: self.m31.neg(),
            m32: self.m32.neg(),
            m33: self.m33.neg(),
        }
    }

    /// Whether `self` and `o` have the same components.
    pub fn same(&self, o: &Self) -> (r: bool)
        ensures
            r == (self@ == o@),
    {
        self.m11.same(o.m11)
            && self.m12.same(o.m12)
            && self.m13.same(o.m13)
            && self.m21.same(o.m21)
            && self.m22.same(o.m22)
            && self.m23.same(o.m23)
            && self.m31.same(o.m31)
            && self.m32.same(o.m32)
            && self.m33.same(o.m33)
    }

    /// Whether every component of `self` is `-1`, `0` or `1`.
    pub fn is_within_unit(&self) -> (r: bool)
        ensures
            r == self@.within_unit(),
    {
        let u = N::one();
        proof {
            u.lemma_val();
            N::lemma_range();
        }
        let n = u.neg();
        !self.m11.lt(n) && !u.lt(self.m11)
            && !self.m12.lt(n) && !u.lt(self.m12)
            && !self.m13.lt(n) && !u.lt(self.m13)
            && !self.m21.lt(n) && !u.lt(self.m21)
            && !self.m22.lt(n) && !u.lt(self.m22)
            && !self.m23.lt(n) && !u.lt(self.m23)
            && !self.m31.lt(n) && !u.lt(self.m31)
            && !self.m32.lt(n) && !u.lt(self.m32)
            && !self.m33.lt(n) && !u.lt(self.m33)
    }

    /// A matrix is determined by its view.
    pub proof fn lemma_view_injective(a: Self, b: Self)
        requires
            a@ == b@,
        ensures
            a == b,
    {
        a.m11.lemma_val();
        b.m11.lemma_val();
        a.m12.lemma_val();
        b.m12.lemma_val();
        a.m13.lemma_val();
        b.m13.lemma_val();
        a.m21.lemma_val();
        b.m21.lemma_val();
        a.m22.lemma_val();
        b.m22.lemma_val();
        a.m23.lemma_val();
        b.m23.lemma_val();
        a.m31.lemma_val();
        b.m31.lemma_val();
        a.m32.lemma_val();
        b.m32.lemma_val();
        a.m33.lemma_val();
        b.m33.lemma_val();
    }
}

impl<N> Dim for Mat3<N> {
    open spec fn dim_model() -> nat {
        3
    }

    fn dim() -> (r: usize) {
        3
    }
}

impl<N: Scalar> Zero for Mat3<N> {
    open spec fn is_zero(&self) -> bool {
        self@ == Mat3::<int>::origin()
    }

    fn zero() -> (r: Self) {
        let z = N::zero();
        proof {
            z.lemma_val();
        }
        Mat3 {
            m11: z, m12: z, m13: z,
            m21: z, m22: z, m23: z,
            m31: z, m32: z, m33: z,
        }
    }
}

impl<N: Scalar> One for Mat3<N> {
    open spec fn is_one(&self) -> bool {
        self@ == Mat3::<int>::identity()
    }

    fn one() -> (r: Self) {
        let z = N::zero();
        let u = N::one();
        proof {
            z.lemma_val();
            u.lemma_val();
        }
        Mat3 {
            m11: u, m12: z, m13: z,
            m21: z, m22: u, m23: z,
            m31: z, m32: z, m33: u,
        }
    }
}

impl<N: Scalar> Transpose for Mat3<N> {
    open spec fn transposed_model(m: Mat3<int>) -> Mat3<int> {
        m.transposed()
    }

    proof fn lemma_transpose_involution(m: Mat3<int>) {
    }

    fn transposed(&self) -> (r: Self) {
        Mat3 {
            m11: self.m11, m12: self.m21, m13: self.m31,
            m21: self.m12, m22: self.m22, m23: self.m32,
            m31: self.m13, m32: self.m23, m33: self.m33,
        }
    }

    fn transpose(&mut self) {
        *self = self.transposed();
    }
}

impl<N: Scalar> RMul<Vec3<N>> for Mat3<N> {
    open spec fn rmul_fits(m: Mat3<int>, v: Vec3<int>) -> bool {
        Mat3::<int>::apply_fits::<N>(m, v)
    }

    open spec fn rmul_model(m: Mat3<int>, v: Vec3<int>) -> Vec3<int> {
        m.apply(v)
    }

    fn rmul(&self, v: &Vec3<N>) -> (r: Vec3<N>) {
        Vec3 {
            x: self.m11.times(v.x).plus(self.m12.times(v.y)).plus(self.m13.times(v.z)),
            y: self.m21.times(v.x).plus(self.m22.times(v.y)).plus(self.m23.times(v.z)),
            z: self.m31.times(v.x).plus(self.m32.times(v.y)).plus(self.m33.times(v.z)),
        }
    }
}

impl<N: Scalar> LMul<Vec3<N>> for Mat3<N> {
    open spec fn lmul_fits(m: Mat3<int>, v: Vec3<int>) -> bool {
        Mat3::<int>::apply_left_fits::<N>(m, v)
    }

    open spec fn lmul_model(m: Mat3<int>, v: Vec3<int>) -> Vec3<int> {
        m.apply_left(v)
    }

    fn lmul(&self, v: &Vec3<N>) -> (r: Vec3<N>) {
        Vec3 {
            x: v.x.times(self.m11).plus(v.y.times(self.m21)).plus(v.z.times(self.m31)),
            y: v.x.times(self.m12).plus(v.y.times(self.m22)).plus(v.z.times(self.m32)),
            z: v.x.times(self.m13).plus(v.y.times(self.m23)).plus(v.z.times(self.m33)),
        }
    }
}

impl<N: Scalar> Mat<Vec3<N>, Vec3<N>> for Mat3<N> {
}

impl<N: Scalar> Absolute<Mat3<N>> for Mat3<N> {
    open spec fn absolute_fits(m: Mat3<int>) -> bool {
        m.abs().fits::<N>()
    }

    open spec fn absolute_model(m: Mat3<int>) -> Mat3<int> {
        m.abs()
    }

    fn absolute(&self) -> (r: Mat3<N>) {
        Mat3 {
            m11: self.m11.abs(),
            m12: self.m12.abs(),
            m13: self.m13.abs(),
            m21: self.m21.abs(),
            m22: self.m22.abs(),
            m23: self.m23.abs(),
            m31: self.m31.abs(),
            m32: self.m32.abs(),
            m33: self.m33.abs(),
        }
    }
}

impl<N: Scalar> ToHomogeneous<Mat4<N>> for Mat3<N> {
    open spec fn to_homogeneous_model(m: Mat3<int>) -> Mat4<int> {
        m.lifted()
    }

    fn to_homogeneous(&self) -> (r: Mat4<N>) {
        let z = N::zero();
        let u = N::one();
        proof {
            z.lemma_val();
            u.lemma_val();
        }
        Mat4 {
            m11: self.m11, m12: self.m12, m13: self.m13, m14: z,
            m21: self.m21, m22: self.m22, m23: self.m23, m24: z,
            m31: self.m31, m32: self.m32, m33: self.m33, m34: z,
            m41: z, m42: z, m43: z, m44: u,
        }
    }
}

impl<N: Scalar> FromHomogeneous<Mat4<N>> for Mat3<N> {
    open spec fn from_fits(m: Mat4<int>) -> bool {
        true
    }

    open spec fn from_model(m: Mat4<int>) -> Mat3<int> {
        m.lowered()
    }

    fn from(m: &Mat4<N>) -> (r: Self) {
        Mat3 {
            m11: m.m11, m12: m.m12, m13: m.m13,
            m21: m.m21, m22: m.m22, m23: m.m23,
            m31: m.m31, m32: m.m32, m33: m.m33,
        }
    }
}

impl<N: Cast<M>, M: Scalar> MatCast<Mat3<M>> for Mat3<N> {
    open spec fn cast_fits(m: Mat3<int>) -> bool {
        m.fits::<M>()
    }

    open spec fn cast_model(m: Mat3<int>) -> Mat3<int> {
        m
    }

    fn from(m: Self) -> (r: Mat3<M>) {
        Mat3 {
            m11: m.m11.cast(),
            m12: m.m12.cast(),
            m13: m.m13.cast(),
            m21: m.m21.cast(),
            m22: m.m22.cast(),
            m23: m.m23.cast(),
            m31: m.m31.cast(),
            m32: m.m32.cast(),
            m33: m.m33.cast(),
        }
    }
}

impl<N: Scalar> Mat3<N> {
    /// Row 1.
    pub fn row1(&self) -> (r: Vec3<N>)
        ensures
            r@ == self@.row1(),
    {
        Vec3 { x: self.m11, y: self.m12, z: self.m13 }
    }

    /// Row 2.
    pub fn row2(&self) -> (r: Vec3<N>)
        ensures
            r@ == self@.row2(),
    {
        Vec3 { x: self.m21, y: self.m22, z: self.m23 }
    }

    /// Row 3.
    pub fn row3(&self) -> (r: Vec3<N>)
        ensures
            r@ == self@.row3(),
    {
        Vec3 { x: self.m31, y: self.m32, z: self.m33 }
    }

    /// The matrix with the given columns.
    pub fn from_cols(c1: Vec3<N>, c2: Vec3<N>, c3: Vec3<N>) -> (r: Self)
        ensures
            r@ == Mat3::<int>::from_rows(c1@, c2@, c3@).transposed(),
    {
        Mat3 {
            m11: c1.x, m12: c2.x, m13: c3.x,
            m21: c1.y, m22: c2.y, m23: c3.y,
            m31: c1.z, m32: c2.z, m33: c3.z,
        }
    }
}

impl<N: Scalar> Inv for Mat3<N> {
    open spec fn inv_fits(m: Mat3<int>) -> bool {
        let r1 = m.row1();
        let r2 = m.row2();
        let r3 = m.row3();
        &&& <Vec3<N> as Cross<Vec3<N>>>::cross_fits(r2, r3)
        &&& <Vec3<N> as Dot<N>>::dot_fits(r1, r2.cross(r3))
        &&& m.det() == 1 ==> {
            &&& <Vec3<N> as Cross<Vec3<N>>>::cross_fits(r3, r1)
            &&& <Vec3<N> as Cross<Vec3<N>>>::cross_fits(r1, r2)
        }
        &&& m.det() == -1 ==> {
            &&& <Vec3<N> as Cross<Vec3<N>>>::cross_fits(r3, r2)
            &&& <Vec3<N> as Cross<Vec3<N>>>::cross_fits(r1, r3)
            &&& <Vec3<N> as Cross<Vec3<N>>>::cross_fits(r2, r1)
        }
        &&& m.det() != 0 ==> m.is_unimodular()
    }

    open spec fn invertible(m: Mat3<int>) -> bool {
        m.det() != 0
    }

    open spec fn inverse_model(m: Mat3<int>) -> Mat3<int> {
        m.inverse()
    }

    fn inverted(&self) -> (r: Option<Self>) {
        let u = N::one();
        proof {
            u.lemma_val();
            N::lemma_range();
        }
        let r1 = self.row1();
        let r2 = self.row2();
        let r3 = self.row3();
        let c1: Vec3<N> = r2.cross(&r3);
        let det = r1.dot(&c1);
        if det.same(u) {
            let c2: Vec3<N> = r3.cross(&r1);
            let c3: Vec3<N> = r1.cross(&r2);
            Some(Mat3::from_cols(c1, c2, c3))
        } else if det.same(u.neg()) {
            proof {
                lemma_cross_anticommutative(r3@, r2@);
                lemma_cross_anticommutative(r1@, r3@);
                lemma_cross_anticommutative(r2@, r1@);
            }
            let c1: Vec3<N> = r3.cross(&r2);
            let c2: Vec3<N> = r1.cross(&r3);
            let c3: Vec3<N> = r2.cross(&r1);
            Some(Mat3::from_cols(c1, c2, c3))
        } else {
            None
        }
    }

    fn invert(&mut self) -> (ok: bool) {
        match self.inverted() {
            Some(m) => {
                *self = m;
                true
            },
            None => false,
        }
    }
}

/// A square matrix of dimension four; `m23` is the component of row 2 and
/// column 3.
#[derive(Clone, Copy, Debug, PartialEq, Eq)]
pub struct Mat4<N> {
    pub m11: N,
    pub m12: N,
    pub m13: N,
    pub m14: N,
    pub m21: N,
    pub m22: N,
    pub m23: N,
    pub m24: N,
    pub m31: N,
    pub m32: N,
    pub m33: N,
    pub m34: N,
    pub m41: N,
    pub m42: N,
    pub m43: N,
    pub m44: N,
}

impl<N> Mat4<N> {
    /// The matrix with the given components, row by row.
    pub fn new(
        m11: N, m12: N, m13: N, m14: N,
        m21: N, m22: N, m23: N, m24: N,
        m31: N, m32: N, m33: N, m34: N,
        m41: N, m42: N, m43: N, m44: N,
    ) -> (r: Self)
        ensures
            r == (Mat4 { m11, m12, m13, m14, m21, m22, m23, m24, m31, m32, m33, m34, m41, m42, m43,
                m44 }),
    {
        Mat4 { m11, m12, m13, m14, m21, m22, m23, m24, m31, m32, m33, m34, m41, m42, m43, m44 }
    }
}

impl<N: Scalar> View for Mat4<N> {
    type V = Mat4<int>;

    open spec fn view(&self) -> Mat4<int> {
        Mat4 {
            m11: self.m11.val(), m12: self.m12.val(), m13: self.m13.val(), m14: self.m14.val(),
            m21: self.m21.val(), m22: self.m22.val(), m23: self.m23.val(), m24: self.m24.val(),
            m31: self.m31.val(), m32: self.m32.val(), m33: self.m33.val(), m34: self.m34.val(),
            m41: self.m41.val(), m42: self.m42.val(), m43: self.m43.val(), m44: self.m44.val(),
        }
    }
}

impl Mat4<int> {
    /// The zero matrix.
    pub open spec fn origin() -> Self {
        Mat4 {
            m11: 0, m12: 0, m13: 0, m14: 0,
            m21: 0, m22: 0, m23: 0, m24: 0,
            m31: 0, m32: 0, m33: 0, m34: 0,
            m41: 0, m42: 0, m43: 0, m44: 0,
        }
    }

    /// The identity matrix.
    pub open spec fn identity() -> Self {
        Mat4 {
            m11: 1, m12: 0, m13: 0, m14: 0,
            m21: 0, m22: 1, m23: 0, m24: 0,
            m31: 0, m32: 0, m33: 1, m34: 0,
            m41: 0, m42: 0, m43: 0, m44: 1,
        }
    }

    /// Whether every component is representable in the scalar type `N`.
    pub open spec fn fits<N: Scalar>(self) -> bool {
        &&& fits::<N>(self.m11)
        &&& fits::<N>(self.m12)
        &&& fits::<N>(self.m13)
        &&& fits::<N>(self.m14)
        &&& fits::<N>(self.m21)
        &&& fits::<N>(self.m22)
        &&& fits::<N>(self.m23)
        &&& fits::<N>(self.m24)
        &&& fits::<N>(self.m31)
        &&& fits::<N>(self.m32)
        &&& fits::<N>(self.m33)
        &&& fits::<N>(self.m34)
        &&& fits::<N>(self.m41)
        &&& fits::<N>(self.m42)
        &&& fits::<N>(self.m43)
        &&& fits::<N>(self.m44)
    }

    /// Row 1.
    pub open spec fn row1(self) -> Vec4<int> {
        Vec4 { x: self.m11, y: self.m12, z: self.m13, w: self.m14 }
    }

    /// Row 2.
    pub open spec fn row2(self) -> Vec4<int> {
        Vec4 { x: self.m21, y: self.m22, z: self.m23, w: self.m24 }
    }

    /// Row 3.
    pub open spec fn row3(self) -> Vec4<int> {
        Vec4 { x: self.m31, y: self.m32, z: self.m33, w: self.m34 }
    }

    /// Row 4.
    pub open spec fn row4(self) -> Vec4<int> {
        Vec4 { x: self.m41, y: self.m42, z: self.m43, w: self.m44 }
    }

    /// Column 1.
    pub open spec fn col1(self) -> Vec4<int> {
        Vec4 { x: self.m11, y: self.m21, z: self.m31, w: self.m41 }
    }

    /// Column 2.
    pub open spec fn col2(self) -> Vec4<int> {
        Vec4 { x: self.m12, y: self.m22, z: self.m32, w: self.m42 }
    }

    /// Column 3.
    pub open spec fn col3(self) -> Vec4<int> {
        Vec4 { x: self.m13, y: self.m23, z: self.m33, w: self.m43 }
    }

    /// Column 4.
    pub open spec fn col4(self) -> Vec4<int> {
        Vec4 { x: self.m14, y: self.m24, z: self.m34, w: self.m44 }
    }

    /// The transpose.
    pub open spec fn transposed(self) -> Self {
        Mat4 {
            m11: self.m11, m12: self.m21, m13: self.m31, m14: self.m41,
            m21: self.m12, m22: self.m22, m23: self.m32, m24: self.m42,
            m31: self.m13, m32: self.m23, m33: self.m33, m34: self.m43,
            m41: self.m14, m42: self.m24, m43: self.m34, m44: self.m44,
        }
    }

    /// Additive inverse.
    pub open spec fn opposite(self) -> Self {
        Mat4 {
            m11: -self.m11, m12: -self.m12, m13: -self.m13, m14: -self.m14,
            m21: -self.m21, m22: -self.m22, m23: -self.m23, m24: -self.m24,
            m31: -self.m31, m32: -self.m32, m33: -self.m33, m34: -self.m34,
            m41: -self.m41, m42: -self.m42, m43: -self.m43, m44: -self.m44,
        }
    }

    /// Every component multiplied by `k`.
    pub open spec fn scale(self, k: int) -> Self {
        Mat4 {
            m11: self.m11 * k, m12: self.m12 * k, m13: self.m13 * k, m14: self.m14 * k,
            m21: self.m21 * k, m22: self.m22 * k, m23: self.m23 * k, m24: self.m24 * k,
            m31: self.m31 * k, m32: self.m32 * k, m33: self.m33 * k, m34: self.m34 * k,
            m41: self.m41 * k, m42: self.m42 * k, m43: self.m43 * k, m44: self.m44 * k,
        }
    }

    /// Component-wise absolute value.
    pub open spec fn abs(self) -> Self {
        Mat4 {
            m11: abs_int(self.m11), m12: abs_int(self.m12), m13: abs_int(self.m13),
                m14: abs_int(self.m14),
            m21: abs_int(self.m21), m22: abs_int(self.m22), m23: abs_int(self.m23),
                m24: abs_int(self.m24),
            m31: abs_int(self.m31), m32: abs_int(self.m32), m33: abs_int(self.m33),
                m34: abs_int(self.m34),
            m41: abs_int(self.m41), m42: abs_int(self.m42), m43: abs_int(self.m43),
                m44: abs_int(self.m44),
        }
    }

    /// The matrix product `self * o`.
    pub open spec fn times(self, o: Self) -> Self {
        Mat4 {
            m11: self.row1().dot(o.col1()),
            m12: self.row1().dot(o.col2()),
            m13: self.row1().dot(o.col3()),
            m14: self.row1().dot(o.col4()),
            m21: self.row2().dot(o.col1()),
            m22: self.row2().dot(o.col2()),
            m23: self.row2().dot(o.col3()),
            m24: self.row2().dot(o.col4()),
            m31: self.row3().dot(o.col1()),
            m32: self.row3().dot(o.col2()),
            m33: self.row3().dot(o.col3()),
            m34: self.row3().dot(o.col4()),
            m41: self.row4().dot(o.col1()),
            m42: self.row4().dot(o.col2()),
            m43: self.row4().dot(o.col3()),
            m44: self.row4().dot(o.col4()),
        }
    }

    /// Whether every step of the product `a * b` is representable in `N`.
    pub open spec fn times_fits<N: Scalar>(a: Self, b: Self) -> bool {
        &&& <Vec4<N> as Dot<N>>::dot_fits(a.row1(), b.col1())
        &&& <Vec4<N> as Dot<N>>::dot_fits(a.row1(), b.col2())
        &&& <Vec4<N> as Dot<N>>::dot_fits(a.row1(), b.col3())
        &&& <Vec4<N> as Dot<N>>::dot_fits(a.row1(), b.col4())
        &&& <Vec4<N> as Dot<N>>::dot_fits(a.row2(), b.col1())
        &&& <Vec4<N> as Dot<N>>::dot_fits(a.row2(), b.col2())
        &&& <Vec4<N> as Dot<N>>::dot_fits(a.row2(), b.col3())
        &&& <Vec4<N> as Dot<N>>::dot_fits(a.row2(), b.col4())
        &&& <Vec4<N> as Dot<N>>::dot_fits(a.row3(), b.col1())
        &&& <Vec4<N> as Dot<N>>::dot_fits(a.row3(), b.col2())
        &&& <Vec4<N> as Dot<N>>::dot_fits(a.row3(), b.col3())
        &&& <Vec4<N> as Dot<N>>::dot_fits(a.row3(), b.col4())
        &&& <Vec4<N> as Dot<N>>::dot_fits(a.row4(), b.col1())
        &&& <Vec4<N> as Dot<N>>::dot_fits(a.row4(), b.col2())
        &&& <Vec4<N> as Dot<N>>::dot_fits(a.row4(), b.col3())
        &&& <Vec4<N> as Dot<N>>::dot_fits(a.row4(), b.col4())
    }

    /// The product `self * v`, with `v` as a column.
    pub open spec fn apply(self, v: Vec4<int>) -> Vec4<int> {
        Vec4 { x: self.row1().dot(v), y: self.row2().dot(v), z: self.row3().dot(v),
            w: self.row4().dot(v) }
    }

    /// Whether every step of the product `m * v` is representable in `N`.
    pub open spec fn apply_fits<N: Scalar>(m: Self, v: Vec4<int>) -> bool {
        &&& <Vec4<N> as Dot<N>>::dot_fits(m.row1(), v)
        &&& <Vec4<N> as Dot<N>>::dot_fits(m.row2(), v)
        &&& <Vec4<N> as Dot<N>>::dot_fits(m.row3(), v)
        &&& <Vec4<N> as Dot<N>>::dot_fits(m.row4(), v)
    }

    /// The product `v * self`, with `v` as a row.
    pub open spec fn apply_left(self, v: Vec4<int>) -> Vec4<int> {
        Vec4 { x: v.dot(self.col1()), y: v.dot(self.col2()), z: v.dot(self.col3()),
            w: v.dot(self.col4()) }
    }

    /// Whether every step of the product `v * m` is representable in `N`.
    pub open spec fn apply_left_fits<N: Scalar>(m: Self, v: Vec4<int>) -> bool {
        &&& <Vec4<N> as Dot<N>>::dot_fits(v, m.col1())
        &&& <Vec4<N> as Dot<N>>::dot_fits(v, m.col2())
        &&& <Vec4<N> as Dot<N>>::dot_fits(v, m.col3())
        &&& <Vec4<N> as Dot<N>>::dot_fits(v, m.col4())
    }

    /// Whether every component is `-1`, `0` or `1`.
    pub open spec fn within_unit(self) -> bool {
        &&& -1 <= self.m11 <= 1
        &&& -1 <= self.m12 <= 1
        &&& -1 <= self.m13 <= 1
        &&& -1 <= self.m14 <= 1
        &&& -1 <= self.m21 <= 1
        &&& -1 <= self.m22 <= 1
        &&& -1 <= self.m23 <= 1
        &&& -1 <= self.m24 <= 1
        &&& -1 <= self.m31 <= 1
        &&& -1 <= self.m32 <= 1
        &&& -1 <= self.m33 <= 1
        &&& -1 <= self.m34 <= 1
        &&& -1 <= self.m41 <= 1
        &&& -1 <= self.m42 <= 1
        &&& -1 <= self.m43 <= 1
        &&& -1 <= self.m44 <= 1
    }

    /// Whether the matrix is orthogonal: its transpose is its inverse.
    pub open spec fn is_orthogonal(self) -> bool {
        &&& self.times(self.transposed()) == Self::identity()
        &&& self.transposed().times(self) == Self::identity()
    }

    /// The matrix as the upper left block of a matrix one dimension larger,
    /// which is the identity elsewhere.
    pub open spec fn lifted(self) -> Mat5<int> {
        Mat5 {
            m11: self.m11, m12: self.m12, m13: self.m13, m14: self.m14, m15: 0,
            m21: self.m21, m22: self.m22, m23: self.m23, m24: self.m24, m25: 0,
            m31: self.m31, m32: self.m32, m33: self.m33, m34: self.m34, m35: 0,
            m41: self.m41, m42: self.m42, m43: self.m43, m44: self.m44, m45: 0,
            m51: 0, m52: 0, m53: 0, m54: 0, m55: 1,
        }
    }

    /// The upper left block, one dimension smaller.
    pub open spec fn lowered(self) -> Mat3<int> {
        Mat3 {
            m11: self.m11, m12: self.m12, m13: self.m13,
            m21: self.m21, m22: self.m22, m23: self.m23,
            m31: self.m31, m32: self.m32, m33: self.m33,
        }
    }

    /// The matrix with the given rows.
    pub open spec fn from_rows(r1: Vec4<int>, r2: Vec4<int>, r3: Vec4<int>, r4: Vec4<int>) -> Self {
        Mat4 {
            m11: r1.x, m12: r1.y, m13: r1.z, m14: r1.w,
            m21: r2.x, m22: r2.y, m23: r2.z, m24: r2.w,
            m31: r3.x, m32: r3.y, m33: r3.z, m34: r3.w,
            m41: r4.x, m42: r4.y, m43: r4.z, m44: r4.w,
        }
    }

    /// The cofactors: each the determinant of the matrix without a row and
    /// a column, with the sign of its place.
    pub open spec fn cofactors(self) -> Self {
        Self::from_rows(
            self.row2().cross3(self.row3(), self.row4()),
            self.row1().cross3(self.row4(), self.row3()),
            self.row1().cross3(self.row2(), self.row4()),
            self.row1().cross3(self.row3(), self.row2()),
        )
    }

    /// The determinant.
    pub open spec fn det(self) -> int {
        self.row1().det4(self.row2(), self.row3(), self.row4())
    }

    /// The adjugate: the matrix whose product with `self` is the
    /// determinant times the identity.
    pub open spec fn adjugate(self) -> Self {
        self.cofactors().transposed()
    }

    /// Whether the determinant is `1` or `-1`.
    pub open spec fn is_unimodular(self) -> bool {
        self.det() == 1 || self.det() == -1
    }

    /// Whether the matrix has an inverse with integer components.
    pub open spec fn has_inverse(self) -> bool {
        exists|x: Self| #[trigger] self.times(x) == Self::identity()
    }

    /// The inverse of a matrix that has one.
    pub open spec fn inverse(self) -> Self {
        if self.det() == 1 {
            self.adjugate()
        } else {
            self.adjugate().opposite()
        }
    }
}

impl<N: Scalar> Mat4<N> {
    /// The matrix product `self * o`.
    pub fn times(&self, o: &Self) -> (r: Self)
        requires
            Mat4::<int>::times_fits::<N>(self@, o@),
        ensures
            r@ == self@.times(o@),
    {
        Mat4 {
            m11: self.m11.times(o.m11).plus(self.m12.times(o.m21)).plus(self.m13.times(o.m31))
                .plus(self.m14.times(o.m41)),
            m12: self.m11.times(o.m12).plus(self.m12.times(o.m22)).plus(self.m13.times(o.m32))
                .plus(self.m14.times(o.m42)),
            m13: self.m11.times(o.m13).plus(self.m12.times(o.m23)).plus(self.m13.times(o.m33))
                .plus(self.m14.times(o.m43)),
            m14: self.m11.times(o.m14).plus(self.m12.times(o.m24)).plus(self.m13.times(o.m34))
                .plus(self.m14.times(o.m44)),
            m21: self.m21.times(o.m11).plus(self.m22.times(o.m21)).plus(self.m23.times(o.m31))
                .plus(self.m24.times(o.m41)),
            m22: self.m21.times(o.m12).plus(self.m22.times(o.m22)).plus(self.m23.times(o.m32))
                .plus(self.m24.times(o.m42)),
            m23: self.m21.times(o.m13).plus(self.m22.times(o.m23)).plus(self.m23.times(o.m33))
                .plus(self.m24.times(o.m43)),
            m24: self.m21.times(o.m14).plus(self.m22.times(o.m24)).plus(self.m23.times(o.m34))
                .plus(self.m24.times(o.m44)),
            m31: self.m31.times(o.m11).plus(self.m32.times(o.m21)).plus(self.m33.times(o.m31))
                .plus(self.m34.times(o.m41)),
            m32: self.m31.times(o.m12).plus(self.m32.times(o.m22)).plus(self.m33.times(o.m32))
                .plus(self.m34.times(o.m42)),
            m33: self.m31.times(o.m13).plus(self.m32.times(o.m23)).plus(self.m33.times(o.m33))
                .plus(self.m34.times(o.m43)),
            m34: self.m31.times(o.m14).plus(self.m32.times(o.m24)).plus(self.m33.times(o.m34))
                .plus(self.m34.times(o.m44)),
            m41: self.m41.times(o.m11).plus(self.m42.times(o.m21)).plus(self.m43.times(o.m31))
                .plus(self.m44.times(o.m41)),
            m42: self.m41.times(o.m12).plus(self.m42.times(o.m22)).plus(self.m43.times(o.m32))
                .plus(self.m44.times(o.m42)),
            m43: self.m41.times(o.m13).plus(self.m42.times(o.m23)).plus(self.m43.times(o.m33))
                .plus(self.m44.times(o.m43)),
            m44: self.m41.times(o.m14).plus(self.m42.times(o.m24)).plus(self.m43.times(o.m34))
                .plus(self.m44.times(o.m44)),
        }
    }

    /// Every component multiplied by `k`.
    pub fn scaled(&self, k: N) -> (r: Self)
        requires
            self@.scale(k.val()).fits::<N>(),
        ensures
            r@ == self@.scale(k.val()),
    {
        Mat4 {
            m11: self.m11.times(k),
            m12: self.m12.times(k),
            m13: self.m13.times(k),
            m14: self.m14.times(k),
            m21: self.m21.times(k),
            m22: self.m22.times(k),
            m23: self.m23.times(k),
            m24: self.m24.times(k),
            m31: self.m31.times(k),
            m32: self.m32.times(k),
            m33: self.m33.times(k),
            m34: self.m34.times(k),
            m41: self.m41.times(k),
            m42: self.m42.times(k),
            m43: self.m43.times(k),
            m44: self.m44.times(k),
        }
    }

    /// The additive inverse.
    pub fn opposite(&self) -> (r: Self)
        requires
            self@.opposite().fits::<N>(),
        ensures
            r@ == self@.opposite(),
    {
        Mat4 {
            m11: self.m11.neg(),
            m12: self.m12.neg(),
            m13: self.m13.neg(),
            m14: self.m14.neg(),
            m21: self.m21.neg(),
            m22: self.m22.neg(),
            m23: self.m23.neg(),
            m24: self.m24.neg(),
            m31: self.m31.neg(),
            m32: self.m32.neg(),
            m33: self.m33.neg(),
            m34: self.m34.neg(),
            m41: self.m41.neg(),
            m42: self.m42.neg(),
            m43: self.m43.neg(),
            m44: self.m44.neg(),
        }
    }

    /// Whether `self` and `o` have the same components.
    pub fn same(&self, o: &Self) -> (r: bool)
        ensures
            r == (self@ == o@),
    {
        self.m11.same(o.m11)
            && self.m12.same(o.m12)
            && self.m13.same(o.m13)
            && self.m14.same(o.m14)
            && self.m21.same(o.m21)
            && self.m22.same(o.m22)
            && self.m23.same(o.m23)
            && self.m24.same(o.m24)
            && self.m31.same(o.m31)
            && self.m32.same(o.m32)
            && self.m33.same(o.m33)
            && self.m34.same(o.m34)
            && self.m41.same(o.m41)
            && self.m42.same(o.m42)
            && self.m43.same(o.m43)
            && self.m44.same(o.m44)
    }

    /// Whether every component of `self` is `-1`, `0` or `1`.
    pub fn is_within_unit(&self) -> (r: bool)
        ensures
            r == self@.within_unit(),
    {
        let u = N::one();
        proof {
            u.lemma_val();
            N::lemma_range();
        }
        let n = u.neg();
        !self.m11.lt(n) && !u.lt(self.m11)
            && !self.m12.lt(n) && !u.lt(self.m12)
            && !self.m13.lt(n) && !u.lt(self.m13)
            && !self.m14.lt(n) && !u.lt(self.m14)
            && !self.m21.lt(n) && !u.lt(self.m21)
            && !self.m22.lt(n) && !u.lt(self.m22)
            && !self.m23.lt(n) && !u.lt(self.m23)
            && !self.m24.lt(n) && !u.lt(self.m24)
            && !self.m31.lt(n) && !u.lt(self.m31)
            && !self.m32.lt(n) && !u.lt(self.m32)
            && !self.m33.lt(n) && !u.lt(self.m33)
            && !self.m34.lt(n) && !u.lt(self.m34)
            && !self.m41.lt(n) && !u.lt(self.m41)
            && !self.m42.lt(n) && !u.lt(self.m42)
            && !self.m43.lt(n) && !u.lt(self.m43)
            && !self.m44.lt(n) && !u.lt(self.m44)
    }

    /// A matrix is determined by its view.
    pub proof fn lemma_view_injective(a: Self, b: Self)
        requires
            a@ == b@,
        ensures
            a == b,
    {
        a.m11.lemma_val();
        b.m11.lemma_val();
        a.m12.lemma_val();
        b.m12.lemma_val();
        a.m13.lemma_val();
        b.m13.lemma_val();
        a.m14.lemma_val();
        b.m14.lemma_val();
        a.m21.lemma_val();
        b.m21.lemma_val();
        a.m22.lemma_val();
        b.m22.lemma_val();
        a.m23.lemma_val();
        b.m23.lemma_val();
        a.m24.lemma_val();
        b.m24.lemma_val();
        a.m31.lemma_val();
        b.m31.lemma_val();
        a.m32.lemma_val();
        b.m32.lemma_val();
        a.m33.lemma_val();
        b.m33.lemma_val();
        a.m34.lemma_val();
        b.m34.lemma_val();
        a.m41.lemma_val();
        b.m41.lemma_val();
        a.m42.lemma_val();
        b.m42.lemma_val();
        a.m43.lemma_val();
        b.m43.lemma_val();
        a.m44.lemma_val();
        b.m44.lemma_val();
    }
}

impl<N> Dim for Mat4<N> {
    open spec fn dim_model() -> nat {
        4
    }

    fn dim() -> (r: usize) {
        4
    }
}

impl<N: Scalar> Zero for Mat4<N> {
    open spec fn is_zero(&self) -> bool {
        self@ == Mat4::<int>::origin()
    }

    fn zero() -> (r: Self) {
        let z = N::zero();
        proof {
            z.lemma_val();
        }
        Mat4 {
            m11: z, m12: z, m13: z, m14: z,
            m21: z, m22: z, m23: z, m24: z,
            m31: z, m32: z, m33: z, m34: z,
            m41: z, m42: z, m43: z, m44: z,
        }
    }
}

impl<N: Scalar> One for Mat4<N> {
    open spec fn is_one(&self) -> bool {
        self@ == Mat4::<int>::identity()
    }

    fn one() -> (r: Self) {
        let z = N::zero();
        let u = N::one();
        proof {
            z.lemma_val();
            u.lemma_val();
        }
        Mat4 {
            m11: u, m12: z, m13: z, m14: z,
            m21: z, m22: u, m23: z, m24: z,
            m31: z, m32: z, m33: u, m34: z,
            m41: z, m42: z, m43: z, m44: u,
        }
    }
}

impl<N: Scalar> Transpose for Mat4<N> {
    open spec fn transposed_model(m: Mat4<int>) -> Mat4<int> {
        m.transposed()
    }

    proof fn lemma_transpose_involution(m: Mat4<int>) {
    }

    fn transposed(&self) -> (r: Self) {
        Mat4 {
            m11: self.m11, m12: self.m21, m13: self.m31, m14: self.m41,
            m21: self.m12, m22: self.m22, m23: self.m32, m24: self.m42,
            m31: self.m13, m32: self.m23, m33: self.m33, m34: self.m43,
            m41: self.m14, m42: self.m24, m43: self.m34, m44: self.m44,
        }
    }

    fn transpose(&mut self) {
        *self = self.transposed();
    }
}

impl<N: Scalar> RMul<Vec4<N>> for Mat4<N> {
    open spec fn rmul_fits(m: Mat4<int>, v: Vec4<int>) -> bool {
        Mat4::<int>::apply_fits::<N>(m, v)
    }

    open spec fn rmul_model(m: Mat4<int>, v: Vec4<int>) -> Vec4<int> {
        m.apply(v)
    }

    fn rmul(&self, v: &Vec4<N>) -> (r: Vec4<N>) {
        Vec4 {
            x: self.m11.times(v.x).plus(self.m12.times(v.y)).plus(self.m13.times(v.z)).plus(self.m14
                .times(v.w)),
            y: self.m21.times(v.x).plus(self.m22.times(v.y)).plus(self.m23.times(v.z)).plus(self.m24
                .times(v.w)),
            z: self.m31.times(v.x).plus(self.m32.times(v.y)).plus(self.m33.times(v.z)).plus(self.m34
                .times(v.w)),
            w: self.m41.times(v.x).plus(self.m42.times(v.y)).plus(self.m43.times(v.z)).plus(self.m44
                .times(v.w)),
        }
    }
}

impl<N: Scalar> LMul<Vec4<N>> for Mat4<N> {
    open spec fn lmul_fits(m: Mat4<int>, v: Vec4<int>) -> bool {
        Mat4::<int>::apply_left_fits::<N>(m, v)
    }

    open spec fn lmul_model(m: Mat4<int>, v: Vec4<int>) -> Vec4<int> {
        m.apply_left(v)
    }

    fn lmul(&self, v: &Vec4<N>) -> (r: Vec4<N>) {
        Vec4 {
            x: v.x.times(self.m11).plus(v.y.times(self.m21)).plus(v.z.times(self.m31)).plus(v.w
                .times(self.m41)),
            y: v.x.times(self.m12).plus(v.y.times(self.m22)).plus(v.z.times(self.m32)).plus(v.w
                .times(self.m42)),
            z: v.x.times(self.m13).plus(v.y.times(self.m23)).plus(v.z.times(self.m33)).plus(v.w
                .times(self.m43)),
            w: v.x.times(self.m14).plus(v.y.times(self.m24)).plus(v.z.times(self.m34)).plus(v.w
                .times(self.m44)),
        }
    }
}

impl<N: Scalar> Mat<Vec4<N>, Vec4<N>> for Mat4<N> {
}

impl<N: Scalar> Absolute<Mat4<N>> for Mat4<N> {
    open spec fn absolute_fits(m: Mat4<int>) -> bool {
        m.abs().fits::<N>()
    }

    open spec fn absolute_model(m: Mat4<int>) -> Mat4<int> {
        m.abs()
    }

    fn absolute(&self) -> (r: Mat4<N>) {
        Mat4 {
            m11: self.m11.abs(),
            m12: self.m12.abs(),
            m13: self.m13.abs(),
            m14: self.m14.abs(),
            m21: self.m21.abs(),
            m22: self.m22.abs(),
            m23: self.m23.abs(),
            m24: self.m24.abs(),
            m31: self.m31.abs(),
            m32: self.m32.abs(),
            m33: self.m33.abs(),
            m34: self.m34.abs(),
            m41: self.m41.abs(),
            m42: self.m42.abs(),
            m43: self.m43.abs(),
            m44: self.m44.abs(),
        }
    }
}

impl<N: Scalar> ToHomogeneous<Mat5<N>> for Mat4<N> {
    open spec fn to_homogeneous_model(m: Mat4<int>) -> Mat5<int> {
        m.lifted()
    }

    fn to_homogeneous(&self) -> (r: Mat5<N>) {
        let z = N::zero();
        let u = N::one();
        proof {
            z.lemma_val();
            u.lemma_val();
        }
        Mat5 {
            m11: self.m11, m12: self.m12, m13: self.m13, m14: self.m14, m15: z,
            m21: self.m21, m22: self.m22, m23: self.m23, m24: self.m24, m25: z,
            m31: self.m31, m32: self.m32, m33: self.m33, m34: self.m34, m35: z,
            m41: self.m41, m42: self.m42, m43: self.m43, m44: self.m44, m45: z,
            m51: z, m52: z, m53: z, m54: z, m55: u,
        }
    }
}

impl<N: Scalar> FromHomogeneous<Mat5<N>> for Mat4<N> {
    open spec fn from_fits(m: Mat5<int>) -> bool {
        true
    }

    open spec fn from_model(m: Mat5<int>) -> Mat4<int> {
        m.lowered()
    }

    fn from(m: &Mat5<N>) -> (r: Self) {
        Mat4 {
            m11: m.m11, m12: m.m12, m13: m.m13, m14: m.m14,
            m21: m.m21, m22: m.m22, m23: m.m23, m24: m.m24,
            m31: m.m31, m32: m.m32, m33: m.m33, m34: m.m34,
            m41: m.m41, m42: m.m42, m43: m.m43, m44: m.m44,
        }
    }
}

impl<N: Cast<M>, M: Scalar> MatCast<Mat4<M>> for Mat4<N> {
    open spec fn cast_fits(m: Mat4<int>) -> bool {
        m.fits::<M>()
    }

    open spec fn cast_model(m: Mat4<int>) -> Mat4<int> {
        m
    }

    fn from(m: Self) -> (r: Mat4<M>) {
        Mat4 {
            m11: m.m11.cast(),
            m12: m.m12.cast(),
            m13: m.m13.cast(),
            m14: m.m14.cast(),
            m21: m.m21.cast(),
            m22: m.m22.cast(),
            m23: m.m23.cast(),
            m24: m.m24.cast(),
            m31: m.m31.cast(),
            m32: m.m32.cast(),
            m33: m.m33.cast(),
            m34: m.m34.cast(),
            m41: m.m41.cast(),
            m42: m.m42.cast(),
            m43: m.m43.cast(),
            m44: m.m44.cast(),
        }
    }
}

impl<N: Scalar> Mat4<N> {
    /// Row 1.
    pub fn row1(&self) -> (r: Vec4<N>)
        ensures
            r@ == self@.row1(),
    {
        Vec4 { x: self.m11, y: self.m12, z: self.m13, w: self.m14 }
    }

    /// Row 2.
    pub fn row2(&self) -> (r: Vec4<N>)
        ensures
            r@ == self@.row2(),
    {
        Vec4 { x: self.m21, y: self.m22, z: self.m23, w: self.m24 }
    }

    /// Row 3.
    pub fn row3(&self) -> (r: Vec4<N>)
        ensures
            r@ == self@.row3(),
    {
        Vec4 { x: self.m31, y: self.m32, z: self.m33, w: self.m34 }
    }

    /// Row 4.
    pub fn row4(&self) -> (r: Vec4<N>)
        ensures
            r@ == self@.row4(),
    {
        Vec4 { x: self.m41, y: self.m42, z: self.m43, w: self.m44 }
    }

    /// The matrix with the given columns.
    pub fn from_cols(c1: Vec4<N>, c2: Vec4<N>, c3: Vec4<N>, c4: Vec4<N>) -> (r: Self)
        ensures
            r@ == Mat4::<int>::from_rows(c1@, c2@, c3@, c4@).transposed(),
    {
        Mat4 {
            m11: c1.x, m12: c2.x, m13: c3.x, m14: c4.x,
            m21: c1.y, m22: c2.y, m23: c3.y, m24: c4.y,
            m31: c1.z, m32: c2.z, m33: c3.z, m34: c4.z,
            m41: c1.w, m42: c2.w, m43: c3.w, m44: c4.w,
        }
    }
}

impl<N: Scalar> Inv for Mat4<N> {
    open spec fn inv_fits(m: Mat4<int>) -> bool {
        let r1 = m.row1();
        let r2 = m.row2();
        let r3 = m.row3();
        let r4 = m.row4();
        &&& Vec4::<int>::cross3_fits::<N>(r2, r3, r4)
        &&& <Vec4<N> as Dot<N>>::dot_fits(r1, r2.cross3(r3, r4))
        &&& m.det() == 1 ==> {
            &&& Vec4::<int>::cross3_fits::<N>(r1, r4, r3)
            &&& Vec4::<int>::cross3_fits::<N>(r1, r2, r4)
            &&& Vec4::<int>::cross3_fits::<N>(r1, r3, r2)
        }
        &&& m.det() == -1 ==> {
            &&& Vec4::<int>::cross3_fits::<N>(r2, r4, r3)
            &&& Vec4::<int>::cross3_fits::<N>(r1, r3, r4)
            &&& Vec4::<int>::cross3_fits::<N>(r1, r4, r2)
            &&& Vec4::<int>::cross3_fits::<N>(r1, r2, r3)
        }
        &&& m.det() != 0 ==> m.is_unimodular()
    }

    open spec fn invertible(m: Mat4<int>) -> bool {
        m.det() != 0
    }

    open spec fn inverse_model(m: Mat4<int>) -> Mat4<int> {
        m.inverse()
    }

    fn inverted(&self) -> (r: Option<Self>) {
        let u = N::one();
        proof {
            u.lemma_val();
            N::lemma_range();
        }
        let r1 = self.row1();
        let r2 = self.row2();
        let r3 = self.row3();
        let r4 = self.row4();
        let c1 = r2.cross3(&r3, &r4);
        let det = r1.dot(&c1);
        if det.same(u) {
            let c2 = r1.cross3(&r4, &r3);
            let c3 = r1.cross3(&r2, &r4);
            let c4 = r1.cross3(&r3, &r2);
            Some(Mat4::from_cols(c1, c2, c3, c4))
        } else if det.same(u.neg()) {
            proof {
                lemma_cross3_swap_last(r2@, r3@, r4@);
                lemma_cross3_swap_last(r1@, r4@, r3@);
                lemma_cross3_swap_last(r1@, r2@, r4@);
                lemma_cross3_swap_last(r1@, r3@, r2@);
            }
            let c1 = r2.cross3(&r4, &r3);
            let c2 = r1.cross3(&r3, &r4);
            let c3 = r1.cross3(&r4, &r2);
            let c4 = r1.cross3(&r2, &r3);
            Some(Mat4::from_cols(c1, c2, c3, c4))
        } else {
            None
        }
    }

    fn invert(&mut self) -> (ok: bool) {
        match self.inverted() {
            Some(m) => {
                *self = m;
                true
            },
            None => false,
        }
    }
}

/// A square matrix of dimension five; `m23` is the component of row 2 and
/// column 3.
#[derive(Clone, Copy, Debug, PartialEq, Eq)]
pub struct Mat5<N> {
    pub m11: N,
    pub m12: N,
    pub m13: N,
    pub m14: N,
    pub m15: N,
    pub m21: N,
    pub m22: N,
    pub m23: N,
    pub m24: N,
    pub m25: N,
    pub m31: N,
    pub m32: N,
    pub m33: N,
    pub m34: N,
    pub m35: N,
    pub m41: N,
    pub m42: N,
    pub m43: N,
    pub m44: N,
    pub m45: N,
    pub m51: N,
    pub m52: N,
    pub m53: N,
    pub m54: N,
    pub m55: N,
}

impl<N> Mat5<N> {
    /// The matrix with the given components, row by row.
    pub fn new(
        m11: N, m12: N, m13: N, m14: N, m15: N,
        m21: N, m22: N, m23: N, m24: N, m25: N,
        m31: N, m32: N, m33: N, m34: N, m35: N,
        m41: N, m42: N, m43: N, m44: N, m45: N,
        m51: N, m52: N, m53: N, m54: N, m55: N,
    ) -> (r: Self)
        ensures
            r == (Mat5 { m11, m12, m13, m14, m15, m21, m22, m23, m24, m25, m31, m32, m33, m34, m35,
                m41, m42, m43, m44, m45, m51, m52, m53, m54, m55 }),
    {
        Mat5 { m11, m12, m13, m14, m15, m21, m22, m23, m24, m25, m31, m32, m33, m34, m35, m41, m42,
            m43, m44, m45, m51, m52, m53, m54, m55 }
    }
}

impl<N: Scalar> View for Mat5<N> {
    type V = Mat5<int>;

    open spec fn view(&self) -> Mat5<int> {
        Mat5 {
            m11: self.m11.val(), m12: self.m12.val(), m13: self.m13.val(), m14: self.m14.val(),
                m15: self.m15.val(),
            m21: self.m21.val(), m22: self.m22.val(), m23: self.m23.val(), m24: self.m24.val(),
                m25: self.m25.val(),
            m31: self.m31.val(), m32: self.m32.val(), m33: self.m33.val(), m34: self.m34.val(),
                m35: self.m35.val(),
            m41: self.m41.val(), m42: self.m42.val(), m43: self.m43.val(), m44: self.m44.val(),
                m45: self.m45.val(),
            m51: self.m51.val(), m52: self.m52.val(), m53: self.m53.val(), m54: self.m54.val(),
                m55: self.m55.val(),
        }
    }
}

impl Mat5<int> {
    /// The zero matrix.
    pub open spec fn origin() -> Self {
        Mat5 {
            m11: 0, m12: 0, m13: 0, m14: 0, m15: 0,
            m21: 0, m22: 0, m23: 0, m24: 0, m25: 0,
            m31: 0, m32: 0, m33: 0, m34: 0, m35: 0,
            m41: 0, m42: 0, m43: 0, m44: 0, m45: 0,
            m51: 0, m52: 0, m53: 0, m54: 0, m55: 0,
        }
    }

    /// The identity matrix.
    pub open spec fn identity() -> Self {
        Mat5 {
            m11: 1, m12: 0, m13: 0, m14: 0, m15: 0,
            m21: 0, m22: 1, m23: 0, m24: 0, m25: 0,
            m31: 0, m32: 0, m33: 1, m34: 0, m35: 0,
            m41: 0, m42: 0, m43: 0, m44: 1, m45: 0,
            m51: 0, m52: 0, m53: 0, m54: 0, m55: 1,
        }
    }

    /// Whether every component is representable in the scalar type `N`.
    pub open spec fn fits<N: Scalar>(self) -> bool {
        &&& fits::<N>(self.m11)
        &&& fits::<N>(self.m12)
        &&& fits::<N>(self.m13)
        &&& fits::<N>(self.m14)
        &&& fits::<N>(self.m15)
        &&& fits::<N>(self.m21)
        &&& fits::<N>(self.m22)
        &&& fits::<N>(self.m23)
        &&& fits::<N>(self.m24)
        &&& fits::<N>(self.m25)
        &&& fits::<N>(self.m31)
        &&& fits::<N>(self.m32)
        &&& fits::<N>(self.m33)
        &&& fits::<N>(self.m34)
        &&& fits::<N>(self.m35)
        &&& fits::<N>(self.m41)
        &&& fits::<N>(self.m42)
        &&& fits::<N>(self.m43)
        &&& fits::<N>(self.m44)
        &&& fits::<N>(self.m45)
        &&& fits::<N>(self.m51)
        &&& fits::<N>(self.m52)
        &&& fits::<N>(self.m53)
        &&& fits::<N>(self.m54)
        &&& fits::<N>(self.m55)
    }

    /// Row 1.
    pub open spec fn row1(self) -> Vec5<int> {
        Vec5 { x: self.m11, y: self.m12, z: self.m13, w: self.m14, a: self.m15 }
    }

    /// Row 2.
    pub open spec fn row2(self) -> Vec5<int> {
        Vec5 { x: self.m21, y: self.m22, z: self.m23, w: self.m24, a: self.m25 }
    }

    /// Row 3.
    pub open spec fn row3(self) -> Vec5<int> {
        Vec5 { x: self.m31, y: self.m32, z: self.m33, w: self.m34, a: self.m35 }
    }

    /// Row 4.
    pub open spec fn row4(self) -> Vec5<int> {
        Vec5 { x: self.m41, y: self.m42, z: self.m43, w: self.m44, a: self.m45 }
    }

    /// Row 5.
    pub open spec fn row5(self) -> Vec5<int> {
        Vec5 { x: self.m51, y: self.m52, z: self.m53, w: self.m54, a: self.m55 }
    }

    /// Column 1.
    pub open spec fn col1(self) -> Vec5<int> {
        Vec5 { x: self.m11, y: self.m21, z: self.m31, w: self.m41, a: self.m51 }
    }

    /// Column 2.
    pub open spec fn col2(self) -> Vec5<int> {
        Vec5 { x: self.m12, y: self.m22, z: self.m32, w: self.m42, a: self.m52 }
    }

    /// Column 3.
    pub open spec fn col3(self) -> Vec5<int> {
        Vec5 { x: self.m13, y: self.m23, z: self.m33, w: self.m43, a: self.m53 }
    }

    /// Column 4.
    pub open spec fn col4(self) -> Vec5<int> {
        Vec5 { x: self.m14, y: self.m24, z: self.m34, w: self.m44, a: self.m54 }
    }

    /// Column 5.
    pub open spec fn col5(self) -> Vec5<int> {
        Vec5 { x: self.m15, y: self.m25, z: self.m35, w: self.m45, a: self.m55 }
    }

    /// The transpose.
    pub open spec fn transposed(self) -> Self {
        Mat5 {
            m11: self.m11, m12: self.m21, m13: self.m31, m14: self.m41, m15: self.m51,
            m21: self.m12, m22: self.m22, m23: self.m32, m24: self.m42, m25: self.m52,
            m31: self.m13, m32: self.m23, m33: self.m33, m34: self.m43, m35: self.m53,
            m41: self.m14, m42: self.m24, m43: self.m34, m44: self.m44, m45: self.m54,
            m51: self.m15, m52: self.m25, m53: self.m35, m54: self.m45, m55: self.m55,
        }
    }

    /// Additive inverse.
    pub open spec fn opposite(self) -> Self {
        Mat5 {
            m11: -self.m11, m12: -self.m12, m13: -self.m13, m14: -self.m14, m15: -self.m15,
            m21: -self.m21, m22: -self.m22, m23: -self.m23, m24: -self.m24, m25: -self.m25,
            m31: -self.m31, m32: -self.m32, m33: -self.m33, m34: -self.m34, m35: -self.m35,
            m41: -self.m41, m42: -self.m42, m43: -self.m43, m44: -self.m44, m45: -self.m45,
            m51: -self.m51, m52: -self.m52, m53: -self.m53, m54: -self.m54, m55: -self.m55,
        }
    }

    /// Every component multiplied by `k`.
    pub open spec fn scale(self, k: int) -> Self {
        Mat5 {
            m11: self.m11 * k, m12: self.m12 * k, m13: self.m13 * k, m14: self.m14
                * k, m15: self.m15 * k,
            m21: self.m21 * k, m22: self.m22 * k, m23: self.m23 * k, m24: self.m24
                * k, m25: self.m25 * k,
            m31: self.m31 * k, m32: self.m32 * k, m33: self.m33 * k, m34: self.m34
                * k, m35: self.m35 * k,
            m41: self.m41 * k, m42: self.m42 * k, m43: self.m43 * k, m44: self.m44
                * k, m45: self.m45 * k,
            m51: self.m51 * k, m52: self.m52 * k, m53: self.m53 * k, m54: self.m54
                * k, m55: self.m55 * k,
        }
    }

    /// Component-wise absolute value.
    pub open spec fn abs(self) -> Self {
        Mat5 {
            m11: abs_int(self.m11), m12: abs_int(self.m12), m13: abs_int(self.m13),
                m14: abs_int(self.m14), m15: abs_int(self.m15),
            m21: abs_int(self.m21), m22: abs_int(self.m22), m23: abs_int(self.m23),
                m24: abs_int(self.m24), m25: abs_int(self.m25),
            m31: abs_int(self.m31), m32: abs_int(self.m32), m33: abs_int(self.m33),
                m34: abs_int(self.m34), m35: abs_int(self.m35),
            m41: abs_int(self.m41), m42: abs_int(self.m42), m43: abs_int(self.m43),
                m44: abs_int(self.m44), m45: abs_int(self.m45),
            m51: abs_int(self.m51), m52: abs_int(self.m52), m53: abs_int(self.m53),
                m54: abs_int(self.m54), m55: abs_int(self.m55),
        }
    }

    /// The matrix product `self * o`.
    pub open spec fn times(self, o: Self) -> Self {
        Mat5 {
            m11: self.row1().dot(o.col1()),
            m12: self.row1().dot(o.col2()),
            m13: self.row1().dot(o.col3()),
            m14: self.row1().dot(o.col4()),
            m15: self.row1().dot(o.col5()),
            m21: self.row2().dot(o.col1()),
            m22: self.row2().dot(o.col2()),
            m23: self.row2().dot(o.col3()),
            m24: self.row2().dot(o.col4()),
            m25: self.row2().dot(o.col5()),
            m31: self.row3().dot(o.col1()),
            m32: self.row3().dot(o.col2()),
            m33: self.row3().dot(o.col3()),
            m34: self.row3().dot(o.col4()),
            m35: self.row3().dot(o.col5()),
            m41: self.row4().dot(o.col1()),
            m42: self.row4().dot(o.col2()),
            m43: self.row4().dot(o.col3()),
            m44: self.row4().dot(o.col4()),
            m45: self.row4().dot(o.col5()),
            m51: self.row5().dot(o.col1()),
            m52: self.row5().dot(o.col2()),
            m53: self.row5().dot(o.col3()),
            m54: self.row5().dot(o.col4()),
            m55: self.row5().dot(o.col5()),
        }
    }

    /// Whether every step of the product `a * b` is representable in `N`.
    pub open spec fn times_fits<N: Scalar>(a: Self, b: Self) -> bool {
        &&& <Vec5<N> as Dot<N>>::dot_fits(a.row1(), b.col1())
        &&& <Vec5<N> as Dot<N>>::dot_fits(a.row1(), b.col2())
        &&& <Vec5<N> as Dot<N>>::dot_fits(a.row1(), b.col3())
        &&& <Vec5<N> as Dot<N>>::dot_fits(a.row1(), b.col4())
        &&& <Vec5<N> as Dot<N>>::dot_fits(a.row1(), b.col5())
        &&& <Vec5<N> as Dot<N>>::dot_fits(a.row2(), b.col1())
        &&& <Vec5<N> as Dot<N>>::dot_fits(a.row2(), b.col2())
        &&& <Vec5<N> as Dot<N>>::dot_fits(a.row2(), b.col3())
        &&& <Vec5<N> as Dot<N>>::dot_fits(a.row2(), b.col4())
        &&& <Vec5<N> as Dot<N>>::dot_fits(a.row2(), b.col5())
        &&& <Vec5<N> as Dot<N>>::dot_fits(a.row3(), b.col1())
        &&& <Vec5<N> as Dot<N>>::dot_fits(a.row3(), b.col2())
        &&& <Vec5<N> as Dot<N>>::dot_fits(a.row3(), b.col3())
        &&& <Vec5<N> as Dot<N>>::dot_fits(a.row3(), b.col4())
        &&& <Vec5<N> as Dot<N>>::dot_fits(a.row3(), b.col5())
        &&& <Vec5<N> as Dot<N>>::dot_fits(a.row4(), b.col1())
        &&& <Vec5<N> as Dot<N>>::dot_fits(a.row4(), b.col2())
        &&& <Vec5<N> as Dot<N>>::dot_fits(a.row4(), b.col3())
        &&& <Vec5<N> as Dot<N>>::dot_fits(a.row4(), b.col4())
        &&& <Vec5<N> as Dot<N>>::dot_fits(a.row4(), b.col5())
        &&& <Vec5<N> as Dot<N>>::dot_fits(a.row5(), b.col1())
        &&& <Vec5<N> as Dot<N>>::dot_fits(a.row5(), b.col2())
        &&& <Vec5<N> as Dot<N>>::dot_fits(a.row5(), b.col3())
        &&& <Vec5<N> as Dot<N>>::dot_fits(a.row5(), b.col4())
        &&& <Vec5<N> as Dot<N>>::dot_fits(a.row5(), b.col5())
    }

    /// The product `self * v`, with `v` as a column.
    pub open spec fn apply(self, v: Vec5<int>) -> Vec5<int> {
        Vec5 { x: self.row1().dot(v), y: self.row2().dot(v), z: self.row3().dot(v),
            w: self.row4().dot(v), a: self.row5().dot(v) }
    }

    /// Whether every step of the product `m * v` is representable in `N`.
    pub open spec fn apply_fits<N: Scalar>(m: Self, v: Vec5<int>) -> bool {
        &&& <Vec5<N> as Dot<N>>::dot_fits(m.row1(), v)
        &&& <Vec5<N> as Dot<N>>::dot_fits(m.row2(), v)
        &&& <Vec5<N> as Dot<N>>::dot_fits(m.row3(), v)
        &&& <Vec5<N> as Dot<N>>::dot_fits(m.row4(), v)
        &&& <Vec5<N> as Dot<N>>::dot_fits(m.row5(), v)
    }

    /// The product `v * self`, with `v` as a row.
    pub open spec fn apply_left(self, v: Vec5<int>) -> Vec5<int> {
        Vec5 { x: v.dot(self.col1()), y: v.dot(self.col2()), z: v.dot(self.col3()),
            w: v.dot(self.col4()), a: v.dot(self.col5()) }
    }

    /// Whether every step of the product `v * m` is representable in `N`.
    pub open spec fn apply_left_fits<N: Scalar>(m: Self, v: Vec5<int>) -> bool {
        &&& <Vec5<N> as Dot<N>>::dot_fits(v, m.col1())
        &&& <Vec5<N> as Dot<N>>::dot_fits(v, m.col2())
        &&& <Vec5<N> as Dot<N>>::dot_fits(v, m.col3())
        &&& <Vec5<N> as Dot<N>>::dot_fits(v, m.col4())
        &&& <Vec5<N> as Dot<N>>::dot_fits(v, m.col5())
    }

    /// The matrix as the upper left block of a matrix one dimension larger,
    /// which is the identity elsewhere.
    pub open spec fn lifted(self) -> Mat6<int> {
        Mat6 {
            m11: self.m11, m12: self.m12, m13: self.m13, m14: self.m14, m15: self.m15, m16: 0,
            m21: self.m21, m22: self.m22, m23: self.m23, m24: self.m24, m25: self.m25, m26: 0,
            m31: self.m31, m32: self.m32, m33: self.m33, m34: self.m34, m35: self.m35, m36: 0,
            m41: self.m41, m42: self.m42, m43: self.m43, m44: self.m44, m45: self.m45, m46: 0,
            m51: self.m51, m52: self.m52, m53: self.m53, m54: self.m54, m55: self.m55, m56: 0,
            m61: 0, m62: 0, m63: 0, m64: 0, m65: 0, m66: 1,
        }
    }

    /// The upper left block, one dimension smaller.
    pub open spec fn lowered(self) -> Mat4<int> {
        Mat4 {
            m11: self.m11, m12: self.m12, m13: self.m13, m14: self.m14,
            m21: self.m21, m22: self.m22, m23: self.m23, m24: self.m24,
            m31: self.m31, m32: self.m32, m33: self.m33, m34: self.m34,
            m41: self.m41, m42: self.m42, m43: self.m43, m44: self.m44,
        }
    }
}

impl<N: Scalar> Mat5<N> {
    /// The matrix product `self * o`.
    #[verifier::rlimit(100)]
    pub fn times(&self, o: &Self) -> (r: Self)
        requires
            Mat5::<int>::times_fits::<N>(self@, o@),
        ensures
            r@ == self@.times(o@),
    {
        Mat5 {
            m11: self.m11.times(o.m11).plus(self.m12.times(o.m21)).plus(self.m13.times(o.m31))
                .plus(self.m14.times(o.m41)).plus(self.m15.times(o.m51)),
            m12: self.m11.times(o.m12).plus(self.m12.times(o.m22)).plus(self.m13.times(o.m32))
                .plus(self.m14.times(o.m42)).plus(self.m15.times(o.m52)),
            m13: self.m11.times(o.m13).plus(self.m12.times(o.m23)).plus(self.m13.times(o.m33))
                .plus(self.m14.times(o.m43)).plus(self.m15.times(o.m53)),
            m14: self.m11.times(o.m14).plus(self.m12.times(o.m24)).plus(self.m13.times(o.m34))
                .plus(self.m14.times(o.m44)).plus(self.m15.times(o.m54)),
            m15: self.m11.times(o.m15).plus(self.m12.times(o.m25)).plus(self.m13.times(o.m35))
                .plus(self.m14.times(o.m45)).plus(self.m15.times(o.m55)),
            m21: self.m21.times(o.m11).plus(self.m22.times(o.m21)).plus(self.m23.times(o.m31))
                .plus(self.m24.times(o.m41)).plus(self.m25.times(o.m51)),
            m22: self.m21.times(o.m12).plus(self.m22.times(o.m22)).plus(self.m23.times(o.m32))
                .plus(self.m24.times(o.m42)).plus(self.m25.times(o.m52)),
            m23: self.m21.times(o.m13).plus(self.m22.times(o.m23)).plus(self.m23.times(o.m33))
                .plus(self.m24.times(o.m43)).plus(self.m25.times(o.m53)),
            m24: self.m21.times(o.m14).plus(self.m22.times(o.m24)).plus(self.m23.times(o.m34))
                .plus(self.m24.times(o.m44)).plus(self.m25.times(o.m54)),
            m25: self.m21.times(o.m15).plus(self.m22.times(o.m25)).plus(self.m23.times(o.m35))
                .plus(self.m24.times(o.m45)).plus(self.m25.times(o.m55)),
            m31: self.m31.times(o.m11).plus(self.m32.times(o.m21)).plus(self.m33.times(o.m31))
                .plus(self.m34.times(o.m41)).plus(self.m35.times(o.m51)),
            m32: self.m31.times(o.m12).plus(self.m32.times(o.m22)).plus(self.m33.times(o.m32))
                .plus(self.m34.times(o.m42)).plus(self.m35.times(o.m52)),
            m33: self.m31.times(o.m13).plus(self.m32.times(o.m23)).plus(self.m33.times(o.m33))
                .plus(self.m34.times(o.m43)).plus(self.m35.times(o.m53)),
            m34: self.m31.times(o.m14).plus(self.m32.times(o.m24)).plus(self.m33.times(o.m34))
                .plus(self.m34.times(o.m44)).plus(self.m35.times(o.m54)),
            m35: self.m31.times(o.m15).plus(self.m32.times(o.m25)).plus(self.m33.times(o.m35))
                .plus(self.m34.times(o.m45)).plus(self.m35.times(o.m55)),
            m41: self.m41.times(o.m11).plus(self.m42.times(o.m21)).plus(self.m43.times(o.m31))
                .plus(self.m44.times(o.m41)).plus(self.m45.times(o.m51)),
            m42: self.m41.times(o.m12).plus(self.m42.times(o.m22)).plus(self.m43.times(o.m32))
                .plus(self.m44.times(o.m42)).plus(self.m45.times(o.m52)),
            m43: self.m41.times(o.m13).plus(self.m42.times(o.m23)).plus(self.m43.times(o.m33))
                .plus(self.m44.times(o.m43)).plus(self.m45.times(o.m53)),
            m44: self.m41.times(o.m14).plus(self.m42.times(o.m24)).plus(self.m43.times(o.m34))
                .plus(self.m44.times(o.m44)).plus(self.m45.times(o.m54)),
            m45: self.m41.times(o.m15).plus(self.m42.times(o.m25)).plus(self.m43.times(o.m35))
                .plus(self.m44.times(o.m45)).plus(self.m45.times(o.m55)),
            m51: self.m51.times(o.m11).plus(self.m52.times(o.m21)).plus(self.m53.times(o.m31))
                .plus(self.m54.times(o.m41)).plus(self.m55.times(o.m51)),
            m52: self.m51.times(o.m12).plus(self.m52.times(o.m22)).plus(self.m53.times(o.m32))
                .plus(self.m54.times(o.m42)).plus(self.m55.times(o.m52)),
            m53: self.m51.times(o.m13).plus(self.m52.times(o.m23)).plus(self.m53.times(o.m33))
                .plus(self.m54.times(o.m43)).plus(self.m55.times(o.m53)),
            m54: self.m51.times(o.m14).plus(self.m52.times(o.m24)).plus(self.m53.times(o.m34))
                .plus(self.m54.times(o.m44)).plus(self.m55.times(o.m54)),
            m55: self.m51.times(o.m15).plus(self.m52.times(o.m25)).plus(self.m53.times(o.m35))
                .plus(self.m54.times(o.m45)).plus(self.m55.times(o.m55)),
        }
    }

    /// Every component multiplied by `k`.
    pub fn scaled(&self, k: N) -> (r: Self)
        requires
            self@.scale(k.val()).fits::<N>(),
        ensures
            r@ == self@.scale(k.val()),
    {
        Mat5 {
            m11: self.m11.times(k),
            m12: self.m12.times(k),
            m13: self.m13.times(k),
            m14: self.m14.times(k),
            m15: self.m15.times(k),
            m21: self.m21.times(k),
            m22: self.m22.times(k),
            m23: self.m23.times(k),
            m24: self.m24.times(k),
            m25: self.m25.times(k),
            m31: self.m31.times(k),
            m32: self.m32.times(k),
            m33: self.m33.times(k),
            m34: self.m34.times(k),
            m35: self.m35.times(k),
            m41: self.m41.times(k),
            m42: self.m42.times(k),
            m43: self.m43.times(k),
            m44: self.m44.times(k),
            m45: self.m45.times(k),
            m51: self.m51.times(k),
            m52: self.m52.times(k),
            m53: self.m53.times(k),
            m54: self.m54.times(k),
            m55: self.m55.times(k),
        }
    }

    /// The additive inverse.
    pub fn opposite(&self) -> (r: Self)
        requires
            self@.opposite().fits::<N>(),
        ensures
            r@ == self@.opposite(),
    {
        Mat5 {
            m11: self.m11.neg(),
            m12: self.m12.neg(),
            m13: self.m13.neg(),
            m14: self.m14.neg(),
            m15: self.m15.neg(),
            m21: self.m21.neg(),
            m22: self.m22.neg(),
            m23: self.m23.neg(),
            m24: self.m24.neg(),
            m25: self.m25.neg(),
            m31: self.m31.neg(),
            m32: self.m32.neg(),
            m33: self.m33.neg(),
            m34: self.m34.neg(),
            m35: self.m35.neg(),
            m41: self.m41.neg(),
            m42: self.m42.neg(),
            m43: self.m43.neg(),
            m44: self.m44.neg(),
            m45: self.m45.neg(),
            m51: self.m51.neg(),
            m52: self.m52.neg(),
            m53: self.m53.neg(),
            m54: self.m54.neg(),
            m55: self.m55.neg(),
        }
    }

    /// Whether `self` and `o` have the same components.
    pub fn same(&self, o: &Self) -> (r: bool)
        ensures
            r == (self@ == o@),
    {
        self.m11.same(o.m11)
            && self.m12.same(o.m12)
            && self.m13.same(o.m13)
            && self.m14.same(o.m14)
            && self.m15.same(o.m15)
            && self.m21.same(o.m21)
            && self.m22.same(o.m22)
            && self.m23.same(o.m23)
            && self.m24.same(o.m24)
            && self.m25.same(o.m25)
            && self.m31.same(o.m31)
            && self.m32.same(o.m32)
            && self.m33.same(o.m33)
            && self.m34.same(o.m34)
            && self.m35.same(o.m35)
            && self.m41.same(o.m41)
            && self.m42.same(o.m42)
            && self.m43.same(o.m43)
            && self.m44.same(o.m44)
            && self.m45.same(o.m45)
            && self.m51.same(o.m51)
            && self.m52.same(o.m52)
            && self.m53.same(o.m53)
            && self.m54.same(o.m54)
            && self.m55.same(o.m55)
    }

    /// A matrix is determined by its view.
    pub proof fn lemma_view_injective(a: Self, b: Self)
        requires
            a@ == b@,
        ensures
            a == b,
    {
        a.m11.lemma_val();
        b.m11.lemma_val();
        a.m12.lemma_val();
        b.m12.lemma_val();
        a.m13.lemma_val();
        b.m13.lemma_val();
        a.m14.lemma_val();
        b.m14.lemma_val();
        a.m15.lemma_val();
        b.m15.lemma_val();
        a.m21.lemma_val();
        b.m21.lemma_val();
        a.m22.lemma_val();
        b.m22.lemma_val();
        a.m23.lemma_val();
        b.m23.lemma_val();
        a.m24.lemma_val();
        b.m24.lemma_val();
        a.m25.lemma_val();
        b.m25.lemma_val();
        a.m31.lemma_val();
        b.m31.lemma_val();
        a.m32.lemma_val();
        b.m32.lemma_val();
        a.m33.lemma_val();
        b.m33.lemma_val();
        a.m34.lemma_val();
        b.m34.lemma_val();
        a.m35.lemma_val();
        b.m35.lemma_val();
        a.m41.lemma_val();
        b.m41.lemma_val();
        a.m42.lemma_val();
        b.m42.lemma_val();
        a.m43.lemma_val();
        b.m43.lemma_val();
        a.m44.lemma_val();
        b.m44.lemma_val();
        a.m45.lemma_val();
        b.m45.lemma_val();
        a.m51.lemma_val();
        b.m51.lemma_val();
        a.m52.lemma_val();
        b.m52.lemma_val();
        a.m53.lemma_val();
        b.m53.lemma_val();
        a.m54.lemma_val();
        b.m54.lemma_val();
        a.m55.lemma_val();
        b.m55.lemma_val();
    }
}

impl<N> Dim for Mat5<N> {
    open spec fn dim_model() -> nat {
        5
    }

    fn dim() -> (r: usize) {
        5
    }
}

impl<N: Scalar> Zero for Mat5<N> {
    open spec fn is_zero(&self) -> bool {
        self@ == Mat5::<int>::origin()
    }

    fn zero() -> (r: Self) {
        let z = N::zero();
        proof {
            z.lemma_val();
        }
        Mat5 {
            m11: z, m12: z, m13: z, m14: z, m15: z,
            m21: z, m22: z, m23: z, m24: z, m25: z,
            m31: z, m32: z, m33: z, m34: z, m35: z,
            m41: z, m42: z, m43: z, m44: z, m45: z,
            m51: z, m52: z, m53: z, m54: z, m55: z,
        }
    }
}

impl<N: Scalar> One for Mat5<N> {
    open spec fn is_one(&self) -> bool {
        self@ == Mat5::<int>::identity()
    }

    fn one() -> (r: Self) {
        let z = N::zero();
        let u = N::one();
        proof {
            z.lemma_val();
            u.lemma_val();
        }
        Mat5 {
            m11: u, m12: z, m13: z, m14: z, m15: z,
            m21: z, m22: u, m23: z, m24: z, m25: z,
            m31: z, m32: z, m33: u, m34: z, m35: z,
            m41: z, m42: z, m43: z, m44: u, m45: z,
            m51: z, m52: z, m53: z, m54: z, m55: u,
        }
    }
}

impl<N: Scalar> Transpose for Mat5<N> {
    open spec fn transposed_model(m: Mat5<int>) -> Mat5<int> {
        m.transposed()
    }

    proof fn lemma_transpose_involution(m: Mat5<int>) {
    }

    fn transposed(&self) -> (r: Self) {
        Mat5 {
            m11: self.m11, m12: self.m21, m13: self.m31, m14: self.m41, m15: self.m51,
            m21: self.m12, m22: self.m22, m23: self.m32, m24: self.m42, m25: self.m52,
            m31: self.m13, m32: self.m23, m33: self.m33, m34: self.m43, m35: self.m53,
            m41: self.m14, m42: self.m24, m43: self.m34, m44: self.m44, m45: self.m54,
            m51: self.m15, m52: self.m25, m53: self.m35, m54: self.m45, m55: self.m55,
        }
    }

    fn transpose(&mut self) {
        *self = self.transposed();
    }
}

impl<N: Scalar> RMul<Vec5<N>> for Mat5<N> {
    open spec fn rmul_fits(m: Mat5<int>, v: Vec5<int>) -> bool {
        Mat5::<int>::apply_fits::<N>(m, v)
    }

    open spec fn rmul_model(m: Mat5<int>, v: Vec5<int>) -> Vec5<int> {
        m.apply(v)
    }

    fn rmul(&self, v: &Vec5<N>) -> (r: Vec5<N>) {
        Vec5 {
            x: self.m11.times(v.x).plus(self.m12.times(v.y)).plus(self.m13.times(v.z)).plus(self.m14
                .times(v.w)).plus(self.m15.times(v.a)),
            y: self.m21.times(v.x).plus(self.m22.times(v.y)).plus(self.m23.times(v.z)).plus(self.m24
                .times(v.w)).plus(self.m25.times(v.a)),
            z: self.m31.times(v.x).plus(self.m32.times(v.y)).plus(self.m33.times(v.z)).plus(self.m34
                .times(v.w)).plus(self.m35.times(v.a)),
            w: self.m41.times(v.x).plus(self.m42.times(v.y)).plus(self.m43.times(v.z)).plus(self.m44
                .times(v.w)).plus(self.m45.times(v.a)),
            a: self.m51.times(v.x).plus(self.m52.times(v.y)).plus(self.m53.times(v.z)).plus(self.m54
                .times(v.w)).plus(self.m55.times(v.a)),
        }
    }
}

impl<N: Scalar> LMul<Vec5<N>> for Mat5<N> {
    open spec fn lmul_fits(m: Mat5<int>, v: Vec5<int>) -> bool {
        Mat5::<int>::apply_left_fits::<N>(m, v)
    }

    open spec fn lmul_model(m: Mat5<int>, v: Vec5<int>) -> Vec5<int> {
        m.apply_left(v)
    }

    fn lmul(&self, v: &Vec5<N>) -> (r: Vec5<N>) {
        Vec5 {
            x: v.x.times(self.m11).plus(v.y.times(self.m21)).plus(v.z.times(self.m31)).plus(v.w
                .times(self.m41)).plus(v.a.times(self.m51)),
            y: v.x.times(self.m12).plus(v.y.times(self.m22)).plus(v.z.times(self.m32)).plus(v.w
                .times(self.m42)).plus(v.a.times(self.m52)),
            z: v.x.times(self.m13).plus(v.y.times(self.m23)).plus(v.z.times(self.m33)).plus(v.w
                .times(self.m43)).plus(v.a.times(self.m53)),
            w: v.x.times(self.m14).plus(v.y.times(self.m24)).plus(v.z.times(self.m34)).plus(v.w
                .times(self.m44)).plus(v.a.times(self.m54)),
            a: v.x.times(self.m15).plus(v.y.times(self.m25)).plus(v.z.times(self.m35)).plus(v.w
                .times(self.m45)).plus(v.a.times(self.m55)),
        }
    }
}

impl<N: Scalar> Mat<Vec5<N>, Vec5<N>> for Mat5<N> {
}

impl<N: Scalar> Absolute<Mat5<N>> for Mat5<N> {
    open spec fn absolute_fits(m: Mat5<int>) -> bool {
        m.abs().fits::<N>()
    }

    open spec fn absolute_model(m: Mat5<int>) -> Mat5<int> {
        m.abs()
    }

    fn absolute(&self) -> (r: Mat5<N>) {
        Mat5 {
            m11: self.m11.abs(),
            m12: self.m12.abs(),
            m13: self.m13.abs(),
            m14: self.m14.abs(),
            m15: self.m15.abs(),
            m21: self.m21.abs(),
            m22: self.m22.abs(),
            m23: self.m23.abs(),
            m24: self.m24.abs(),
            m25: self.m25.abs(),
            m31: self.m31.abs(),
            m32: self.m32.abs(),
            m33: self.m33.abs(),
            m34: self.m34.abs(),
            m35: self.m35.abs(),
            m41: self.m41.abs(),
            m42: self.m42.abs(),
            m43: self.m43.abs(),
            m44: self.m44.abs(),
            m45: self.m45.abs(),
            m51: self.m51.abs(),
            m52: self.m52.abs(),
            m53: self.m53.abs(),
            m54: self.m54.abs(),
            m55: self.m55.abs(),
        }
    }
}

impl<N: Scalar> ToHomogeneous<Mat6<N>> for Mat5<N> {
    open spec fn to_homogeneous_model(m: Mat5<int>) -> Mat6<int> {
        m.lifted()
    }

    fn to_homogeneous(&self) -> (r: Mat6<N>) {
        let z = N::zero();
        let u = N::one();
        proof {
            z.lemma_val();
            u.lemma_val();
        }
        Mat6 {
            m11: self.m11, m12: self.m12, m13: self.m13, m14: self.m14, m15: self.m15, m16: z,
            m21: self.m21, m22: self.m22, m23: self.m23, m24: self.m24, m25: self.m25, m26: z,
            m31: self.m31, m32: self.m32, m33: self.m33, m34: self.m34, m35: self.m35, m36: z,
            m41: self.m41, m42: self.m42, m43: self.m43, m44: self.m44, m45: self.m45, m46: z,
            m51: self.m51, m52: self.m52, m53: self.m53, m54: self.m54, m55: self.m55, m56: z,
            m61: z, m62: z, m63: z, m64: z, m65: z, m66: u,
        }
    }
}

impl<N: Scalar> FromHomogeneous<Mat6<N>> for Mat5<N> {
    open spec fn from_fits(m: Mat6<int>) -> bool {
        true
    }

    open spec fn from_model(m: Mat6<int>) -> Mat5<int> {
        m.lowered()
    }

    fn from(m: &Mat6<N>) -> (r: Self) {
        Mat5 {
            m11: m.m11, m12: m.m12, m13: m.m13, m14: m.m14, m15: m.m15,
            m21: m.m21, m22: m.m22, m23: m.m23, m24: m.m24, m25: m.m25,
            m31: m.m31, m32: m.m32, m33: m.m33, m34: m.m34, m35: m.m35,
            m41: m.m41, m42: m.m42, m43: m.m43, m44: m.m44, m45: m.m45,
            m51: m.m51, m52: m.m52, m53: m.m53, m54: m.m54, m55: m.m55,
        }
    }
}

impl<N: Cast<M>, M: Scalar> MatCast<Mat5<M>> for Mat5<N> {
    open spec fn cast_fits(m: Mat5<int>) -> bool {
        m.fits::<M>()
    }

    open spec fn cast_model(m: Mat5<int>) -> Mat5<int> {
        m
    }

    fn from(m: Self) -> (r: Mat5<M>) {
        Mat5 {
            m11: m.m11.cast(),
            m12: m.m12.cast(),
            m13: m.m13.cast(),
            m14: m.m14.cast(),
            m15: m.m15.cast(),
            m21: m.m21.cast(),
            m22: m.m22.cast(),
            m23: m.m23.cast(),
            m24: m.m24.cast(),
            m25: m.m25.cast(),
            m31: m.m31.cast(),
            m32: m.m32.cast(),
            m33: m.m33.cast(),
            m34: m.m34.cast(),
            m35: m.m35.cast(),
            m41: m.m41.cast(),
            m42: m.m42.cast(),
            m43: m.m43.cast(),
            m44: m.m44.cast(),
            m45: m.m45.cast(),
            m51: m.m51.cast(),
            m52: m.m52.cast(),
            m53: m.m53.cast(),
            m54: m.m54.cast(),
            m55: m.m55.cast(),
        }
    }
}

/// A square matrix of dimension six; `m23` is the component of row 2 and
/// column 3.
#[derive(Clone, Copy, Debug, PartialEq, Eq)]
pub struct Mat6<N> {
    pub m11: N,
    pub m12: N,
    pub m13: N,
    pub m14: N,
    pub m15: N,
    pub m16: N,
    pub m21: N,
    pub m22: N,
    pub m23: N,
    pub m24: N,
    pub m25: N,
    pub m26: N,
    pub m31: N,
    pub m32: N,
    pub m33: N,
    pub m34: N,
    pub m35: N,
    pub m36: N,
    pub m41: N,
    pub m42: N,
    pub m43: N,
    pub m44: N,
    pub m45: N,
    pub m46: N,
    pub m51: N,
    pub m52: N,
    pub m53: N,
    pub m54: N,
    pub m55: N,
    pub m56: N,
    pub m61: N,
    pub m62: N,
    pub m63: N,
    pub m64: N,
    pub m65: N,
    pub m66: N,
}

impl<N> Mat6<N> {
    /// The matrix with the given components, row by row.
    pub fn new(
        m11: N, m12: N, m13: N, m14: N, m15: N, m16: N,
        m21: N, m22: N, m23: N, m24: N, m25: N, m26: N,
        m31: N, m32: N, m33: N, m34: N, m35: N, m36: N,
        m41: N, m42: N, m43: N, m44: N, m45: N, m46: N,
        m51: N, m52: N, m53: N, m54: N, m55: N, m56: N,
        m61: N, m62: N, m63: N, m64: N, m65: N, m66: N,
    ) -> (r: Self)
        ensures
            r == (Mat6 { m11, m12, m13, m14, m15, m16, m21, m22, m23, m24, m25, m26, m31, m32, m33,
                m34, m35, m36, m41, m42, m43, m44, m45, m46, m51, m52, m53, m54, m55, m56, m61,
                m62, m63, m64, m65, m66 }),
    {
        Mat6 { m11, m12, m13, m14, m15, m16, m21, m22, m23, m24, m25, m26, m31, m32, m33, m34, m35,
            m36, m41, m42, m43, m44, m45, m46, m51, m52, m53, m54, m55, m56, m61, m62, m63, m64,
            m65, m66 }
    }
}

impl<N: Scalar> View for Mat6<N> {
    type V = Mat6<int>;

    open spec fn view(&self) -> Mat6<int> {
        Mat6 {
            m11: self.m11.val(), m12: self.m12.val(), m13: self.m13.val(), m14: self.m14.val(),
                m15: self.m15.val(), m16: self.m16.val(),
            m21: self.m21.val(), m22: self.m22.val(), m23: self.m23.val(), m24: self.m24.val(),
                m25: self.m25.val(), m26: self.m26.val(),
            m31: self.m31.val(), m32: self.m32.val(), m33: self.m33.val(), m34: self.m34.val(),
                m35: self.m35.val(), m36: self.m36.val(),
            m41: self.m41.val(), m42: self.m42.val(), m43: self.m43.val(), m44: self.m44.val(),
                m45: self.m45.val(), m46: self.m46.val(),
            m51: self.m51.val(), m52: self.m52.val(), m53: self.m53.val(), m54: self.m54.val(),
                m55: self.m55.val(), m56: self.m56.val(),
            m61: self.m61.val(), m62: self.m62.val(), m63: self.m63.val(), m64: self.m64.val(),
                m65: self.m65.val(), m66: self.m66.val(),
        }
    }
}

impl Mat6<int> {
    /// The zero matrix.
    pub open spec fn origin() -> Self {
        Mat6 {
            m11: 0, m12: 0, m13: 0, m14: 0, m15: 0, m16: 0,
            m21: 0, m22: 0, m23: 0, m24: 0, m25: 0, m26: 0,
            m31: 0, m32: 0, m33: 0, m34: 0, m35: 0, m36: 0,
            m41: 0, m42: 0, m43: 0, m44: 0, m45: 0, m46: 0,
            m51: 0, m52: 0, m53: 0, m54: 0, m55: 0, m56: 0,
            m61: 0, m62: 0, m63: 0, m64: 0, m65: 0, m66: 0,
        }
    }

    /// The identity matrix.
    pub open spec fn identity() -> Self {
        Mat6 {
            m11: 1, m12: 0, m13: 0, m14: 0, m15: 0, m16: 0,
            m21: 0, m22: 1, m23: 0, m24: 0, m25: 0, m26: 0,
            m31: 0, m32: 0, m33: 1, m34: 0, m35: 0, m36: 0,
            m41: 0, m42: 0, m43: 0, m44: 1, m45: 0, m46: 0,
            m51: 0, m52: 0, m53: 0, m54: 0, m55: 1, m56: 0,
            m61: 0, m62: 0, m63: 0, m64: 0, m65: 0, m66: 1,
        }
    }

    /// Whether every component is representable in the scalar type `N`.
    pub open spec fn fits<N: Scalar>(self) -> bool {
        &&& fits::<N>(self.m11)
        &&& fits::<N>(self.m12)
        &&& fits::<N>(self.m13)
        &&& fits::<N>(self.m14)
        &&& fits::<N>(self.m15)
        &&& fits::<N>(self.m16)
        &&& fits::<N>(self.m21)
        &&& fits::<N>(self.m22)
        &&& fits::<N>(self.m23)
        &&& fits::<N>(self.m24)
        &&& fits::<N>(self.m25)
        &&& fits::<N>(self.m26)
        &&& fits::<N>(self.m31)
        &&& fits::<N>(self.m32)
        &&& fits::<N>(self.m33)
        &&& fits::<N>(self.m34)
        &&& fits::<N>(self.m35)
        &&& fits::<N>(self.m36)
        &&& fits::<N>(self.m41)
        &&& fits::<N>(self.m42)
        &&& fits::<N>(self.m43)
        &&& fits::<N>(self.m44)
        &&& fits::<N>(self.m45)
        &&& fits::<N>(self.m46)
        &&& fits::<N>(self.m51)
        &&& fits::<N>(self.m52)
        &&& fits::<N>(self.m53)
        &&& fits::<N>(self.m54)
        &&& fits::<N>(self.m55)
        &&& fits::<N>(self.m56)
        &&& fits::<N>(self.m61)
        &&& fits::<N>(self.m62)
        &&& fits::<N>(self.m63)
        &&& fits::<N>(self.m64)
        &&& fits::<N>(self.m65)
        &&& fits::<N>(self.m66)
    }

    /// Row 1.
    pub open spec fn row1(self) -> Vec6<int> {
        Vec6 { x: self.m11, y: self.m12, z: self.m13, w: self.m14, a: self.m15, b: self.m16 }
    }

    /// Row 2.
    pub open spec fn row2(self) -> Vec6<int> {
        Vec6 { x: self.m21, y: self.m22, z: self.m23, w: self.m24, a: self.m25, b: self.m26 }
    }

    /// Row 3.
    pub open spec fn row3(self) -> Vec6<int> {
        Vec6 { x: self.m31, y: self.m32, z: self.m33, w: self.m34, a: self.m35, b: self.m36 }
    }

    /// Row 4.
    pub open spec fn row4(self) -> Vec6<int> {
        Vec6 { x: self.m41, y: self.m42, z: self.m43, w: self.m44, a: self.m45, b: self.m46 }
    }

    /// Row 5.
    pub open spec fn row5(self) -> Vec6<int> {
        Vec6 { x: self.m51, y: self.m52, z: self.m53, w: self.m54, a: self.m55, b: self.m56 }
    }

    /// Row 6.
    pub open spec fn row6(self) -> Vec6<int> {
        Vec6 { x: self.m61, y: self.m62, z: self.m63, w: self.m64, a: self.m65, b: self.m66 }
    }

    /// Column 1.
    pub open spec fn col1(self) -> Vec6<int> {
        Vec6 { x: self.m11, y: self.m21, z: self.m31, w: self.m41, a: self.m51, b: self.m61 }
    }

    /// Column 2.
    pub open spec fn col2(self) -> Vec6<int> {
        Vec6 { x: self.m12, y: self.m22, z: self.m32, w: self.m42, a: self.m52, b: self.m62 }
    }

    /// Column 3.
    pub open spec fn col3(self) -> Vec6<int> {
        Vec6 { x: self.m13, y: self.m23, z: self.m33, w: self.m43, a: self.m53, b: self.m63 }
    }

    /// Column 4.
    pub open spec fn col4(self) -> Vec6<int> {
        Vec6 { x: self.m14, y: self.m24, z: self.m34, w: self.m44, a: self.m54, b: self.m64 }
    }

    /// Column 5.
    pub open spec fn col5(self) -> Vec6<int> {
        Vec6 { x: self.m15, y: self.m25, z: self.m35, w: self.m45, a: self.m55, b: self.m65 }
    }

    /// Column 6.
    pub open spec fn col6(self) -> Vec6<int> {
        Vec6 { x: self.m16, y: self.m26, z: self.m36, w: self.m46, a: self.m56, b: self.m66 }
    }

    /// The transpose.
    pub open spec fn transposed(self) -> Self {
        Mat6 {
            m11: self.m11, m12: self.m21, m13: self.m31, m14: self.m41, m15: self.m51,
                m16: self.m61,
            m21: self.m12, m22: self.m22, m23: self.m32, m24: self.m42, m25: self.m52,
                m26: self.m62,
            m31: self.m13, m32: self.m23, m33: self.m33, m34: self.m43, m35: self.m53,
                m36: self.m63,
            m41: self.m14, m42: self.m24, m43: self.m34, m44: self.m44, m45: self.m54,
                m46: self.m64,
            m51: self.m15, m52: self.m25, m53: self.m35, m54: self.m45, m55: self.m55,
                m56: self.m65,
            m61: self.m16, m62: self.m26, m63: self.m36, m64: self.m46, m65: self.m56,
                m66: self.m66,
        }
    }

    /// Additive inverse.
    pub open spec fn opposite(self) -> Self {
        Mat6 {
            m11: -self.m11, m12: -self.m12, m13: -self.m13, m14: -self.m14, m15: -self.m15,
                m16: -self.m16,
            m21: -self.m21, m22: -self.m22, m23: -self.m23, m24: -self.m24, m25: -self.m25,
                m26: -self.m26,
            m31: -self.m31, m32: -self.m32, m33: -self.m33, m34: -self.m34, m35: -self.m35,
                m36: -self.m36,
            m41: -self.m41, m42: -self.m42, m43: -self.m43, m44: -self.m44, m45: -self.m45,
                m46: -self.m46,
            m51: -self.m51, m52: -self.m52, m53: -self.m53, m54: -self.m54, m55: -self.m55,
                m56: -self.m56,
            m61: -self.m61, m62: -self.m62, m63: -self.m63, m64: -self.m64, m65: -self.m65,
                m66: -self.m66,
        }
    }

    /// Every component multiplied by `k`.
    pub open spec fn scale(self, k: int) -> Self {
        Mat6 {
            m11: self.m11 * k, m12: self.m12 * k, m13: self.m13 * k, m14: self.m14
                * k, m15: self.m15 * k, m16: self.m16 * k,
            m21: self.m21 * k, m22: self.m22 * k, m23: self.m23 * k, m24: self.m24
                * k, m25: self.m25 * k, m26: self.m26 * k,
            m31: self.m31 * k, m32: self.m32 * k, m33: self.m33 * k, m34: self.m34
                * k, m35: self.m35 * k, m36: self.m36 * k,
            m41: self.m41 * k, m42: self.m42 * k, m43: self.m43 * k, m44: self.m44
                * k, m45: self.m45 * k, m46: self.m46 * k,
            m51: self.m51 * k, m52: self.m52 * k, m53: self.m53 * k, m54: self.m54
                * k, m55: self.m55 * k, m56: self.m56 * k,
            m61: self.m61 * k, m62: self.m62 * k, m63: self.m63 * k, m64: self.m64
                * k, m65: self.m65 * k, m66: self.m66 * k,
        }
    }

    /// Component-wise absolute value.
    pub open spec fn abs(self) -> Self {
        Mat6 {
            m11: abs_int(self.m11), m12: abs_int(self.m12), m13: abs_int(self.m13),
                m14: abs_int(self.m14), m15: abs_int(self.m15), m16: abs_int(self.m16),
            m21: abs_int(self.m21), m22: abs_int(self.m22), m23: abs_int(self.m23),
                m24: abs_int(self.m24), m25: abs_int(self.m25), m26: abs_int(self.m26),
            m31: abs_int(self.m31), m32: abs_int(self.m32), m33: abs_int(self.m33),
                m34: abs_int(self.m34), m35: abs_int(self.m35), m36: abs_int(self.m36),
            m41: abs_int(self.m41), m42: abs_int(self.m42), m43: abs_int(self.m43),
                m44: abs_int(self.m44), m45: abs_int(self.m45), m46: abs_int(self.m46),
            m51: abs_int(self.m51), m52: abs_int(self.m52), m53: abs_int(self.m53),
                m54: abs_int(self.m54), m55: abs_int(self.m55), m56: abs_int(self.m56),
            m61: abs_int(self.m61), m62: abs_int(self.m62), m63: abs_int(self.m63),
                m64: abs_int(self.m64), m65: abs_int(self.m65), m66: abs_int(self.m66),
        }
    }

    /// The matrix product `self * o`.
    pub open spec fn times(self, o: Self) -> Self {
        Mat6 {
            m11: self.row1().dot(o.col1()),
            m12: self.row1().dot(o.col2()),
            m13: self.row1().dot(o.col3()),
            m14: self.row1().dot(o.col4()),
            m15: self.row1().dot(o.col5()),
            m16: self.row1().dot(o.col6()),
            m21: self.row2().dot(o.col1()),
            m22: self.row2().dot(o.col2()),
            m23: self.row2().dot(o.col3()),
            m24: self.row2().dot(o.col4()),
            m25: self.row2().dot(o.col5()),
            m26: self.row2().dot(o.col6()),
            m31: self.row3().dot(o.col1()),
            m32: self.row3().dot(o.col2()),
            m33: self.row3().dot(o.col3()),
            m34: self.row3().dot(o.col4()),
            m35: self.row3().dot(o.col5()),
            m36: self.row3().dot(o.col6()),
            m41: self.row4().dot(o.col1()),
            m42: self.row4().dot(o.col2()),
            m43: self.row4().dot(o.col3()),
            m44: self.row4().dot(o.col4()),
            m45: self.row4().dot(o.col5()),
            m46: self.row4().dot(o.col6()),
            m51: self.row5().dot(o.col1()),
            m52: self.row5().dot(o.col2()),
            m53: self.row5().dot(o.col3()),
            m54: self.row5().dot(o.col4()),
            m55: self.row5().dot(o.col5()),
            m56: self.row5().dot(o.col6()),
            m61: self.row6().dot(o.col1()),
            m62: self.row6().dot(o.col2()),
            m63: self.row6().dot(o.col3()),
            m64: self.row6().dot(o.col4()),
            m65: self.row6().dot(o.col5()),
            m66: self.row6().dot(o.col6()),
        }
    }

    /// Whether every step of the product `a * b` is representable in `N`.
    pub open spec fn times_fits<N: Scalar>(a: Self, b: Self) -> bool {
        &&& <Vec6<N> as Dot<N>>::dot_fits(a.row1(), b.col1())
        &&& <Vec6<N> as Dot<N>>::dot_fits(a.row1(), b.col2())
        &&& <Vec6<N> as Dot<N>>::dot_fits(a.row1(), b.col3())
        &&& <Vec6<N> as Dot<N>>::dot_fits(a.row1(), b.col4())
        &&& <Vec6<N> as Dot<N>>::dot_fits(a.row1(), b.col5())
        &&& <Vec6<N> as Dot<N>>::dot_fits(a.row1(), b.col6())
        &&& <Vec6<N> as Dot<N>>::dot_fits(a.row2(), b.col1())
        &&& <Vec6<N> as Dot<N>>::dot_fits(a.row2(), b.col2())
        &&& <Vec6<N> as Dot<N>>::dot_fits(a.row2(), b.col3())
        &&& <Vec6<N> as Dot<N>>::dot_fits(a.row2(), b.col4())
        &&& <Vec6<N> as Dot<N>>::dot_fits(a.row2(), b.col5())
        &&& <Vec6<N> as Dot<N>>::dot_fits(a.row2(), b.col6())
        &&& <Vec6<N> as Dot<N>>::dot_fits(a.row3(), b.col1())
        &&& <Vec6<N> as Dot<N>>::dot_fits(a.row3(), b.col2())
        &&& <Vec6<N> as Dot<N>>::dot_fits(a.row3(), b.col3())
        &&& <Vec6<N> as Dot<N>>::dot_fits(a.row3(), b.col4())
        &&& <Vec6<N> as Dot<N>>::dot_fits(a.row3(), b.col5())
        &&& <Vec6<N> as Dot<N>>::dot_fits(a.row3(), b.col6())
        &&& <Vec6<N> as Dot<N>>::dot_fits(a.row4(), b.col1())
        &&& <Vec6<N> as Dot<N>>::dot_fits(a.row4(), b.col2())
        &&& <Vec6<N> as Dot<N>>::dot_fits(a.row4(), b.col3())
        &&& <Vec6<N> as Dot<N>>::dot_fits(a.row4(), b.col4())
        &&& <Vec6<N> as Dot<N>>::dot_fits(a.row4(), b.col5())
        &&& <Vec6<N> as Dot<N>>::dot_fits(a.row4(), b.col6())
        &&& <Vec6<N> as Dot<N>>::dot_fits(a.row5(), b.col1())
        &&& <Vec6<N> as Dot<N>>::dot_fits(a.row5(), b.col2())
        &&& <Vec6<N> as Dot<N>>::dot_fits(a.row5(), b.col3())
        &&& <Vec6<N> as Dot<N>>::dot_fits(a.row5(), b.col4())
        &&& <Vec6<N> as Dot<N>>::dot_fits(a.row5(), b.col5())
        &&& <Vec6<N> as Dot<N>>::dot_fits(a.row5(), b.col6())
        &&& <Vec6<N> as Dot<N>>::dot_fits(a.row6(), b.col1())
        &&& <Vec6<N> as Dot<N>>::dot_fits(a.row6(), b.col2())
        &&& <Vec6<N> as Dot<N>>::dot_fits(a.row6(), b.col3())
        &&& <Vec6<N> as Dot<N>>::dot_fits(a.row6(), b.col4())
        &&& <Vec6<N> as Dot<N>>::dot_fits(a.row6(), b.col5())
        &&& <Vec6<N> as Dot<N>>::dot_fits(a.row6(), b.col6())
    }

    /// The product `self * v`, with `v` as a column.
    pub open spec fn apply(self, v: Vec6<int>) -> Vec6<int> {
        Vec6 { x: self.row1().dot(v), y: self.row2().dot(v), z: self.row3().dot(v),
            w: self.row4().dot(v), a: self.row5().dot(v), b: self.row6().dot(v) }
    }

    /// Whether every step of the product `m * v` is representable in `N`.
    pub open spec fn apply_fits<N: Scalar>(m: Self, v: Vec6<int>) -> bool {
        &&& <Vec6<N> as Dot<N>>::dot_fits(m.row1(), v)
        &&& <Vec6<N> as Dot<N>>::dot_fits(m.row2(), v)
        &&& <Vec6<N> as Dot<N>>::dot_fits(m.row3(), v)
        &&& <Vec6<N> as Dot<N>>::dot_fits(m.row4(), v)
        &&& <Vec6<N> as Dot<N>>::dot_fits(m.row5(), v)
        &&& <Vec6<N> as Dot<N>>::dot_fits(m.row6(), v)
    }

    /// The product `v * self`, with `v` as a row.
    pub open spec fn apply_left(self, v: Vec6<int>) -> Vec6<int> {
        Vec6 { x: v.dot(self.col1()), y: v.dot(self.col2()), z: v.dot(self.col3()),
            w: v.dot(self.col4()), a: v.dot(self.col5()), b: v.dot(self.col6()) }
    }

    /// Whether every step of the product `v * m` is representable in `N`.
    pub open spec fn apply_left_fits<N: Scalar>(m: Self, v: Vec6<int>) -> bool {
        &&& <Vec6<N> as Dot<N>>::dot_fits(v, m.col1())
        &&& <Vec6<N> as Dot<N>>::dot_fits(v, m.col2())
        &&& <Vec6<N> as Dot<N>>::dot_fits(v, m.col3())
        &&& <Vec6<N> as Dot<N>>::dot_fits(v, m.col4())
        &&& <Vec6<N> as Dot<N>>::dot_fits(v, m.col5())
        &&& <Vec6<N> as Dot<N>>::dot_fits(v, m.col6())
    }

    /// The upper left block, one dimension smaller.
    pub open spec fn lowered(self) -> Mat5<int> {
        Mat5 {
            m11: self.m11, m12: self.m12, m13: self.m13, m14: self.m14, m15: self.m15,
            m21: self.m21, m22: self.m22, m23: self.m23, m24: self.m24, m25: self.m25,
            m31: self.m31, m32: self.m32, m33: self.m33, m34: self.m34, m35: self.m35,
            m41: self.m41, m42: self.m42, m43: self.m43, m44: self.m44, m45: self.m45,
            m51: self.m51, m52: self.m52, m53: self.m53, m54: self.m54, m55: self.m55,
        }
    }
}

impl<N: Scalar> Mat6<N> {
    /// The matrix product `self * o`.
    #[verifier::rlimit(100)]
    pub fn times(&self, o: &Self) -> (r: Self)
        requires
            Mat6::<int>::times_fits::<N>(self@, o@),
        ensures
            r@ == self@.times(o@),
    {
        Mat6 {
            m11: self.m11.times(o.m11).plus(self.m12.times(o.m21)).plus(self.m13.times(o.m31))
                .plus(self.m14.times(o.m41)).plus(self.m15.times(o.m51)).plus(self.m16
                .times(o.m61)),
            m12: self.m11.times(o.m12).plus(self.m12.times(o.m22)).plus(self.m13.times(o.m32))
                .plus(self.m14.times(o.m42)).plus(self.m15.times(o.m52)).plus(self.m16
                .times(o.m62)),
            m13: self.m11.times(o.m13).plus(self.m12.times(o.m23)).plus(self.m13.times(o.m33))
                .plus(self.m14.times(o.m43)).plus(self.m15.times(o.m53)).plus(self.m16
                .times(o.m63)),
            m14: self.m11.times(o.m14).plus(self.m12.times(o.m24)).plus(self.m13.times(o.m34))
                .plus(self.m14.times(o.m44)).plus(self.m15.times(o.m54)).plus(self.m16
                .times(o.m64)),
            m15: self.m11.times(o.m15).plus(self.m12.times(o.m25)).plus(self.m13.times(o.m35))
                .plus(self.m14.times(o.m45)).plus(self.m15.times(o.m55)).plus(self.m16
                .times(o.m65)),
            m16: self.m11.times(o.m16).plus(self.m12.times(o.m26)).plus(self.m13.times(o.m36))
                .plus(self.m14.times(o.m46)).plus(self.m15.times(o.m56)).plus(self.m16
                .times(o.m66)),
            m21: self.m21.times(o.m11).plus(self.m22.times(o.m21)).plus(self.m23.times(o.m31))
                .plus(self.m24.times(o.m41)).plus(self.m25.times(o.m51)).plus(self.m26
                .times(o.m61)),
            m22: self.m21.times(o.m12).plus(self.m22.times(o.m22)).plus(self.m23.times(o.m32))
                .plus(self.m24.times(o.m42)).plus(self.m25.times(o.m52)).plus(self.m26
                .times(o.m62)),
            m23: self.m21.times(o.m13).plus(self.m22.times(o.m23)).plus(self.m23.times(o.m33))
                .plus(self.m24.times(o.m43)).plus(self.m25.times(o.m53)).plus(self.m26
                .times(o.m63)),
            m24: self.m21.times(o.m14).plus(self.m22.times(o.m24)).plus(self.m23.times(o.m34))
                .plus(self.m24.times(o.m44)).plus(self.m25.times(o.m54)).plus(self.m26
                .times(o.m64)),
            m25: self.m21.times(o.m15).plus(self.m22.times(o.m25)).plus(self.m23.times(o.m35))
                .plus(self.m24.times(o.m45)).plus(self.m25.times(o.m55)).plus(self.m26
                .times(o.m65)),
            m26: self.m21.times(o.m16).plus(self.m22.times(o.m26)).plus(self.m23.times(o.m36))
                .plus(self.m24.times(o.m46)).plus(self.m25.times(o.m56)).plus(self.m26
                .times(o.m66)),
            m31: self.m31.times(o.m11).plus(self.m32.times(o.m21)).plus(self.m33.times(o.m31))
                .plus(self.m34.times(o.m41)).plus(self.m35.times(o.m51)).plus(self.m36
                .times(o.m61)),
            m32: self.m31.times(o.m12).plus(self.m32.times(o.m22)).plus(self.m33.times(o.m32))
                .plus(self.m34.times(o.m42)).plus(self.m35.times(o.m52)).plus(self.m36
                .times(o.m62)),
            m33: self.m31.times(o.m13).plus(self.m32.times(o.m23)).plus(self.m33.times(o.m33))
                .plus(self.m34.times(o.m43)).plus(self.m35.times(o.m53)).plus(self.m36
                .times(o.m63)),
            m34: self.m31.times(o.m14).plus(self.m32.times(o.m24)).plus(self.m33.times(o.m34))
                .plus(self.m34.times(o.m44)).plus(self.m35.times(o.m54)).plus(self.m36
                .times(o.m64)),
            m35: self.m31.times(o.m15).plus(self.m32.times(o.m25)).plus(self.m33.times(o.m35))
                .plus(self.m34.times(o.m45)).plus(self.m35.times(o.m55)).plus(self.m36
                .times(o.m65)),
            m36: self.m31.times(o.m16).plus(self.m32.times(o.m26)).plus(self.m33.times(o.m36))
                .plus(self.m34.times(o.m46)).plus(self.m35.times(o.m56)).plus(self.m36
                .times(o.m66)),
            m41: self.m41.times(o.m11).plus(self.m42.times(o.m21)).plus(self.m43.times(o.m31))
                .plus(self.m44.times(o.m41)).plus(self.m45.times(o.m51)).plus(self.m46
                .times(o.m61)),
            m42: self.m41.times(o.m12).plus(self.m42.times(o.m22)).plus(self.m43.times(o.m32))
                .plus(self.m44.times(o.m42)).plus(self.m45.times(o.m52)).plus(self.m46
                .times(o.m62)),
            m43: self.m41.times(o.m13).plus(self.m42.times(o.m23)).plus(self.m43.times(o.m33))
                .plus(self.m44.times(o.m43)).plus(self.m45.times(o.m53)).plus(self.m46
                .times(o.m63)),
            m44: self.m41.times(o.m14).plus(self.m42.times(o.m24)).plus(self.m43.times(o.m34))
                .plus(self.m44.times(o.m44)).plus(self.m45.times(o.m54)).plus(self.m46
                .times(o.m64)),
            m45: self.m41.times(o.m15).plus(self.m42.times(o.m25)).plus(self.m43.times(o.m35))
                .plus(self.m44.times(o.m45)).plus(self.m45.times(o.m55)).plus(self.m46
                .times(o.m65)),
            m46: self.m41.times(o.m16).plus(self.m42.times(o.m26)).plus(self.m43.times(o.m36))
                .plus(self.m44.times(o.m46)).plus(self.m45.times(o.m56)).plus(self.m46
                .times(o.m66)),
            m51: self.m51.times(o.m11).plus(self.m52.times(o.m21)).plus(self.m53.times(o.m31))
                .plus(self.m54.times(o.m41)).plus(self.m55.times(o.m51)).plus(self.m56
                .times(o.m61)),
            m52: self.m51.times(o.m12).plus(self.m52.times(o.m22)).plus(self.m53.times(o.m32))
                .plus(self.m54.times(o.m42)).plus(self.m55.times(o.m52)).plus(self.m56
                .times(o.m62)),
            m53: self.m51.times(o.m13).plus(self.m52.times(o.m23)).plus(self.m53.times(o.m33))
                .plus(self.m54.times(o.m43)).plus(self.m55.times(o.m53)).plus(self.m56
                .times(o.m63)),
            m54: self.m51.times(o.m14).plus(self.m52.times(o.m24)).plus(self.m53.times(o.m34))
                .plus(self.m54.times(o.m44)).plus(self.m55.times(o.m54)).plus(self.m56
                .times(o.m64)),
            m55: self.m51.times(o.m15).plus(self.m52.times(o.m25)).plus(self.m53.times(o.m35))
                .plus(self.m54.times(o.m45)).plus(self.m55.times(o.m55)).plus(self.m56
                .times(o.m65)),
            m56: self.m51.times(o.m16).plus(self.m52.times(o.m26)).plus(self.m53.times(o.m36))
                .plus(self.m54.times(o.m46)).plus(self.m55.times(o.m56)).plus(self.m56
                .times(o.m66)),
            m61: self.m61.times(o.m11).plus(self.m62.times(o.m21)).plus(self.m63.times(o.m31))
                .plus(self.m64.times(o.m41)).plus(self.m65.times(o.m51)).plus(self.m66
                .times(o.m61)),
            m62: self.m61.times(o.m12).plus(self.m62.times(o.m22)).plus(self.m63.times(o.m32))
                .plus(self.m64.times(o.m42)).plus(self.m65.times(o.m52)).plus(self.m66
                .times(o.m62)),
            m63: self.m61.times(o.m13).plus(self.m62.times(o.m23)).plus(self.m63.times(o.m33))
                .plus(self.m64.times(o.m43)).plus(self.m65.times(o.m53)).plus(self.m66
                .times(o.m63)),
            m64: self.m61.times(o.m14).plus(self.m62.times(o.m24)).plus(self.m63.times(o.m34))
                .plus(self.m64.times(o.m44)).plus(self.m65.times(o.m54)).plus(self.m66
                .times(o.m64)),
            m65: self.m61.times(o.m15).plus(self.m62.times(o.m25)).plus(self.m63.times(o.m35))
                .plus(self.m64.times(o.m45)).plus(self.m65.times(o.m55)).plus(self.m66
                .times(o.m65)),
            m66: self.m61.times(o.m16).plus(self.m62.times(o.m26)).plus(self.m63.times(o.m36))
                .plus(self.m64.times(o.m46)).plus(self.m65.times(o.m56)).plus(self.m66
                .times(o.m66)),
        }
    }

    /// Every component multiplied by `k`.
    pub fn scaled(&self, k: N) -> (r: Self)
        requires
            self@.scale(k.val()).fits::<N>(),
        ensures
            r@ == self@.scale(k.val()),
    {
        Mat6 {
            m11: self.m11.times(k),
            m12: self.m12.times(k),
            m13: self.m13.times(k),
            m14: self.m14.times(k),
            m15: self.m15.times(k),
            m16: self.m16.times(k),
            m21: self.m21.times(k),
            m22: self.m22.times(k),
            m23: self.m23.times(k),
            m24: self.m24.times(k),
            m25: self.m25.times(k),
            m26: self.m26.times(k),
            m31: self.m31.times(k),
            m32: self.m32.times(k),
            m33: self.m33.times(k),
            m34: self.m34.times(k),
            m35: self.m35.times(k),
            m36: self.m36.times(k),
            m41: self.m41.times(k),
            m42: self.m42.times(k),
            m43: self.m43.times(k),
            m44: self.m44.times(k),
            m45: self.m45.times(k),
            m46: self.m46.times(k),
            m51: self.m51.times(k),
            m52: self.m52.times(k),
            m53: self.m53.times(k),
            m54: self.m54.times(k),
            m55: self.m55.times(k),
            m56: self.m56.times(k),
            m61: self.m61.times(k),
            m62: self.m62.times(k),
            m63: self.m63.times(k),
            m64: self.m64.times(k),
            m65: self.m65.times(k),
            m66: self.m66.times(k),
        }
    }

    /// The additive inverse.
    pub fn opposite(&self) -> (r: Self)
        requires
            self@.opposite().fits::<N>(),
        ensures
            r@ == self@.opposite(),
    {
        Mat6 {
            m11: self.m11.neg(),
            m12: self.m12.neg(),
            m13: self.m13.neg(),
            m14: self.m14.neg(),
            m15: self.m15.neg(),
            m16: self.m16.neg(),
            m21: self.m21.neg(),
            m22: self.m22.neg(),
            m23: self.m23.neg(),
            m24: self.m24.neg(),
            m25: self.m25.neg(),
            m26: self.m26.neg(),
            m31: self.m31.neg(),
            m32: self.m32.neg(),
            m33: self.m33.neg(),
            m34: self.m34.neg(),
            m35: self.m35.neg(),
            m36: self.m36.neg(),
            m41: self.m41.neg(),
            m42: self.m42.neg(),
            m43: self.m43.neg(),
            m44: self.m44.neg(),
            m45: self.m45.neg(),
            m46: self.m46.neg(),
            m51: self.m51.neg(),
            m52: self.m52.neg(),
            m53: self.m53.neg(),
            m54: self.m54.neg(),
            m55: self.m55.neg(),
            m56: self.m56.neg(),
            m61: self.m61.neg(),
            m62: self.m62.neg(),
            m63: self.m63.neg(),
            m64: self.m64.neg(),
            m65: self.m65.neg(),
            m66: self.m66.neg(),
        }
    }

    /// Whether `self` and `o` have the same components.
    pub fn same(&self, o: &Self) -> (r: bool)
        ensures
            r == (self@ == o@),
    {
        self.m11.same(o.m11)
            && self.m12.same(o.m12)
            && self.m13.same(o.m13)
            && self.m14.same(o.m14)
            && self.m15.same(o.m15)
            && self.m16.same(o.m16)
            && self.m21.same(o.m21)
            && self.m22.same(o.m22)
            && self.m23.same(o.m23)
            && self.m24.same(o.m24)
            && self.m25.same(o.m25)
            && self.m26.same(o.m26)
            && self.m31.same(o.m31)
            && self.m32.same(o.m32)
            && self.m33.same(o.m33)
            && self.m34.same(o.m34)
            && self.m35.same(o.m35)
            && self.m36.same(o.m36)
            && self.m41.same(o.m41)
            && self.m42.same(o.m42)
            && self.m43.same(o.m43)
            && self.m44.same(o.m44)
            && self.m45.same(o.m45)
            && self.m46.same(o.m46)
            && self.m51.same(o.m51)
            && self.m52.same(o.m52)
            && self.m53.same(o.m53)
            && self.m54.same(o.m54)
            && self.m55.same(o.m55)
            && self.m56.same(o.m56)
            && self.m61.same(o.m61)
            && self.m62.same(o.m62)
            && self.m63.same(o.m63)
            && self.m64.same(o.m64)
            && self.m65.same(o.m65)
            && self.m66.same(o.m66)
    }

    /// A matrix is determined by its view.
    pub proof fn lemma_view_injective(a: Self, b: Self)
        requires
            a@ == b@,
        ensures
            a == b,
    {
        a.m11.lemma_val();
        b.m11.lemma_val();
        a.m12.lemma_val();
        b.m12.lemma_val();
        a.m13.lemma_val();
        b.m13.lemma_val();
        a.m14.lemma_val();
        b.m14.lemma_val();
        a.m15.lemma_val();
        b.m15.lemma_val();
        a.m16.lemma_val();
        b.m16.lemma_val();
        a.m21.lemma_val();
        b.m21.lemma_val();
        a.m22.lemma_val();
        b.m22.lemma_val();
        a.m23.lemma_val();
        b.m23.lemma_val();
        a.m24.lemma_val();
        b.m24.lemma_val();
        a.m25.lemma_val();
        b.m25.lemma_val();
        a.m26.lemma_val();
        b.m26.lemma_val();
        a.m31.lemma_val();
        b.m31.lemma_val();
        a.m32.lemma_val();
        b.m32.lemma_val();
        a.m33.lemma_val();
        b.m33.lemma_val();
        a.m34.lemma_val();
        b.m34.lemma_val();
        a.m35.lemma_val();
        b.m35.lemma_val();
        a.m36.lemma_val();
        b.m36.lemma_val();
        a.m41.lemma_val();
        b.m41.lemma_val();
        a.m42.lemma_val();
        b.m42.lemma_val();
        a.m43.lemma_val();
        b.m43.lemma_val();
        a.m44.lemma_val();
        b.m44.lemma_val();
        a.m45.lemma_val();
        b.m45.lemma_val();
        a.m46.lemma_val();
        b.m46.lemma_val();
        a.m51.lemma_val();
        b.m51.lemma_val();
        a.m52.lemma_val();
        b.m52.lemma_val();
        a.m53.lemma_val();
        b.m53.lemma_val();
        a.m54.lemma_val();
        b.m54.lemma_val();
        a.m55.lemma_val();
        b.m55.lemma_val();
        a.m56.lemma_val();
        b.m56.lemma_val();
        a.m61.lemma_val();
        b.m61.lemma_val();
        a.m62.lemma_val();
        b.m62.lemma_val();
        a.m63.lemma_val();
        b.m63.lemma_val();
        a.m64.lemma_val();
        b.m64.lemma_val();
        a.m65.lemma_val();
        b.m65.lemma_val();
        a.m66.lemma_val();
        b.m66.lemma_val();
    }
}

impl<N> Dim for Mat6<N> {
    open spec fn dim_model() -> nat {
        6
    }

    fn dim() -> (r: usize) {
        6
    }
}

impl<N: Scalar> Zero for Mat6<N> {
    open spec fn is_zero(&self) -> bool {
        self@ == Mat6::<int>::origin()
    }

    fn zero() -> (r: Self) {
        let z = N::zero();
        proof {
            z.lemma_val();
        }
        Mat6 {
            m11: z, m12: z, m13: z, m14: z, m15: z, m16: z,
            m21: z, m22: z, m23: z, m24: z, m25: z, m26: z,
            m31: z, m32: z, m33: z, m34: z, m35: z, m36: z,
            m41: z, m42: z, m43: z, m44: z, m45: z, m46: z,
            m51: z, m52: z, m53: z, m54: z, m55: z, m56: z,
            m61: z, m62: z, m63: z, m64: z, m65: z, m66: z,
        }
    }
}

impl<N: Scalar> One for Mat6<N> {
    open spec fn is_one(&self) -> bool {
        self@ == Mat6::<int>::identity()
    }

    fn one() -> (r: Self) {
        let z = N::zero();
        let u = N::one();
        proof {
            z.lemma_val();
            u.lemma_val();
        }
        Mat6 {
            m11: u, m12: z, m13: z, m14: z, m15: z, m16: z,
            m21: z, m22: u, m23: z, m24: z, m25: z, m26: z,
            m31: z, m32: z, m33: u, m34: z, m35: z, m36: z,
            m41: z, m42: z, m43: z, m44: u, m45: z, m46: z,
            m51: z, m52: z, m53: z, m54: z, m55: u, m56: z,
            m61: z, m62: z, m63: z, m64: z, m65: z, m66: u,
        }
    }
}

impl<N: Scalar> Transpose for Mat6<N> {
    open spec fn transposed_model(m: Mat6<int>) -> Mat6<int> {
        m.transposed()
    }

    proof fn lemma_transpose_involution(m: Mat6<int>) {
    }

    fn transposed(&self) -> (r: Self) {
        Mat6 {
            m11: self.m11, m12: self.m21, m13: self.m31, m14: self.m41, m15: self.m51,
                m16: self.m61,
            m21: self.m12, m22: self.m22, m23: self.m32, m24: self.m42, m25: self.m52,
                m26: self.m62,
            m31: self.m13, m32: self.m23, m33: self.m33, m34: self.m43, m35: self.m53,
                m36: self.m63,
            m41: self.m14, m42: self.m24, m43: self.m34, m44: self.m44, m45: self.m54,
                m46: self.m64,
            m51: self.m15, m52: self.m25, m53: self.m35, m54: self.m45, m55: self.m55,
                m56: self.m65,
            m61: self.m16, m62: self.m26, m63: self.m36, m64: self.m46, m65: self.m56,
                m66: self.m66,
        }
    }

    fn transpose(&mut self) {
        *self = self.transposed();
    }
}

impl<N: Scalar> RMul<Vec6<N>> for Mat6<N> {
    open spec fn rmul_fits(m: Mat6<int>, v: Vec6<int>) -> bool {
        Mat6::<int>::apply_fits::<N>(m, v)
    }

    open spec fn rmul_model(m: Mat6<int>, v: Vec6<int>) -> Vec6<int> {
        m.apply(v)
    }

    fn rmul(&self, v: &Vec6<N>) -> (r: Vec6<N>) {
        Vec6 {
            x: self.m11.times(v.x).plus(self.m12.times(v.y)).plus(self.m13.times(v.z)).plus(self.m14
                .times(v.w)).plus(self.m15.times(v.a)).plus(self.m16.times(v.b)),
            y: self.m21.times(v.x).plus(self.m22.times(v.y)).plus(self.m23.times(v.z)).plus(self.m24
                .times(v.w)).plus(self.m25.times(v.a)).plus(self.m26.times(v.b)),
            z: self.m31.times(v.x).plus(self.m32.times(v.y)).plus(self.m33.times(v.z)).plus(self.m34
                .times(v.w)).plus(self.m35.times(v.a)).plus(self.m36.times(v.b)),
            w: self.m41.times(v.x).plus(self.m42.times(v.y)).plus(self.m43.times(v.z)).plus(self.m44
                .times(v.w)).plus(self.m45.times(v.a)).plus(self.m46.times(v.b)),
            a: self.m51.times(v.x).plus(self.m52.times(v.y)).plus(self.m53.times(v.z)).plus(self.m54
                .times(v.w)).plus(self.m55.times(v.a)).plus(self.m56.times(v.b)),
            b: self.m61.times(v.x).plus(self.m62.times(v.y)).plus(self.m63.times(v.z)).plus(self.m64
                .times(v.w)).plus(self.m65.times(v.a)).plus(self.m66.times(v.b)),
        }
    }
}

impl<N: Scalar> LMul<Vec6<N>> for Mat6<N> {
    open spec fn lmul_fits(m: Mat6<int>, v: Vec6<int>) -> bool {
        Mat6::<int>::apply_left_fits::<N>(m, v)
    }

    open spec fn lmul_model(m: Mat6<int>, v: Vec6<int>) -> Vec6<int> {
        m.apply_left(v)
    }

    fn lmul(&self, v: &Vec6<N>) -> (r: Vec6<N>) {
        Vec6 {
            x: v.x.times(self.m11).plus(v.y.times(self.m21)).plus(v.z.times(self.m31)).plus(v.w
                .times(self.m41)).plus(v.a.times(self.m51)).plus(v.b.times(self.m61)),
            y: v.x.times(self.m12).plus(v.y.times(self.m22)).plus(v.z.times(self.m32)).plus(v.w
                .times(self.m42)).plus(v.a.times(self.m52)).plus(v.b.times(self.m62)),
            z: v.x.times(self.m13).plus(v.y.times(self.m23)).plus(v.z.times(self.m33)).plus(v.w
                .times(self.m43)).plus(v.a.times(self.m53)).plus(v.b.times(self.m63)),
            w: v.x.times(self.m14).plus(v.y.times(self.m24)).plus(v.z.times(self.m34)).plus(v.w
                .times(self.m44)).plus(v.a.times(self.m54)).plus(v.b.times(self.m64)),
            a: v.x.times(self.m15).plus(v.y.times(self.m25)).plus(v.z.times(self.m35)).plus(v.w
                .times(self.m45)).plus(v.a.times(self.m55)).plus(v.b.times(self.m65)),
            b: v.x.times(self.m16).plus(v.y.times(self.m26)).plus(v.z.times(self.m36)).plus(v.w
                .times(self.m46)).plus(v.a.times(self.m56)).plus(v.b.times(self.m66)),
        }
    }
}

impl<N: Scalar> Mat<Vec6<N>, Vec6<N>> for Mat6<N> {
}

impl<N: Scalar> Absolute<Mat6<N>> for Mat6<N> {
    open spec fn absolute_fits(m: Mat6<int>) -> bool {
        m.abs().fits::<N>()
    }

    open spec fn absolute_model(m: Mat6<int>) -> Mat6<int> {
        m.abs()
    }

    fn absolute(&self) -> (r: Mat6<N>) {
        Mat6 {
            m11: self.m11.abs(),
            m12: self.m12.abs(),
            m13: self.m13.abs(),
            m14: self.m14.abs(),
            m15: self.m15.abs(),
            m16: self.m16.abs(),
            m21: self.m21.abs(),
            m22: self.m22.abs(),
            m23: self.m23.abs(),
            m24: self.m24.abs(),
            m25: self.m25.abs(),
            m26: self.m26.abs(),
            m31: self.m31.abs(),
            m32: self.m32.abs(),
            m33: self.m33.abs(),
            m34: self.m34.abs(),
            m35: self.m35.abs(),
            m36: self.m36.abs(),
            m41: self.m41.abs(),
            m42: self.m42.abs(),
            m43: self.m43.abs(),
            m44: self.m44.abs(),
            m45: self.m45.abs(),
            m46: self.m46.abs(),
            m51: self.m51.abs(),
            m52: self.m52.abs(),
            m53: self.m53.abs(),
            m54: self.m54.abs(),
            m55: self.m55.abs(),
            m56: self.m56.abs(),
            m61: self.m61.abs(),
            m62: self.m62.abs(),
            m63: self.m63.abs(),
            m64: self.m64.abs(),
            m65: self.m65.abs(),
            m66: self.m66.abs(),
        }
    }
}

impl<N: Cast<M>, M: Scalar> MatCast<Mat6<M>> for Mat6<N> {
    open spec fn cast_fits(m: Mat6<int>) -> bool {
        m.fits::<M>()
    }

    open spec fn cast_model(m: Mat6<int>) -> Mat6<int> {
        m
    }

    fn from(m: Self) -> (r: Mat6<M>) {
        Mat6 {
            m11: m.m11.cast(),
            m12: m.m12.cast(),
            m13: m.m13.cast(),
            m14: m.m14.cast(),
            m15: m.m15.cast(),
            m16: m.m16.cast(),
            m21: m.m21.cast(),
            m22: m.m22.cast(),
            m23: m.m23.cast(),
            m24: m.m24.cast(),
            m25: m.m25.cast(),
            m26: m.m26.cast(),
            m31: m.m31.cast(),
            m32: m.m32.cast(),
            m33: m.m33.cast(),
            m34: m.m34.cast(),
            m35: m.m35.cast(),
            m36: m.m36.cast(),
            m41: m.m41.cast(),
            m42: m.m42.cast(),
            m43: m.m43.cast(),
            m44: m.m44.cast(),
            m45: m.m45.cast(),
            m46: m.m46.cast(),
            m51: m.m51.cast(),
            m52: m.m52.cast(),
            m53: m.m53.cast(),
            m54: m.m54.cast(),
            m55: m.m55.cast(),
            m56: m.m56.cast(),
            m61: m.m61.cast(),
            m62: m.m62.cast(),
            m63: m.m63.cast(),
            m64: m.m64.cast(),
            m65: m.m65.cast(),
            m66: m.m66.cast(),
        }
    }
}

} // verus!
