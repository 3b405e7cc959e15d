//! Vectors of no to six components.
//!
//! The view of a vector over a scalar type is the vector of the integers
//! that its components stand for; the algebra of vectors is stated on
//! vectors of integers.
use crate::dynamic::normalizable;
use crate::matrix::{Mat1, Mat2, Mat3, Mat4, Mat5, Mat6};
use crate::ring::{
    lemma_comm, lemma_dist_diff, lemma_dist_left2, lemma_dist_left3, lemma_dist_left4,
    lemma_dist_left5, lemma_dist_left6, lemma_mono3, lemma_mul_zero, lemma_pairs,
    lemma_square_nonneg, lemma_square_zero, lemma_unit_square,
};
use crate::scalar::{
    abs_int, Algebraic, Cast, fits, floor_sqrt, lemma_floor_sqrt, lemma_floor_sqrt_positive,
    lemma_trunc_div_bounds, Scalar, trunc_div, Zero,
};
use crate::traits::{
    Absolute, Basis, Cross, CrossMatrix, Dim, Dot, FromHomogeneous, Iterable, Negate, Norm, Outer,
    ToHomogeneous, UniformSphereSample, VecCast,
};
use vstd::prelude::*;

verus! {

/// A vector of no component.
#[derive(Debug, PartialEq, Eq)]
pub struct Vec0<N> {
    pub marker: core::marker::PhantomData<N>,
}

impl<N> Clone for Vec0<N> {
    fn clone(&self) -> (r: Self) {
        Vec0::new()
    }
}

impl<N> Copy for Vec0<N> {
}

impl<N> Vec0<N> {
    /// The vector of no component.
    pub fn new() -> (r: Self) {
        Vec0 { marker: core::marker::PhantomData }
    }
}

impl<N: Scalar> View for Vec0<N> {
    type V = ();

    open spec fn view(&self) -> () {
        ()
    }
}

impl<N> Dim for Vec0<N> {
    open spec fn dim_model() -> nat {
        0
    }

    fn dim() -> (r: usize) {
        0
    }
}

impl<N: Scalar> Zero for Vec0<N> {
    open spec fn is_zero(&self) -> bool {
        true
    }

    fn zero() -> (r: Self) {
        Vec0::new()
    }
}

impl<N: Scalar> Negate for Vec0<N> {
    open spec fn neg_fits(v: ()) -> bool {
        true
    }

    open spec fn neg_model(v: ()) -> () {
        ()
    }

    fn negated(&self) -> (r: Self) {
        Vec0::new()
    }
}

impl<N: Scalar> Dot<N> for Vec0<N> {
    open spec fn dot_fits(a: (), b: ()) -> bool {
        true
    }

    open spec fn dot_model(a: (), b: ()) -> int {
        0
    }

    open spec fn sub_dot_fits(a: (), b: (), c: ()) -> bool {
        true
    }

    open spec fn sub_dot_model(a: (), b: (), c: ()) -> int {
        0
    }

    proof fn lemma_dot_symmetric(a: (), b: ()) {
    }

    fn dot(&self, o: &Self) -> (r: N) {
        let z = N::zero();
        proof {
            z.lemma_val();
        }
        z
    }

    fn sub_dot(&self, b: &Self, c: &Self) -> (r: N) {
        let z = N::zero();
        proof {
            z.lemma_val();
        }
        z
    }
}

impl<N: Algebraic> Norm<N> for Vec0<N> {
    open spec fn norm_fits(v: ()) -> bool {
        true
    }

    open spec fn is_sqnorm(v: (), r: N) -> bool {
        r.val() == 0
    }

    open spec fn is_norm(v: (), r: N) -> bool {
        r.val() == 0
    }

    open spec fn normalized_fits(v: ()) -> bool {
        true
    }

    open spec fn normalized_model(v: ()) -> () {
        ()
    }

    fn sqnorm(&self) -> (r: N) {
        self.dot(self)
    }

    fn norm(&self) -> (r: N) {
        self.dot(self)
    }

    fn normalized(&self) -> (r: Self) {
        Vec0::new()
    }

    fn normalize(&mut self) -> (r: N) {
        self.dot(self)
    }
}

impl<N: Scalar> ToHomogeneous<Vec1<N>> for Vec0<N> {
    open spec fn to_homogeneous_model(m: ()) -> Vec1<int> {
        Vec1 { x: 1 }
    }

    fn to_homogeneous(&self) -> (r: Vec1<N>) {
        let one = N::one();
        proof {
            one.lemma_val();
        }
        Vec1 { x: one }
    }
}

impl<N: Scalar> FromHomogeneous<Vec1<N>> for Vec0<N> {
    open spec fn from_fits(m: Vec1<int>) -> bool {
        true
    }

    open spec fn from_model(m: Vec1<int>) -> () {
        ()
    }

    fn from(m: &Vec1<N>) -> (r: Self) {
        Vec0::new()
    }
}

impl<N: Scalar> Iterable<N> for Vec0<N> {
    open spec fn components_model(v: ()) -> Seq<int> {
        Seq::empty()
    }

    fn components(&self) -> (r: Vec<N>) {
        Vec::new()
    }
}

/// A vector of one component.
#[derive(Clone, Copy, Debug, PartialEq, Eq)]
pub struct Vec1<N> {
    pub x: N,
}

impl<N> Vec1<N> {
    /// The vector with the given components.
    pub fn new(x: N) -> (r: Self)
        ensures
            r == (Vec1 { x }),
    {
        Vec1 { x }
    }
}

impl<N: Scalar> View for Vec1<N> {
    type V = Vec1<int>;

    open spec fn view(&self) -> Vec1<int> {
        Vec1 { x: self.x.val() }
    }
}

impl Vec1<int> {
    /// The zero vector.
    pub open spec fn origin() -> Self {
        Vec1 { x: 0 }
    }

    /// Whether every component is representable in the scalar type `N`.
    pub open spec fn fits<N: Scalar>(self) -> bool {
        &&& fits::<N>(self.x)
    }

    /// Component-wise sum.
    pub open spec fn sum(self, o: Self) -> Self {
        Vec1 { x: self.x + o.x }
    }

    /// Component-wise difference.
    pub open spec fn diff(self, o: Self) -> Self {
        Vec1 { x: self.x - o.x }
    }

    /// Additive inverse.
    pub open spec fn opposite(self) -> Self {
        Vec1 { x: -self.x }
    }

    /// Every component multiplied by `k`.
    pub open spec fn scale(self, k: int) -> Self {
        Vec1 { x: self.x * k }
    }

    /// Every component divided by `k`, rounding toward zero.
    pub open spec fn shrink(self, k: int) -> Self {
        Vec1 { x: trunc_div(self.x, k) }
    }

    /// Component-wise absolute value.
    pub open spec fn abs(self) -> Self {
        Vec1 { x: abs_int(self.x) }
    }

    /// Inner product.
    pub open spec fn dot(self, o: Self) -> int {
        self.x * o.x
    }

    /// Whether the vector has a normalized form with integer components: its
    /// norm is an integer that divides every component.
    pub open spec fn normalizable(self) -> bool {
        let n = floor_sqrt(self.dot(self));
        &&& n * n == self.dot(self)
        &&& n != 0 ==> self.x % n == 0
    }

    /// The vector scaled to norm one, where it is normalizable: every component
    /// divided by the norm. The zero vector is left as it is.
    pub open spec fn normalized(self) -> Self
        recommends
            self.normalizable(),
    {
        let n = floor_sqrt(self.dot(self));
        if n == 0 {
            self
        } else {
            self.shrink(n)
        }
    }

    /// The vector with a last component `1` added.
    pub open spec fn lifted(self) -> Vec2<int> {
        Vec2 { x: self.x, y: 1 }
    }

    /// Outer product: the matrix of the products of a component of `self`
    /// and a component of `o`.
    pub open spec fn outer(self, o: Self) -> Mat1<int> {
        Mat1 {
            m11: self.x * o.x,
        }
    }
}

impl<N: Scalar> Vec1<N> {
    /// Component-wise sum.
    pub fn plus(&self, o: &Self) -> (r: Self)
        requires
            self@.sum(o@).fits::<N>(),
        ensures
            r@ == self@.sum(o@),
    {
        Vec1 { x: self.x.plus(o.x) }
    }

    /// Component-wise difference.
    pub fn minus(&self, o: &Self) -> (r: Self)
        requires
            self@.diff(o@).fits::<N>(),
        ensures
            r@ == self@.diff(o@),
    {
        Vec1 { x: self.x.minus(o.x) }
    }

    /// Every component multiplied by `k`.
    pub fn scaled(&self, k: N) -> (r: Self)
        requires
            self@.scale(k.val()).fits::<N>(),
        ensures
            r@ == self@.scale(k.val()),
    {
        Vec1 { x: self.x.times(k) }
    }

    /// A vector is determined by its view.
    pub proof fn lemma_view_injective(a: Self, b: Self)
        requires
            a@ == b@,
        ensures
            a == b,
    {
        a.x.lemma_val();
        b.x.lemma_val();
    }
}

impl<N> Dim for Vec1<N> {
    open spec fn dim_model() -> nat {
        1
    }

    fn dim() -> (r: usize) {
        1
    }
}

impl<N: Scalar> Zero for Vec1<N> {
    open spec fn is_zero(&self) -> bool {
        self@ == Vec1::<int>::origin()
    }

    fn zero() -> (r: Self) {
        let z = N::zero();
        proof {
            z.lemma_val();
        }
        Vec1 { x: z }
    }
}

impl<N: Scalar> Negate for Vec1<N> {
    open spec fn neg_fits(v: Vec1<int>) -> bool {
        v.opposite().fits::<N>()
    }

    open spec fn neg_model(v: Vec1<int>) -> Vec1<int> {
        v.opposite()
    }

    fn negated(&self) -> (r: Self) {
        Vec1 { x: self.x.neg() }
    }
}

impl<N: Scalar> Dot<N> for Vec1<N> {
    open spec fn dot_fits(a: Vec1<int>, b: Vec1<int>) -> bool {
        &&& fits::<N>(a.x * b.x)
    }

    open spec fn dot_model(a: Vec1<int>, b: Vec1<int>) -> int {
        a.dot(b)
    }

    open spec fn sub_dot_fits(a: Vec1<int>, b: Vec1<int>, c: Vec1<int>) -> bool {
        &&& fits::<N>(a.x - b.x)
        &&& fits::<N>((a.x - b.x) * c.x)
    }

    open spec fn sub_dot_model(a: Vec1<int>, b: Vec1<int>, c: Vec1<int>) -> int {
        a.diff(b).dot(c)
    }

    proof fn lemma_dot_symmetric(a: Vec1<int>, b: Vec1<int>) {
        lemma_comm(a.x, b.x);
    }

    fn dot(&self, o: &Self) -> (r: N) {
        self.x.times(o.x)
    }

    fn sub_dot(&self, b: &Self, c: &Self) -> (r: N) {
        self.x.minus(b.x).times(c.x)
    }
}

impl<N: Algebraic> Norm<N> for Vec1<N> {
    open spec fn norm_fits(v: Vec1<int>) -> bool {
        <Vec1<N> as Dot<N>>::dot_fits(v, v)
    }

    open spec fn is_sqnorm(v: Vec1<int>, r: N) -> bool {
        r.val() == v.dot(v)
    }

    open spec fn is_norm(v: Vec1<int>, r: N) -> bool {
        r.val() == floor_sqrt(v.dot(v))
    }

    open spec fn normalized_fits(v: Vec1<int>) -> bool {
        &&& <Vec1<N> as Dot<N>>::dot_fits(v, v)
        &&& v.normalizable()
    }

    open spec fn normalized_model(v: Vec1<int>) -> Vec1<int> {
        v.normalized()
    }

    fn sqnorm(&self) -> (r: N) {
        self.dot(self)
    }

    fn norm(&self) -> (r: N) {
        proof {
            lemma_square_nonneg(self.x.val());
        }
        self.dot(self).sqrt()
    }

    fn normalized(&self) -> (r: Self) {
        let mut res = *self;
        let _ = res.normalize();
        res
    }

    fn normalize(&mut self) -> (r: N) {
        let n = self.norm();
        let z = N::zero();
        proof {
            z.lemma_val();
            lemma_square_nonneg(self.x.val());
            lemma_floor_sqrt(self@.dot(self@));
        }
        if !n.same(z) {
            proof {
                self.x.lemma_val();
                lemma_trunc_div_bounds(self.x.val(), n.val());
            }
            self.x = self.x.quot(n);
        }
        n
    }
}

impl<N: Scalar> Absolute<Vec1<N>> for Vec1<N> {
    open spec fn absolute_fits(m: Vec1<int>) -> bool {
        m.abs().fits::<N>()
    }

    open spec fn absolute_model(m: Vec1<int>) -> Vec1<int> {
        m.abs()
    }

    fn absolute(&self) -> (r: Vec1<N>) {
        Vec1 { x: self.x.abs() }
    }
}

impl<N: Scalar> Outer<Mat1<N>> for Vec1<N> {
    open spec fn outer_fits(a: Vec1<int>, b: Vec1<int>) -> bool {
        &&& fits::<N>(a.x * b.x)
    }

    open spec fn outer_model(a: Vec1<int>, b: Vec1<int>) -> Mat1<int> {
        a.outer(b)
    }

    fn outer(&self, o: &Self) -> (r: Mat1<N>) {
        Mat1 {
            m11: self.x.times(o.x),
        }
    }
}

impl<N: Scalar> ToHomogeneous<Vec2<N>> for Vec1<N> {
    open spec fn to_homogeneous_model(m: Vec1<int>) -> Vec2<int> {
        m.lifted()
    }

    fn to_homogeneous(&self) -> (r: Vec2<N>) {
        let one = N::one();
        proof {
            one.lemma_val();
        }
        Vec2 { x: self.x, y: one }
    }
}

impl<N: Scalar> FromHomogeneous<Vec2<N>> for Vec1<N> {
    open spec fn from_fits(m: Vec2<int>) -> bool {
        true
    }

    open spec fn from_model(m: Vec2<int>) -> Vec1<int> {
        m.lowered()
    }

    fn from(m: &Vec2<N>) -> (r: Self) {
        Vec1 { x: m.x }
    }
}

impl<N: Cast<M>, M: Scalar> VecCast<Vec1<M>> for Vec1<N> {
    open spec fn cast_fits(v: Vec1<int>) -> bool {
        v.fits::<M>()
    }

    open spec fn cast_model(v: Vec1<int>) -> Vec1<int> {
        v
    }

    fn from(v: Self) -> (r: Vec1<M>) {
        Vec1 { x: v.x.cast() }
    }
}

impl<N: Algebraic> Basis for Vec1<N> {
    open spec fn canonical_basis_seq() -> Seq<Self> {
        seq![
            Vec1 { x: N::of(1) },
        ]
    }

    open spec fn orthonormal_subspace_basis_fits(v: Vec1<int>) -> bool {
        true
    }

    open spec fn orthonormal_subspace_basis_model(v: Vec1<int>) -> Seq<Vec1<int>> {
        Seq::empty()
    }

    fn canonical_basis_list() -> (r: Vec<Self>) {
        let z = N::zero();
        let one = N::one();
        proof {
            z.lemma_val();
            one.lemma_val();
        }
        let mut res: Vec<Self> = Vec::new();
        res.push(Vec1 { x: one });
        assert(res@ =~= Self::canonical_basis_seq());
        res
    }

    fn orthonormal_subspace_basis_list(&self) -> (r: Vec<Self>) {
        let mut res: Vec<Self> = Vec::new();
        res
    }
}

impl<N: Scalar> UniformSphereSample for Vec1<N> {
    open spec fn sample_points() -> Seq<Self> {
        seq![
            Vec1 { x: N::of(1) },
            Vec1 { x: N::of(-1) },
        ]
    }

    fn sample() -> (r: Vec<Self>) {
        let z = N::zero();
        let one = N::one();
        proof {
            z.lemma_val();
            one.lemma_val();
            N::lemma_range();
        }
        let neg = one.neg();
        proof {
            neg.lemma_val();
        }
        let mut res: Vec<Self> = Vec::new();
        res.push(Vec1 { x: one });
        res.push(Vec1 { x: neg });
        assert(res@ =~= Self::sample_points());
        res
    }
}

/// A vector of two components.
#[derive(Clone, Copy, Debug, PartialEq, Eq)]
pub struct Vec2<N> {
    pub x: N,
    pub y: N,
}

impl<N> Vec2<N> {
    /// The vector with the given components.
    pub fn new(x: N, y: N) -> (r: Self)
        ensures
            r == (Vec2 { x, y }),
    {
        Vec2 { x, y }
    }
}

impl<N: Scalar> View for Vec2<N> {
    type V = Vec2<int>;

    open spec fn view(&self) -> Vec2<int> {
        Vec2 { x: self.x.val(), y: self.y.val() }
    }
}

impl Vec2<int> {
    /// The zero vector.
    pub open spec fn origin() -> Self {
        Vec2 { x: 0, y: 0 }
    }

    /// Whether every component is representable in the scalar type `N`.
    pub open spec fn fits<N: Scalar>(self) -> bool {
        &&& fits::<N>(self.x)
        &&& fits::<N>(self.y)
    }

    /// Component-wise sum.
    pub open spec fn sum(self, o: Self) -> Self {
        Vec2 { x: self.x + o.x, y: self.y + o.y }
    }

    /// Component-wise difference.
    pub open spec fn diff(self, o: Self) -> Self {
        Vec2 { x: self.x - o.x, y: self.y - o.y }
    }

    /// Additive inverse.
    pub open spec fn opposite(self) -> Self {
        Vec2 { x: -self.x, y: -self.y }
    }

    /// Every component multiplied by `k`.
    pub open spec fn scale(self, k: int) -> Self {
        Vec2 { x: self.x * k, y: self.y * k }
    }

    /// Every component divided by `k`, rounding toward zero.
    pub open spec fn shrink(self, k: int) -> Self {
        Vec2 { x: trunc_div(self.x, k), y: trunc_div(self.y, k) }
    }

    /// Component-wise absolute value.
    pub open spec fn abs(self) -> Self {
        Vec2 { x: abs_int(self.x), y: abs_int(self.y) }
    }

    /// Inner product.
    pub open spec fn dot(self, o: Self) -> int {
        self.x * o.x + self.y * o.y
    }

    /// Whether the vector has a normalized form with integer components: its
    /// norm is an integer that divides every component.
    pub open spec fn normalizable(self) -> bool {
        let n = floor_sqrt(self.dot(self));
        &&& n * n == self.dot(self)
        &&& n != 0 ==> self.x % n == 0 && self.y % n == 0
    }

    /// The vector scaled to norm one, where it is normalizable: every component
    /// divided by the norm. The zero vector is left as it is.
    pub open spec fn normalized(self) -> Self
        recommends
            self.normalizable(),
    {
        let n = floor_sqrt(self.dot(self));
        if n == 0 {
            self
        } else {
            self.shrink(n)
        }
    }

    /// Cross product: the signed area that `self` and `o` span.
    pub open spec fn cross(self, o: Self) -> Vec1<int> {
        Vec1 { x: self.x * o.y - self.y * o.x }
    }

    /// The vector turned by a quarter turn.
    pub open spec fn perp(self) -> Self {
        Vec2 { x: -self.y, y: self.x }
    }

    /// The vector with a last component `1` added.
    pub open spec fn lifted(self) -> Vec3<int> {
        Vec3 { x: self.x, y: self.y, z: 1 }
    }

    /// The vector without its last component.
    pub open spec fn lowered(self) -> Vec1<int> {
        Vec1 { x: self.x }
    }

    /// Outer product: the matrix of the products of a component of `self`
    /// and a component of `o`.
    pub open spec fn outer(self, o: Self) -> Mat2<int> {
        Mat2 {
            m11: self.x * o.x, m12: self.x * o.y,
            m21: self.y * o.x, m22: self.y * o.y,
        }
    }
}

impl<N: Scalar> Vec2<N> {
    /// Component-wise sum.
    pub fn plus(&self, o: &Self) -> (r: Self)
        requires
            self@.sum(o@).fits::<N>(),
        ensures
            r@ == self@.sum(o@),
    {
        Vec2 { x: self.x.plus(o.x), y: self.y.plus(o.y) }
    }

    /// Component-wise difference.
    pub fn minus(&self, o: &Self) -> (r: Self)
        requires
            self@.diff(o@).fits::<N>(),
        ensures
            r@ == self@.diff(o@),
    {
        Vec2 { x: self.x.minus(o.x), y: self.y.minus(o.y) }
    }

    /// Every component multiplied by `k`.
    pub fn scaled(&self, k: N) -> (r: Self)
        requires
            self@.scale(k.val()).fits::<N>(),
        ensures
            r@ == self@.scale(k.val()),
    {
        Vec2 { x: self.x.times(k), y: self.y.times(k) }
    }

    /// A vector is determined by its view.
    pub proof fn lemma_view_injective(a: Self, b: Self)
        requires
            a@ == b@,
        ensures
            a == b,
    {
        a.x.lemma_val();
        b.x.lemma_val();
        a.y.lemma_val();
        b.y.lemma_val();
    }
}

impl<N> Dim for Vec2<N> {
    open spec fn dim_model() -> nat {
        2
    }

    fn dim() -> (r: usize) {
        2
    }
}

impl<N: Scalar> Zero for Vec2<N> {
    open spec fn is_zero(&self) -> bool {
        self@ == Vec2::<int>::origin()
    }

    fn zero() -> (r: Self) {
        let z = N::zero();
        proof {
            z.lemma_val();
        }
        Vec2 { x: z, y: z }
    }
}

impl<N: Scalar> Negate for Vec2<N> {
    open spec fn neg_fits(v: Vec2<int>) -> bool {
        v.opposite().fits::<N>()
    }

    open spec fn neg_model(v: Vec2<int>) -> Vec2<int> {
        v.opposite()
    }

    fn negated(&self) -> (r: Self) {
        Vec2 { x: self.x.neg(), y: self.y.neg() }
    }
}

impl<N: Scalar> Dot<N> for Vec2<N> {
    open spec fn dot_fits(a: Vec2<int>, b: Vec2<int>) -> bool {
        &&& fits::<N>(a.x * b.x)
        &&& fits::<N>(a.y * b.y)
        &&& fits::<N>(a.x * b.x + a.y * b.y)
    }

    open spec fn dot_model(a: Vec2<int>, b: Vec2<int>) -> int {
        a.dot(b)
    }

    open spec fn sub_dot_fits(a: Vec2<int>, b: Vec2<int>, c: Vec2<int>) -> bool {
        &&& fits::<N>(a.x - b.x)
        &&& fits::<N>(a.y - b.y)
        &&& fits::<N>((a.x - b.x) * c.x)
        &&& fits::<N>((a.y - b.y) * c.y)
        &&& fits::<N>((a.x - b.x) * c.x + (a.y - b.y) * c.y)
    }

    open spec fn sub_dot_model(a: Vec2<int>, b: Vec2<int>, c: Vec2<int>) -> int {
        a.diff(b).dot(c)
    }

    proof fn lemma_dot_symmetric(a: Vec2<int>, b: Vec2<int>) {
        lemma_comm(a.x, b.x);
        lemma_comm(a.y, b.y);
    }

    fn dot(&self, o: &Self) -> (r: N) {
        self.x.times(o.x).plus(self.y.times(o.y))
    }

    fn sub_dot(&self, b: &Self, c: &Self) -> (r: N) {
        self.x.minus(b.x).times(c.x)
            .plus(self.y.minus(b.y).times(c.y))
    }
}

impl<N: Algebraic> Norm<N> for Vec2<N> {
    open spec fn norm_fits(v: Vec2<int>) -> bool {
        <Vec2<N> as Dot<N>>::dot_fits(v, v)
    }

    open spec fn is_sqnorm(v: Vec2<int>, r: N) -> bool {
        r.val() == v.dot(v)
    }

    open spec fn is_norm(v: Vec2<int>, r: N) -> bool {
        r.val() == floor_sqrt(v.dot(v))
    }

    open spec fn normalized_fits(v: Vec2<int>) -> bool {
        &&& <Vec2<N> as Dot<N>>::dot_fits(v, v)
        &&& v.normalizable()
    }

    open spec fn normalized_model(v: Vec2<int>) -> Vec2<int> {
        v.normalized()
    }

    fn sqnorm(&self) -> (r: N) {
        self.dot(self)
    }

    fn norm(&self) -> (r: N) {
        proof {
            lemma_square_nonneg(self.x.val());
            lemma_square_nonneg(self.y.val());
        }
        self.dot(self).sqrt()
    }

    fn normalized(&self) -> (r: Self) {
        let mut res = *self;
        let _ = res.normalize();
        res
    }

    fn normalize(&mut self) -> (r: N) {
        let n = self.norm();
        let z = N::zero();
        proof {
            z.lemma_val();
            lemma_square_nonneg(self.x.val());
            lemma_square_nonneg(self.y.val());
            lemma_floor_sqrt(self@.dot(self@));
        }
        if !n.same(z) {
            proof {
                self.x.lemma_val();
                lemma_trunc_div_bounds(self.x.val(), n.val());
                self.y.lemma_val();
                lemma_trunc_div_bounds(self.y.val(), n.val());
            }
            self.x = self.x.quot(n);
            self.y = self.y.quot(n);
        }
        n
    }
}

impl<N: Scalar> Absolute<Vec2<N>> for Vec2<N> {
    open spec fn absolute_fits(m: Vec2<int>) -> bool {
        m.abs().fits::<N>()
    }

    open spec fn absolute_model(m: Vec2<int>) -> Vec2<int> {
        m.abs()
    }

    fn absolute(&self) -> (r: Vec2<N>) {
        Vec2 { x: self.x.abs(), y: self.y.abs() }
    }
}

impl<N: Scalar> Outer<Mat2<N>> for Vec2<N> {
    open spec fn outer_fits(a: Vec2<int>, b: Vec2<int>) -> bool {
        &&& fits::<N>(a.x * b.x)
        &&& fits::<N>(a.x * b.y)
        &&& fits::<N>(a.y * b.x)
        &&& fits::<N>(a.y * b.y)
    }

    open spec fn outer_model(a: Vec2<int>, b: Vec2<int>) -> Mat2<int> {
        a.outer(b)
    }

    fn outer(&self, o: &Self) -> (r: Mat2<N>) {
        Mat2 {
            m11: self.x.times(o.x),
            m12: self.x.times(o.y),
            m21: self.y.times(o.x),
            m22: self.y.times(o.y),
        }
    }
}

impl<N: Scalar> ToHomogeneous<Vec3<N>> for Vec2<N> {
    open spec fn to_homogeneous_model(m: Vec2<int>) -> Vec3<int> {
        m.lifted()
    }

    fn to_homogeneous(&self) -> (r: Vec3<N>) {
        let one = N::one();
        proof {
            one.lemma_val();
        }
        Vec3 { x: self.x, y: self.y, z: one }
    }
}

impl<N: Scalar> FromHomogeneous<Vec3<N>> for Vec2<N> {
    open spec fn from_fits(m: Vec3<int>) -> bool {
        true
    }

    open spec fn from_model(m: Vec3<int>) -> Vec2<int> {
        m.lowered()
    }

    fn from(m: &Vec3<N>) -> (r: Self) {
        Vec2 { x: m.x, y: m.y }
    }
}

impl<N: Cast<M>, M: Scalar> VecCast<Vec2<M>> for Vec2<N> {
    open spec fn cast_fits(v: Vec2<int>) -> bool {
        v.fits::<M>()
    }

    open spec fn cast_model(v: Vec2<int>) -> Vec2<int> {
        v
    }

    fn from(v: Self) -> (r: Vec2<M>) {
        Vec2 { x: v.x.cast(), y: v.y.cast() }
    }
}

impl<N: Scalar> Cross<Vec1<N>> for Vec2<N> {
    open spec fn cross_fits(a: Vec2<int>, b: Vec2<int>) -> bool {
        &&& fits::<N>(a.x * b.y)
        &&& fits::<N>(a.y * b.x)
        &&& a.cross(b).fits::<N>()
    }

    open spec fn cross_model(a: Vec2<int>, b: Vec2<int>) -> Vec1<int> {
        a.cross(b)
    }

    fn cross(&self, o: &Self) -> (r: Vec1<N>) {
        Vec1 { x: self.x.times(o.y).minus(self.y.times(o.x)) }
    }
}

impl<N: Scalar> CrossMatrix<Vec2<N>> for Vec2<N> {
    open spec fn cross_matrix_fits(v: Vec2<int>) -> bool {
        fits::<N>(-v.y)
    }

    open spec fn cross_matrix_model(v: Vec2<int>) -> Vec2<int> {
        v.perp()
    }

    fn cross_matrix(&self) -> (r: Vec2<N>) {
        Vec2 { x: self.y.neg(), y: self.x }
    }
}

impl<N: Algebraic> Basis for Vec2<N> {
    open spec fn canonical_basis_seq() -> Seq<Self> {
        seq![
            Vec2 { x: N::of(1), y: N::of(0) },
            Vec2 { x: N::of(0), y: N::of(1) },
        ]
    }

    open spec fn orthonormal_subspace_basis_fits(v: Vec2<int>) -> bool {
        &&& fits::<N>(-v.y)
        &&& <Vec2<N> as Norm<N>>::normalized_fits(v.perp())
    }

    open spec fn orthonormal_subspace_basis_model(v: Vec2<int>) -> Seq<Vec2<int>> {
        seq![v.perp().normalized()]
    }

    fn canonical_basis_list() -> (r: Vec<Self>) {
        let z = N::zero();
        let one = N::one();
        proof {
            z.lemma_val();
            one.lemma_val();
        }
        let mut res: Vec<Self> = Vec::new();
        res.push(Vec2 { x: one, y: z });
        res.push(Vec2 { x: z, y: one });
        assert(res@ =~= Self::canonical_basis_seq());
        res
    }

    fn orthonormal_subspace_basis_list(&self) -> (r: Vec<Self>) {
        let mut res: Vec<Self> = Vec::new();
        let p = Vec2 { x: self.y.neg(), y: self.x };
        res.push(<Vec2<N> as Norm<N>>::normalized(&p));
        res
    }
}

impl<N: Scalar> UniformSphereSample for Vec2<N> {
    open spec fn sample_points() -> Seq<Self> {
        seq![
            Vec2 { x: N::of(1), y: N::of(0) },
            Vec2 { x: N::of(-1), y: N::of(0) },
            Vec2 { x: N::of(0), y: N::of(1) },
            Vec2 { x: N::of(0), y: N::of(-1) },
        ]
    }

    fn sample() -> (r: Vec<Self>) {
        let z = N::zero();
        let one = N::one();
        proof {
            z.lemma_val();
            one.lemma_val();
            N::lemma_range();
        }
        let neg = one.neg();
        proof {
            neg.lemma_val();
        }
        let mut res: Vec<Self> = Vec::new();
        res.push(Vec2 { x: one, y: z });
        res.push(Vec2 { x: neg, y: z });
        res.push(Vec2 { x: z, y: one });
        res.push(Vec2 { x: z, y: neg });
        assert(res@ =~= Self::sample_points());
        res
    }
}

/// A vector of three components.
#[derive(Clone, Copy, Debug, PartialEq, Eq)]
pub struct Vec3<N> {
    pub x: N,
    pub y: N,
    pub z: N,
}

impl<N> Vec3<N> {
    /// The vector with the given components.
    pub fn new(x: N, y: N, z: N) -> (r: Self)
        ensures
            r == (Vec3 { x, y, z }),
    {
        Vec3 { x, y, z }
    }
}

impl<N: Scalar> View for Vec3<N> {
    type V = Vec3<int>;

    open spec fn view(&self) -> Vec3<int> {
        Vec3 { x: self.x.val(), y: self.y.val(), z: self.z.val() }
    }
}

impl Vec3<int> {
    /// The zero vector.
    pub open spec fn origin() -> Self {
        Vec3 { x: 0, y: 0, z: 0 }
    }

    /// Whether every component is representable in the scalar type `N`.
    pub open spec fn fits<N: Scalar>(self) -> bool {
        &&& fits::<N>(self.x)
        &&& fits::<N>(self.y)
        &&& fits::<N>(self.z)
    }

    /// Component-wise sum.
    pub open spec fn sum(self, o: Self) -> Self {
        Vec3 { x: self.x + o.x, y: self.y + o.y, z: self.z + o.z }
    }

    /// Component-wise difference.
    pub open spec fn diff(self, o: Self) -> Self {
        Vec3 { x: self.x - o.x, y: self.y - o.y, z: self.z - o.z }
    }

    /// Additive inverse.
    pub open spec fn opposite(self) -> Self {
        Vec3 { x: -self.x, y: -self.y, z: -self.z }
    }

    /// Every component multiplied by `k`.
    pub open spec fn scale(self, k: int) -> Self {
        Vec3 { x: self.x * k, y: self.y * k, z: self.z * k }
    }

    /// Every component divided by `k`, rounding toward zero.
    pub open spec fn shrink(self, k: int) -> Self {
        Vec3 { x: trunc_div(self.x, k), y: trunc_div(self.y, k), z: trunc_div(self.z, k) }
    }

    /// Component-wise absolute value.
    pub open spec fn abs(self) -> Self {
        Vec3 { x: abs_int(self.x), y: abs_int(self.y), z: abs_int(self.z) }
    }

    /// Inner product.
    pub open spec fn dot(self, o: Self) -> int {
        self.x * o.x + self.y * o.y + self.z * o.z
    }

    /// Whether the vector has a normalized form with integer components: its
    /// norm is an integer that divides every component.
    pub open spec fn normalizable(self) -> bool {
        let n = floor_sqrt(self.dot(self));
        &&& n * n == self.dot(self)
        &&& n != 0 ==> self.x % n == 0 && self.y % n == 0 && self.z % n == 0
    }

    /// The vector scaled to norm one, where it is normalizable: every component
    /// divided by the norm. The zero vector is left as it is.
    pub open spec fn normalized(self) -> Self
        recommends
            self.normalizable(),
    {
        let n = floor_sqrt(self.dot(self));
        if n == 0 {
            self
        } else {
            self.shrink(n)
        }
    }

    /// Cross product.
    pub open spec fn cross(self, o: Self) -> Self {
        Vec3 {
            x: self.y * o.z - self.z * o.y,
            y: self.z * o.x - self.x * o.z,
            z: self.x * o.y - self.y * o.x,
        }
    }

    /// Triple product: the inner product of `self` and the cross product of
    /// `b` and `c`.
    pub open spec fn triple(self, b: Self, c: Self) -> int {
        self.dot(b.cross(c))
    }

    /// The matrix that takes every vector `w` to the cross product of `self`
    /// and `w`.
    pub open spec fn cross_matrix(self) -> Mat3<int> {
        Mat3 {
            m11: 0, m12: -self.z, m13: self.y,
            m21: self.z, m22: 0, m23: -self.x,
            m31: -self.y, m32: self.x, m33: 0,
        }
    }

    /// A vector orthogonal to `self`, which is not zero unless `self` is.
    pub open spec fn any_orthogonal(self) -> Self {
        if abs_int(self.x) > abs_int(self.y) {
            Vec3 { x: self.z, y: 0, z: -self.x }
        } else {
            Vec3 { x: 0, y: -self.z, z: self.y }
        }
    }

    /// The vector with a last component `1` added.
    pub open spec fn lifted(self) -> Vec4<int> {
        Vec4 { x: self.x, y: self.y, z: self.z, w: 1 }
    }

    /// The vector without its last component.
    pub open spec fn lowered(self) -> Vec2<int> {
        Vec2 { x: self.x, y: self.y }
    }

    /// Outer product: the matrix of the products of a component of `self`
    /// and a component of `o`.
    pub open spec fn outer(self, o: Self) -> Mat3<int> {
        Mat3 {
            m11: self.x * o.x, m12: self.x * o.y, m13: self.x * o.z,
            m21: self.y * o.x, m22: self.y * o.y, m23: self.y * o.z,
            m31: self.z * o.x, m32: self.z * o.y, m33: self.z * o.z,
        }
    }
}

impl<N: Scalar> Vec3<N> {
    /// Component-wise sum.
    pub fn plus(&self, o: &Self) -> (r: Self)
        requires
            self@.sum(o@).fits::<N>(),
        ensures
            r@ == self@.sum(o@),
    {
        Vec3 { x: self.x.plus(o.x), y: self.y.plus(o.y), z: self.z.plus(o.z) }
    }

    /// Component-wise difference.
    pub fn minus(&self, o: &Self) -> (r: Self)
        requires
            self@.diff(o@).fits::<N>(),
        ensures
            r@ == self@.diff(o@),
    {
        Vec3 { x: self.x.minus(o.x), y: self.y.minus(o.y), z: self.z.minus(o.z) }
    }

    /// Every component multiplied by `k`.
    pub fn scaled(&self, k: N) -> (r: Self)
        requires
            self@.scale(k.val()).fits::<N>(),
        ensures
            r@ == self@.scale(k.val()),
    {
        Vec3 { x: self.x.times(k), y: self.y.times(k), z: self.z.times(k) }
    }

    /// A vector is determined by its view.
    pub proof fn lemma_view_injective(a: Self, b: Self)
        requires
            a@ == b@,
        ensures
            a == b,
    {
        a.x.lemma_val();
        b.x.lemma_val();
        a.y.lemma_val();
        b.y.lemma_val();
        a.z.lemma_val();
        b.z.lemma_val();
    }
}

impl<N> Dim for Vec3<N> {
    open spec fn dim_model() -> nat {
        3
    }

    fn dim() -> (r: usize) {
        3
    }
}

impl<N: Scalar> Zero for Vec3<N> {
    open spec fn is_zero(&self) -> bool {
        self@ == Vec3::<int>::origin()
    }

    fn zero() -> (r: Self) {
        let z = N::zero();
        proof {
            z.lemma_val();
        }
        Vec3 { x: z, y: z, z: z }
    }
}

impl<N: Scalar> Negate for Vec3<N> {
    open spec fn neg_fits(v: Vec3<int>) -> bool {
        v.opposite().fits::<N>()
    }

    open spec fn neg_model(v: Vec3<int>) -> Vec3<int> {
        v.opposite()
    }

    fn negated(&self) -> (r: Self) {
        Vec3 { x: self.x.neg(), y: self.y.neg(), z: self.z.neg() }
    }
}

impl<N: Scalar> Dot<N> for Vec3<N> {
    open spec fn dot_fits(a: Vec3<int>, b: Vec3<int>) -> bool {
        &&& fits::<N>(a.x * b.x)
        &&& fits::<N>(a.y * b.y)
        &&& fits::<N>(a.z * b.z)
        &&& fits::<N>(a.x * b.x + a.y * b.y)
        &&& fits::<N>(a.x * b.x + a.y * b.y + a.z * b.z)
    }

    open spec fn dot_model(a: Vec3<int>, b: Vec3<int>) -> int {
        a.dot(b)
    }

    open spec fn sub_dot_fits(a: Vec3<int>, b: Vec3<int>, c: Vec3<int>) -> bool {
        &&& fits::<N>(a.x - b.x)
        &&& fits::<N>(a.y - b.y)
        &&& fits::<N>(a.z - b.z)
        &&& fits::<N>((a.x - b.x) * c.x)
        &&& fits::<N>((a.y - b.y) * c.y)
        &&& fits::<N>((a.z - b.z) * c.z)
        &&& fits::<N>((a.x - b.x) * c.x + (a.y - b.y) * c.y)
        &&& fits::<N>((a.x - b.x) * c.x + (a.y - b.y) * c.y + (a.z - b.z) * c.z)
    }

    open spec fn sub_dot_model(a: Vec3<int>, b: Vec3<int>, c: Vec3<int>) -> int {
        a.diff(b).dot(c)
    }

    proof fn lemma_dot_symmetric(a: Vec3<int>, b: Vec3<int>) {
        lemma_comm(a.x, b.x);
        lemma_comm(a.y, b.y);
        lemma_comm(a.z, b.z);
    }

    fn dot(&self, o: &Self) -> (r: N) {
        self.x.times(o.x).plus(self.y.times(o.y)).plus(self.z.times(o.z))
    }

    fn sub_dot(&self, b: &Self, c: &Self) -> (r: N) {
        self.x.minus(b.x).times(c.x)
            .plus(self.y.minus(b.y).times(c.y))
            .plus(self.z.minus(b.z).times(c.z))
    }
}

impl<N: Algebraic> Norm<N> for Vec3<N> {
    open spec fn norm_fits(v: Vec3<int>) -> bool {
        <Vec3<N> as Dot<N>>::dot_fits(v, v)
    }

    open spec fn is_sqnorm(v: Vec3<int>, r: N) -> bool {
        r.val() == v.dot(v)
    }

    open spec fn is_norm(v: Vec3<int>, r: N) -> bool {
        r.val() == floor_sqrt(v.dot(v))
    }

    open spec fn normalized_fits(v: Vec3<int>) -> bool {
        &&& <Vec3<N> as Dot<N>>::dot_fits(v, v)
        &&& v.normalizable()
    }

    open spec fn normalized_model(v: Vec3<int>) -> Vec3<int> {
        v.normalized()
    }

    fn sqnorm(&self) -> (r: N) {
        self.dot(self)
    }

    fn norm(&self) -> (r: N) {
        proof {
            lemma_square_nonneg(self.x.val());
            lemma_square_nonneg(self.y.val());
            lemma_square_nonneg(self.z.val());
        }
        self.dot(self).sqrt()
    }

    fn normalized(&self) -> (r: Self) {
        let mut res = *self;
        let _ = res.normalize();
        res
    }

    fn normalize(&mut self) -> (r: N) {
        let n = self.norm();
        let z = N::zero();
        proof {
            z.lemma_val();
            lemma_square_nonneg(self.x.val());
            lemma_square_nonneg(self.y.val());
            lemma_square_nonneg(self.z.val());
            lemma_floor_sqrt(self@.dot(self@));
        }
        if !n.same(z) {
            proof {
                self.x.lemma_val();
                lemma_trunc_div_bounds(self.x.val(), n.val());
                self.y.lemma_val();
                lemma_trunc_div_bounds(self.y.val(), n.val());
                self.z.lemma_val();
                lemma_trunc_div_bounds(self.z.val(), n.val());
            }
            self.x = self.x.quot(n);
            self.y = self.y.quot(n);
            self.z = self.z.quot(n);
        }
        n
    }
}

impl<N: Scalar> Absolute<Vec3<N>> for Vec3<N> {
    open spec fn absolute_fits(m: Vec3<int>) -> bool {
        m.abs().fits::<N>()
    }

    open spec fn absolute_model(m: Vec3<int>) -> Vec3<int> {
        m.abs()
    }

    fn absolute(&self) -> (r: Vec3<N>) {
        Vec3 { x: self.x.abs(), y: self.y.abs(), z: self.z.abs() }
    }
}

impl<N: Scalar> Outer<Mat3<N>> for Vec3<N> {
    open spec fn outer_fits(a: Vec3<int>, b: Vec3<int>) -> bool {
        &&& fits::<N>(a.x * b.x)
        &&& fits::<N>(a.x * b.y)
        &&& fits::<N>(a.x * b.z)
        &&& fits::<N>(a.y * b.x)
        &&& fits::<N>(a.y * b.y)
        &&& fits::<N>(a.y * b.z)
        &&& fits::<N>(a.z * b.x)
        &&& fits::<N>(a.z * b.y)
        &&& fits::<N>(a.z * b.z)
    }

    open spec fn outer_model(a: Vec3<int>, b: Vec3<int>) -> Mat3<int> {
        a.outer(b)
    }

    fn outer(&self, o: &Self) -> (r: Mat3<N>) {
        Mat3 {
            m11: self.x.times(o.x),
            m12: self.x.times(o.y),
            m13: self.x.times(o.z),
            m21: self.y.times(o.x),
            m22: self.y.times(o.y),
            m23: self.y.times(o.z),
            m31: self.z.times(o.x),
            m32: self.z.times(o.y),
            m33: self.z.times(o.z),
        }
    }
}

impl<N: Scalar> ToHomogeneous<Vec4<N>> for Vec3<N> {
    open spec fn to_homogeneous_model(m: Vec3<int>) -> Vec4<int> {
        m.lifted()
    }

    fn to_homogeneous(&self) -> (r: Vec4<N>) {
        let one = N::one();
        proof {
            one.lemma_val();
        }
        Vec4 { x: self.x, y: self.y, z: self.z, w: one }
    }
}

impl<N: Scalar> FromHomogeneous<Vec4<N>> for Vec3<N> {
    open spec fn from_fits(m: Vec4<int>) -> bool {
        true
    }

    open spec fn from_model(m: Vec4<int>) -> Vec3<int> {
        m.lowered()
    }

    fn from(m: &Vec4<N>) -> (r: Self) {
        Vec3 { x: m.x, y: m.y, z: m.z }
    }
}

impl<N: Cast<M>, M: Scalar> VecCast<Vec3<M>> for Vec3<N> {
    open spec fn cast_fits(v: Vec3<int>) -> bool {
        v.fits::<M>()
    }

    open spec fn cast_model(v: Vec3<int>) -> Vec3<int> {
        v
    }

    fn from(v: Self) -> (r: Vec3<M>) {
        Vec3 { x: v.x.cast(), y: v.y.cast(), z: v.z.cast() }
    }
}

impl<N: Scalar> Cross<Vec3<N>> for Vec3<N> {
    open spec fn cross_fits(a: Vec3<int>, b: Vec3<int>) -> bool {
        &&& fits::<N>(a.y * b.z)
        &&& fits::<N>(a.z * b.y)
        &&& fits::<N>(a.z * b.x)
        &&& fits::<N>(a.x * b.z)
        &&& fits::<N>(a.x * b.y)
        &&& fits::<N>(a.y * b.x)
        &&& a.cross(b).fits::<N>()
    }

    open spec fn cross_model(a: Vec3<int>, b: Vec3<int>) -> Vec3<int> {
        a.cross(b)
    }

    fn cross(&self, o: &Self) -> (r: Vec3<N>) {
        Vec3 {
            x: self.y.times(o.z).minus(self.z.times(o.y)),
            y: self.z.times(o.x).minus(self.x.times(o.z)),
            z: self.x.times(o.y).minus(self.y.times(o.x)),
        }
    }
}

impl<N: Scalar> CrossMatrix<Mat3<N>> for Vec3<N> {
    open spec fn cross_matrix_fits(v: Vec3<int>) -> bool {
        v.opposite().fits::<N>()
    }

    open spec fn cross_matrix_model(v: Vec3<int>) -> Mat3<int> {
        v.cross_matrix()
    }

    fn cross_matrix(&self) -> (r: Mat3<N>) {
        let z = N::zero();
        proof {
            z.lemma_val();
        }
        Mat3 {
            m11: z,
            m12: self.z.neg(),
            m13: self.y,
            m21: self.z,
            m22: z,
            m23: self.x.neg(),
            m31: self.y.neg(),
            m32: self.x,
            m33: z,
        }
    }
}

impl<N: Algebraic> Basis for Vec3<N> {
    open spec fn canonical_basis_seq() -> Seq<Self> {
        seq![
            Vec3 { x: N::of(1), y: N::of(0), z: N::of(0) },
            Vec3 { x: N::of(0), y: N::of(1), z: N::of(0) },
            Vec3 { x: N::of(0), y: N::of(0), z: N::of(1) },
        ]
    }

    open spec fn orthonormal_subspace_basis_fits(v: Vec3<int>) -> bool {
        &&& fits::<N>(abs_int(v.x))
        &&& fits::<N>(abs_int(v.y))
        &&& abs_int(v.x) > abs_int(v.y) ==> fits::<N>(-v.x)
        &&& abs_int(v.x) <= abs_int(v.y) ==> fits::<N>(-v.z)
        &&& <Vec3<N> as Cross<Vec3<N>>>::cross_fits(v.any_orthogonal(), v)
        &&& <Vec3<N> as Norm<N>>::normalized_fits(v.any_orthogonal().cross(v))
        &&& <Vec3<N> as Norm<N>>::normalized_fits(v.any_orthogonal())
    }

    open spec fn orthonormal_subspace_basis_model(v: Vec3<int>) -> Seq<Vec3<int>> {
        seq![v.any_orthogonal().cross(v).normalized(), v.any_orthogonal().normalized()]
    }

    fn canonical_basis_list() -> (r: Vec<Self>) {
        let z = N::zero();
        let one = N::one();
        proof {
            z.lemma_val();
            one.lemma_val();
        }
        let mut res: Vec<Self> = Vec::new();
        res.push(Vec3 { x: one, y: z, z: z });
        res.push(Vec3 { x: z, y: one, z: z });
        res.push(Vec3 { x: z, y: z, z: one });
        assert(res@ =~= Self::canonical_basis_seq());
        res
    }

    fn orthonormal_subspace_basis_list(&self) -> (r: Vec<Self>) {
        let mut res: Vec<Self> = Vec::new();
        let z = N::zero();
        proof {
            z.lemma_val();
        }
        let a = if self.y.abs().lt(self.x.abs()) {
            Vec3 { x: self.z, y: z, z: self.x.neg() }
        } else {
            Vec3 { x: z, y: self.z.neg(), z: self.y }
        };
        let c: Vec3<N> = a.cross(self);
        res.push(<Vec3<N> as Norm<N>>::normalized(&c));
        res.push(<Vec3<N> as Norm<N>>::normalized(&a));
        res
    }
}

impl<N: Scalar> UniformSphereSample for Vec3<N> {
    open spec fn sample_points() -> Seq<Self> {
        seq![
            Vec3 { x: N::of(1), y: N::of(0), z: N::of(0) },
            Vec3 { x: N::of(-1), y: N::of(0), z: N::of(0) },
            Vec3 { x: N::of(0), y: N::of(1), z: N::of(0) },
            Vec3 { x: N::of(0), y: N::of(-1), z: N::of(0) },
            Vec3 { x: N::of(0), y: N::of(0), z: N::of(1) },
            Vec3 { x: N::of(0), y: N::of(0), z: N::of(-1) },
        ]
    }

    fn sample() -> (r: Vec<Self>) {
        let z = N::zero();
        let one = N::one();
        proof {
            z.lemma_val();
            one.lemma_val();
            N::lemma_range();
        }
        let neg = one.neg();
        proof {
            neg.lemma_val();
        }
        let mut res: Vec<Self> = Vec::new();
        res.push(Vec3 { x: one, y: z, z: z });
        res.push(Vec3 { x: neg, y: z, z: z });
        res.push(Vec3 { x: z, y: one, z: z });
        res.push(Vec3 { x: z, y: neg, z: z });
        res.push(Vec3 { x: z, y: z, z: one });
        res.push(Vec3 { x: z, y: z, z: neg });
        assert(res@ =~= Self::sample_points());
        res
    }
}

/// A vector of four components.
#[derive(Clone, Copy, Debug, PartialEq, Eq)]
pub struct Vec4<N> {
    pub x: N,
    pub y: N,
    pub z: N,
    pub w: N,
}

impl<N> Vec4<N> {
    /// The vector with the given components.
    pub fn new(x: N, y: N, z: N, w: N) -> (r: Self)
        ensures
            r == (Vec4 { x, y, z, w }),
    {
        Vec4 { x, y, z, w }
    }
}

impl<N: Scalar> View for Vec4<N> {
    type V = Vec4<int>;

    open spec fn view(&self) -> Vec4<int> {
        Vec4 { x: self.x.val(), y: self.y.val(), z: self.z.val(), w: self.w.val() }
    }
}

impl Vec4<int> {
    /// The zero vector.
    pub open spec fn origin() -> Self {
        Vec4 { x: 0, y: 0, z: 0, w: 0 }
    }

    /// Whether every component is representable in the scalar type `N`.
    pub open spec fn fits<N: Scalar>(self) -> bool {
        &&& fits::<N>(self.x)
        &&& fits::<N>(self.y)
        &&& fits::<N>(self.z)
        &&& fits::<N>(self.w)
    }

    /// Component-wise sum.
    pub open spec fn sum(self, o: Self) -> Self {
        Vec4 { x: self.x + o.x, y: self.y + o.y, z: self.z + o.z, w: self.w + o.w }
    }

    /// Component-wise difference.
    pub open spec fn diff(self, o: Self) -> Self {
        Vec4 { x: self.x - o.x, y: self.y - o.y, z: self.z - o.z, w: self.w - o.w }
    }

    /// Additive inverse.
    pub open spec fn opposite(self) -> Self {
        Vec4 { x: -self.x, y: -self.y, z: -self.z, w: -self.w }
    }

    /// Every component multiplied by `k`.
    pub open spec fn scale(self, k: int) -> Self {
        Vec4 { x: self.x * k, y: self.y * k, z: self.z * k, w: self.w * k }
    }

    /// Every component divided by `k`, rounding toward zero.
    pub open spec fn shrink(self, k: int) -> Self {
        Vec4 { x: trunc_div(self.x, k), y: trunc_div(self.y, k), z: trunc_div(self.z, k),
            w: trunc_div(self.w, k) }
    }

    /// Component-wise absolute value.
    pub open spec fn abs(self) -> Self {
        Vec4 { x: abs_int(self.x), y: abs_int(self.y), z: abs_int(self.z), w: abs_int(self.w) }
    }

    /// Inner product.
    pub open spec fn dot(self, o: Self) -> int {
        self.x * o.x + self.y * o.y + self.z * o.z + self.w * o.w
    }

    /// Whether the vector has a normalized form with integer components: its
    /// norm is an integer that divides every component.
    pub open spec fn normalizable(self) -> bool {
        let n = floor_sqrt(self.dot(self));
        &&& n * n == self.dot(self)
        &&& n != 0 ==> self.x % n == 0 && self.y % n == 0 && self.z % n == 0 && self.w % n == 0
    }

    /// The vector scaled to norm one, where it is normalizable: every component
    /// divided by the norm. The zero vector is left as it is.
    pub open spec fn normalized(self) -> Self
        recommends
            self.normalizable(),
    {
        let n = floor_sqrt(self.dot(self));
        if n == 0 {
            self
        } else {
            self.shrink(n)
        }
    }

    /// The cross product of three vectors of four components: a vector
    /// orthogonal to `self`, `c` and `d`.
    pub open spec fn cross3(self, c: Self, d: Self) -> Self {
        Vec4 {
            x: self.y * (c.z * d.w - c.w * d.z) - self.z * (c.y * d.w - c.w * d.y) + self.w * (c.y
                * d.z - c.z * d.y),
            y: self.z * (c.x * d.w - c.w * d.x) - self.x * (c.z * d.w - c.w * d.z) - self.w * (c.x
                * d.z - c.z * d.x),
            z: self.x * (c.y * d.w - c.w * d.y) - self.y * (c.x * d.w - c.w * d.x) + self.w * (c.x
                * d.y - c.y * d.x),
            w: self.y * (c.x * d.z - c.z * d.x) - self.x * (c.y * d.z - c.z * d.y) - self.z * (c.x
                * d.y - c.y * d.x),
        }
    }

    /// The determinant of the matrix whose rows are `self`, `b`, `c` and `d`.
    pub open spec fn det4(self, b: Self, c: Self, d: Self) -> int {
        self.dot(b.cross3(c, d))
    }

    /// Whether every step of the cross product of `b`, `c` and `d` is
    /// representable in `N`.
    pub open spec fn cross3_fits<N: Scalar>(b: Self, c: Self, d: Self) -> bool {
        &&& fits::<N>(c.x * d.y)
        &&& fits::<N>(c.y * d.x)
        &&& fits::<N>(c.x * d.y - c.y * d.x)
        &&& fits::<N>(c.x * d.z)
        &&& fits::<N>(c.z * d.x)
        &&& fits::<N>(c.x * d.z - c.z * d.x)
        &&& fits::<N>(c.x * d.w)
        &&& fits::<N>(c.w * d.x)
        &&& fits::<N>(c.x * d.w - c.w * d.x)
        &&& fits::<N>(c.y * d.z)
        &&& fits::<N>(c.z * d.y)
        &&& fits::<N>(c.y * d.z - c.z * d.y)
        &&& fits::<N>(c.y * d.w)
        &&& fits::<N>(c.w * d.y)
        &&& fits::<N>(c.y * d.w - c.w * d.y)
        &&& fits::<N>(c.z * d.w)
        &&& fits::<N>(c.w * d.z)
        &&& fits::<N>(c.z * d.w - c.w * d.z)
        &&& fits::<N>(b.y * (c.z * d.w - c.w * d.z))
        &&& fits::<N>(b.z * (c.y * d.w - c.w * d.y))
        &&& fits::<N>(b.w * (c.y * d.z - c.z * d.y))
        &&& fits::<N>(b.y * (c.z * d.w - c.w * d.z) - b.z * (c.y * d.w - c.w * d.y))
        &&& fits::<N>(b.z * (c.x * d.w - c.w * d.x))
        &&& fits::<N>(b.x * (c.z * d.w - c.w * d.z))
        &&& fits::<N>(b.w * (c.x * d.z - c.z * d.x))
        &&& fits::<N>(b.z * (c.x * d.w - c.w * d.x) - b.x * (c.z * d.w - c.w * d.z))
        &&& fits::<N>(b.x * (c.y * d.w - c.w * d.y))
        &&& fits::<N>(b.y * (c.x * d.w - c.w * d.x))
        &&& fits::<N>(b.w * (c.x * d.y - c.y * d.x))
        &&& fits::<N>(b.x * (c.y * d.w - c.w * d.y) - b.y * (c.x * d.w - c.w * d.x))
        &&& fits::<N>(b.y * (c.x * d.z - c.z * d.x))
        &&& fits::<N>(b.x * (c.y * d.z - c.z * d.y))
        &&& fits::<N>(b.z * (c.x * d.y - c.y * d.x))
        &&& fits::<N>(b.y * (c.x * d.z - c.z * d.x) - b.x * (c.y * d.z - c.z * d.y))
        &&& b.cross3(c, d).fits::<N>()
    }

    /// The first of three vectors orthogonal to `self` and to each other.
    pub open spec fn perp1(self) -> Self {
        Vec4 { x: -self.y, y: self.x, z: -self.w, w: self.z }
    }

    /// The second of three vectors orthogonal to `self` and to each other.
    pub open spec fn perp2(self) -> Self {
        Vec4 { x: -self.z, y: self.w, z: self.x, w: -self.y }
    }

    /// The third of three vectors orthogonal to `self` and to each other.
    pub open spec fn perp3(self) -> Self {
        Vec4 { x: -self.w, y: -self.z, z: self.y, w: self.x }
    }

    /// The vector with a last component `1` added.
    pub open spec fn lifted(self) -> Vec5<int> {
        Vec5 { x: self.x, y: self.y, z: self.z, w: self.w, a: 1 }
    }

    /// The vector without its last component.
    pub open spec fn lowered(self) -> Vec3<int> {
        Vec3 { x: self.x, y: self.y, z: self.z }
    }

    /// Outer product: the matrix of the products of a component of `self`
    /// and a component of `o`.
    pub open spec fn outer(self, o: Self) -> Mat4<int> {
        Mat4 {
            m11: self.x * o.x, m12: self.x * o.y, m13: self.x * o.z, m14: self.x * o.w,
            m21: self.y * o.x, m22: self.y * o.y, m23: self.y * o.z, m24: self.y * o.w,
            m31: self.z * o.x, m32: self.z * o.y, m33: self.z * o.z, m34: self.z * o.w,
            m41: self.w * o.x, m42: self.w * o.y, m43: self.w * o.z, m44: self.w * o.w,
        }
    }
}

impl<N: Scalar> Vec4<N> {
    /// Component-wise sum.
    pub fn plus(&self, o: &Self) -> (r: Self)
        requires
            self@.sum(o@).fits::<N>(),
        ensures
            r@ == self@.sum(o@),
    {
        Vec4 { x: self.x.plus(o.x), y: self.y.plus(o.y), z: self.z.plus(o.z), w: self.w.plus(o.w) }
    }

    /// Component-wise difference.
    pub fn minus(&self, o: &Self) -> (r: Self)
        requires
            self@.diff(o@).fits::<N>(),
        ensures
            r@ == self@.diff(o@),
    {
        Vec4 { x: self.x.minus(o.x), y: self.y.minus(o.y), z: self.z.minus(o.z), w: self.w
            .minus(o.w) }
    }

    /// Every component multiplied by `k`.
    pub fn scaled(&self, k: N) -> (r: Self)
        requires
            self@.scale(k.val()).fits::<N>(),
        ensures
            r@ == self@.scale(k.val()),
    {
        Vec4 { x: self.x.times(k), y: self.y.times(k), z: self.z.times(k), w: self.w.times(k) }
    }

    /// The cross product of three vectors of four components: a vector
    /// orthogonal to `self`, `c` and `d`.
    pub fn cross3(&self, c: &Self, d: &Self) -> (r: Self)
        requires
            Vec4::<int>::cross3_fits::<N>(self@, c@, d@),
        ensures
            r@ == self@.cross3(c@, d@),
    {
        let xy = c.x.times(d.y).minus(c.y.times(d.x));
        let xz = c.x.times(d.z).minus(c.z.times(d.x));
        let xw = c.x.times(d.w).minus(c.w.times(d.x));
        let yz = c.y.times(d.z).minus(c.z.times(d.y));
        let yw = c.y.times(d.w).minus(c.w.times(d.y));
        let zw = c.z.times(d.w).minus(c.w.times(d.z));
        Vec4 {
            x: self.y.times(zw).minus(self.z.times(yw)).plus(self.w.times(yz)),
            y: self.z.times(xw).minus(self.x.times(zw)).minus(self.w.times(xz)),
            z: self.x.times(yw).minus(self.y.times(xw)).plus(self.w.times(xy)),
            w: self.y.times(xz).minus(self.x.times(yz)).minus(self.z.times(xy)),
        }
    }

    /// A vector is determined by its view.
    pub proof fn lemma_view_injective(a: Self, b: Self)
        requires
            a@ == b@,
        ensures
            a == b,
    {
        a.x.lemma_val();
        b.x.lemma_val();
        a.y.lemma_val();
        b.y.lemma_val();
        a.z.lemma_val();
        b.z.lemma_val();
        a.w.lemma_val();
        b.w.lemma_val();
    }
}

impl<N> Dim for Vec4<N> {
    open spec fn dim_model() -> nat {
        4
    }

    fn dim() -> (r: usize) {
        4
    }
}

impl<N: Scalar> Zero for Vec4<N> {
    open spec fn is_zero(&self) -> bool {
        self@ == Vec4::<int>::origin()
    }

    fn zero() -> (r: Self) {
        let z = N::zero();
        proof {
            z.lemma_val();
        }
        Vec4 { x: z, y: z, z: z, w: z }
    }
}

impl<N: Scalar> Negate for Vec4<N> {
    open spec fn neg_fits(v: Vec4<int>) -> bool {
        v.opposite().fits::<N>()
    }

    open spec fn neg_model(v: Vec4<int>) -> Vec4<int> {
        v.opposite()
    }

    fn negated(&self) -> (r: Self) {
        Vec4 { x: self.x.neg(), y: self.y.neg(), z: self.z.neg(), w: self.w.neg() }
    }
}

impl<N: Scalar> Dot<N> for Vec4<N> {
    open spec fn dot_fits(a: Vec4<int>, b: Vec4<int>) -> bool {
        &&& fits::<N>(a.x * b.x)
        &&& fits::<N>(a.y * b.y)
        &&& fits::<N>(a.z * b.z)
        &&& fits::<N>(a.w * b.w)
        &&& fits::<N>(a.x * b.x + a.y * b.y)
        &&& fits::<N>(a.x * b.x + a.y * b.y + a.z * b.z)
        &&& fits::<N>(a.x * b.x + a.y * b.y + a.z * b.z + a.w * b.w)
    }

    open spec fn dot_model(a: Vec4<int>, b: Vec4<int>) -> int {
        a.dot(b)
    }

    open spec fn sub_dot_fits(a: Vec4<int>, b: Vec4<int>, c: Vec4<int>) -> bool {
        &&& fits::<N>(a.x - b.x)
        &&& fits::<N>(a.y - b.y)
        &&& fits::<N>(a.z - b.z)
        &&& fits::<N>(a.w - b.w)
        &&& fits::<N>((a.x - b.x) * c.x)
        &&& fits::<N>((a.y - b.y) * c.y)
        &&& fits::<N>((a.z - b.z) * c.z)
        &&& fits::<N>((a.w - b.w) * c.w)
        &&& fits::<N>((a.x - b.x) * c.x + (a.y - b.y) * c.y)
        &&& fits::<N>((a.x - b.x) * c.x + (a.y - b.y) * c.y + (a.z - b.z) * c.z)
        &&& fits::<N>((a.x - b.x) * c.x + (a.y - b.y) * c.y + (a.z - b.z) * c.z + (a.w - b.w) * c.w)
    }

    open spec fn sub_dot_model(a: Vec4<int>, b: Vec4<int>, c: Vec4<int>) -> int {
        a.diff(b).dot(c)
    }

    proof fn lemma_dot_symmetric(a: Vec4<int>, b: Vec4<int>) {
        lemma_comm(a.x, b.x);
        lemma_comm(a.y, b.y);
        lemma_comm(a.z, b.z);
        lemma_comm(a.w, b.w);
    }

    fn dot(&self, o: &Self) -> (r: N) {
        self.x.times(o.x).plus(self.y.times(o.y)).plus(self.z.times(o.z)).plus(self.w.times(o.w))
    }

    fn sub_dot(&self, b: &Self, c: &Self) -> (r: N) {
        self.x.minus(b.x).times(c.x)
            .plus(self.y.minus(b.y).times(c.y))
            .plus(self.z.minus(b.z).times(c.z))
            .plus(self.w.minus(b.w).times(c.w))
    }
}

impl<N: Algebraic> Norm<N> for Vec4<N> {
    open spec fn norm_fits(v: Vec4<int>) -> bool {
        <Vec4<N> as Dot<N>>::dot_fits(v, v)
    }

    open spec fn is_sqnorm(v: Vec4<int>, r: N) -> bool {
        r.val() == v.dot(v)
    }

    open spec fn is_norm(v: Vec4<int>, r: N) -> bool {
        r.val() == floor_sqrt(v.dot(v))
    }

    open spec fn normalized_fits(v: Vec4<int>) -> bool {
        &&& <Vec4<N> as Dot<N>>::dot_fits(v, v)
        &&& v.normalizable()
    }

    open spec fn normalized_model(v: Vec4<int>) -> Vec4<int> {
        v.normalized()
    }

    fn sqnorm(&self) -> (r: N) {
        self.dot(self)
    }

    fn norm(&self) -> (r: N) {
        proof {
            lemma_square_nonneg(self.x.val());
            lemma_square_nonneg(self.y.val());
            lemma_square_nonneg(self.z.val());
            lemma_square_nonneg(self.w.val());
        }
        self.dot(self).sqrt()
    }

    fn normalized(&self) -> (r: Self) {
        let mut res = *self;
        let _ = res.normalize();
        res
    }

    fn normalize(&mut self) -> (r: N) {
        let n = self.norm();
        let z = N::zero();
        proof {
            z.lemma_val();
            lemma_square_nonneg(self.x.val());
            lemma_square_nonneg(self.y.val());
            lemma_square_nonneg(self.z.val());
            lemma_square_nonneg(self.w.val());
            lemma_floor_sqrt(self@.dot(self@));
        }
        if !n.same(z) {
            proof {
                self.x.lemma_val();
                lemma_trunc_div_bounds(self.x.val(), n.val());
                self.y.lemma_val();
                lemma_trunc_div_bounds(self.y.val(), n.val());
                self.z.lemma_val();
                lemma_trunc_div_bounds(self.z.val(), n.val());
                self.w.lemma_val();
                lemma_trunc_div_bounds(self.w.val(), n.val());
            }
            self.x = self.x.quot(n);
            self.y = self.y.quot(n);
            self.z = self.z.quot(n);
            self.w = self.w.quot(n);
        }
        n
    }
}

impl<N: Scalar> Absolute<Vec4<N>> for Vec4<N> {
    open spec fn absolute_fits(m: Vec4<int>) -> bool {
        m.abs().fits::<N>()
    }

    open spec fn absolute_model(m: Vec4<int>) -> Vec4<int> {
        m.abs()
    }

    fn absolute(&self) -> (r: Vec4<N>) {
        Vec4 { x: self.x.abs(), y: self.y.abs(), z: self.z.abs(), w: self.w.abs() }
    }
}

impl<N: Scalar> Outer<Mat4<N>> for Vec4<N> {
    open spec fn outer_fits(a: Vec4<int>, b: Vec4<int>) -> bool {
        &&& fits::<N>(a.x * b.x)
        &&& fits::<N>(a.x * b.y)
        &&& fits::<N>(a.x * b.z)
        &&& fits::<N>(a.x * b.w)
        &&& fits::<N>(a.y * b.x)
        &&& fits::<N>(a.y * b.y)
        &&& fits::<N>(a.y * b.z)
        &&& fits::<N>(a.y * b.w)
        &&& fits::<N>(a.z * b.x)
        &&& fits::<N>(a.z * b.y)
        &&& fits::<N>(a.z * b.z)
        &&& fits::<N>(a.z * b.w)
        &&& fits::<N>(a.w * b.x)
        &&& fits::<N>(a.w * b.y)
        &&& fits::<N>(a.w * b.z)
        &&& fits::<N>(a.w * b.w)
    }

    open spec fn outer_model(a: Vec4<int>, b: Vec4<int>) -> Mat4<int> {
        a.outer(b)
    }

    fn outer(&self, o: &Self) -> (r: Mat4<N>) {
        Mat4 {
            m11: self.x.times(o.x),
            m12: self.x.times(o.y),
            m13: self.x.times(o.z),
            m14: self.x.times(o.w),
            m21: self.y.times(o.x),
            m22: self.y.times(o.y),
            m23: self.y.times(o.z),
            m24: self.y.times(o.w),
            m31: self.z.times(o.x),
            m32: self.z.times(o.y),
            m33: self.z.times(o.z),
            m34: self.z.times(o.w),
            m41: self.w.times(o.x),
            m42: self.w.times(o.y),
            m43: self.w.times(o.z),
            m44: self.w.times(o.w),
        }
    }
}

impl<N: Scalar> ToHomogeneous<Vec5<N>> for Vec4<N> {
    open spec fn to_homogeneous_model(m: Vec4<int>) -> Vec5<int> {
        m.lifted()
    }

    fn to_homogeneous(&self) -> (r: Vec5<N>) {
        let one = N::one();
        proof {
            one.lemma_val();
        }
        Vec5 { x: self.x, y: self.y, z: self.z, w: self.w, a: one }
    }
}

impl<N: Scalar> FromHomogeneous<Vec5<N>> for Vec4<N> {
    open spec fn from_fits(m: Vec5<int>) -> bool {
        true
    }

    open spec fn from_model(m: Vec5<int>) -> Vec4<int> {
        m.lowered()
    }

    fn from(m: &Vec5<N>) -> (r: Self) {
        Vec4 { x: m.x, y: m.y, z: m.z, w: m.w }
    }
}

impl<N: Cast<M>, M: Scalar> VecCast<Vec4<M>> for Vec4<N> {
    open spec fn cast_fits(v: Vec4<int>) -> bool {
        v.fits::<M>()
    }

    open spec fn cast_model(v: Vec4<int>) -> Vec4<int> {
        v
    }

    fn from(v: Self) -> (r: Vec4<M>) {
        Vec4 { x: v.x.cast(), y: v.y.cast(), z: v.z.cast(), w: v.w.cast() }
    }
}

impl<N: Algebraic> Basis for Vec4<N> {
    open spec fn canonical_basis_seq() -> Seq<Self> {
        seq![
            Vec4 { x: N::of(1), y: N::of(0), z: N::of(0), w: N::of(0) },
            Vec4 { x: N::of(0), y: N::of(1), z: N::of(0), w: N::of(0) },
            Vec4 { x: N::of(0), y: N::of(0), z: N::of(1), w: N::of(0) },
            Vec4 { x: N::of(0), y: N::of(0), z: N::of(0), w: N::of(1) },
        ]
    }

    open spec fn orthonormal_subspace_basis_fits(v: Vec4<int>) -> bool {
        &&& fits::<N>(-v.y)
        &&& fits::<N>(-v.z)
        &&& fits::<N>(-v.w)
        &&& <Vec4<N> as Norm<N>>::normalized_fits(v.perp1())
        &&& <Vec4<N> as Norm<N>>::normalized_fits(v.perp2())
        &&& <Vec4<N> as Norm<N>>::normalized_fits(v.perp3())
    }

    open spec fn orthonormal_subspace_basis_model(v: Vec4<int>) -> Seq<Vec4<int>> {
        seq![v.perp1().normalized(), v.perp2().normalized(), v.perp3().normalized()]
    }

    fn canonical_basis_list() -> (r: Vec<Self>) {
        let z = N::zero();
        let one = N::one();
        proof {
            z.lemma_val();
            one.lemma_val();
        }
        let mut res: Vec<Self> = Vec::new();
        res.push(Vec4 { x: one, y: z, z: z, w: z });
        res.push(Vec4 { x: z, y: one, z: z, w: z });
        res.push(Vec4 { x: z, y: z, z: one, w: z });
        res.push(Vec4 { x: z, y: z, z: z, w: one });
        assert(res@ =~= Self::canonical_basis_seq());
        res
    }

    fn orthonormal_subspace_basis_list(&self) -> (r: Vec<Self>) {
        let mut res: Vec<Self> = Vec::new();
        let ny = self.y.neg();
        let nz = self.z.neg();
        let nw = self.w.neg();
        let u1 = Vec4 { x: ny, y: self.x, z: nw, w: self.z };
        let u2 = Vec4 { x: nz, y: self.w, z: self.x, w: ny };
        let u3 = Vec4 { x: nw, y: nz, z: self.y, w: self.x };
        res.push(<Vec4<N> as Norm<N>>::normalized(&u1));
        res.push(<Vec4<N> as Norm<N>>::normalized(&u2));
        res.push(<Vec4<N> as Norm<N>>::normalized(&u3));
        res
    }
}

impl<N: Scalar> UniformSphereSample for Vec4<N> {
    open spec fn sample_points() -> Seq<Self> {
        seq![
            Vec4 { x: N::of(1), y: N::of(0), z: N::of(0), w: N::of(0) },
            Vec4 { x: N::of(-1), y: N::of(0), z: N::of(0), w: N::of(0) },
            Vec4 { x: N::of(0), y: N::of(1), z: N::of(0), w: N::of(0) },
            Vec4 { x: N::of(0), y: N::of(-1), z: N::of(0), w: N::of(0) },
            Vec4 { x: N::of(0), y: N::of(0), z: N::of(1), w: N::of(0) },
            Vec4 { x: N::of(0), y: N::of(0), z: N::of(-1), w: N::of(0) },
            Vec4 { x: N::of(0), y: N::of(0), z: N::of(0), w: N::of(1) },
            Vec4 { x: N::of(0), y: N::of(0), z: N::of(0), w: N::of(-1) },
        ]
    }

    fn sample() -> (r: Vec<Self>) {
        let z = N::zero();
        let one = N::one();
        proof {
            z.lemma_val();
            one.lemma_val();
            N::lemma_range();
        }
        let neg = one.neg();
        proof {
            neg.lemma_val();
        }
        let mut res: Vec<Self> = Vec::new();
        res.push(Vec4 { x: one, y: z, z: z, w: z });
        res.push(Vec4 { x: neg, y: z, z: z, w: z });
        res.push(Vec4 { x: z, y: one, z: z, w: z });
        res.push(Vec4 { x: z, y: neg, z: z, w: z });
        res.push(Vec4 { x: z, y: z, z: one, w: z });
        res.push(Vec4 { x: z, y: z, z: neg, w: z });
        res.push(Vec4 { x: z, y: z, z: z, w: one });
        res.push(Vec4 { x: z, y: z, z: z, w: neg });
        assert(res@ =~= Self::sample_points());
        res
    }
}

/// A vector of five components.
#[derive(Clone, Copy, Debug, PartialEq, Eq)]
pub struct Vec5<N> {
    pub x: N,
    pub y: N,
    pub z: N,
    pub w: N,
    pub a: N,
}

impl<N> Vec5<N> {
    /// The vector with the given components.
    pub fn new(x: N, y: N, z: N, w: N, a: N) -> (r: Self)
        ensures
            r == (Vec5 { x, y, z, w, a }),
    {
        Vec5 { x, y, z, w, a }
    }
}

impl<N: Scalar> View for Vec5<N> {
    type V = Vec5<int>;

    open spec fn view(&self) -> Vec5<int> {
        Vec5 { x: self.x.val(), y: self.y.val(), z: self.z.val(), w: self.w.val(), a: self.a.val() }
    }
}

impl Vec5<int> {
    /// The zero vector.
    pub open spec fn origin() -> Self {
        Vec5 { x: 0, y: 0, z: 0, w: 0, a: 0 }
    }

    /// Whether every component is representable in the scalar type `N`.
    pub open spec fn fits<N: Scalar>(self) -> bool {
        &&& fits::<N>(self.x)
        &&& fits::<N>(self.y)
        &&& fits::<N>(self.z)
        &&& fits::<N>(self.w)
        &&& fits::<N>(self.a)
    }

    /// Component-wise sum.
    pub open spec fn sum(self, o: Self) -> Self {
        Vec5 { x: self.x + o.x, y: self.y + o.y, z: self.z + o.z, w: self.w + o.w, a: self.a + o.a }
    }

    /// Component-wise difference.
    pub open spec fn diff(self, o: Self) -> Self {
        Vec5 { x: self.x - o.x, y: self.y - o.y, z: self.z - o.z, w: self.w - o.w, a: self.a - o.a }
    }

    /// Additive inverse.
    pub open spec fn opposite(self) -> Self {
        Vec5 { x: -self.x, y: -self.y, z: -self.z, w: -self.w, a: -self.a }
    }

    /// Every component multiplied by `k`.
    pub open spec fn scale(self, k: int) -> Self {
        Vec5 { x: self.x * k, y: self.y * k, z: self.z * k, w: self.w * k, a: self.a * k }
    }

    /// Every component divided by `k`, rounding toward zero.
    pub open spec fn shrink(self, k: int) -> Self {
        Vec5 { x: trunc_div(self.x, k), y: trunc_div(self.y, k), z: trunc_div(self.z, k),
            w: trunc_div(self.w, k), a: trunc_div(self.a, k) }
    }

    /// Component-wise absolute value.
    pub open spec fn abs(self) -> Self {
        Vec5 { x: abs_int(self.x), y: abs_int(self.y), z: abs_int(self.z), w: abs_int(self.w),
            a: abs_int(self.a) }
    }

    /// Inner product.
    pub open spec fn dot(self, o: Self) -> int {
        self.x * o.x + self.y * o.y + self.z * o.z + self.w * o.w + self.a * o.a
    }

    /// Whether the vector has a normalized form with integer components: its
    /// norm is an integer that divides every component.
    pub open spec fn normalizable(self) -> bool {
        let n = floor_sqrt(self.dot(self));
        &&& n * n == self.dot(self)
        &&& n != 0 ==> self.x % n == 0 && self.y % n == 0 && self.z % n == 0 && self.w % n == 0
            && self.a % n == 0
    }

    /// The vector scaled to norm one, where it is normalizable: every component
    /// divided by the norm. The zero vector is left as it is.
    pub open spec fn normalized(self) -> Self
        recommends
            self.normalizable(),
    {
        let n = floor_sqrt(self.dot(self));
        if n == 0 {
            self
        } else {
            self.shrink(n)
        }
    }

    /// The vector with a last component `1` added.
    pub open spec fn lifted(self) -> Vec6<int> {
        Vec6 { x: self.x, y: self.y, z: self.z, w: self.w, a: self.a, b: 1 }
    }

    /// The vector without its last component.
    pub open spec fn lowered(self) -> Vec4<int> {
        Vec4 { x: self.x, y: self.y, z: self.z, w: self.w }
    }

    /// Outer product: the matrix of the products of a component of `self`
    /// and a component of `o`.
    pub open spec fn outer(self, o: Self) -> Mat5<int> {
        Mat5 {
            m11: self.x * o.x, m12: self.x * o.y, m13: self.x * o.z, m14: self.x * o.w, m15: self.x
                * o.a,
            m21: self.y * o.x, m22: self.y * o.y, m23: self.y * o.z, m24: self.y * o.w, m25: self.y
                * o.a,
            m31: self.z * o.x, m32: self.z * o.y, m33: self.z * o.z, m34: self.z * o.w, m35: self.z
                * o.a,
            m41: self.w * o.x, m42: self.w * o.y, m43: self.w * o.z, m44: self.w * o.w, m45: self.w
                * o.a,
            m51: self.a * o.x, m52: self.a * o.y, m53: self.a * o.z, m54: self.a * o.w, m55: self.a
                * o.a,
        }
    }
}

impl<N: Scalar> Vec5<N> {
    /// Component-wise sum.
    pub fn plus(&self, o: &Self) -> (r: Self)
        requires
            self@.sum(o@).fits::<N>(),
        ensures
            r@ == self@.sum(o@),
    {
        Vec5 { x: self.x.plus(o.x), y: self.y.plus(o.y), z: self.z.plus(o.z), w: self.w
            .plus(o.w), a: self.a.plus(o.a) }
    }

    /// Component-wise difference.
    pub fn minus(&self, o: &Self) -> (r: Self)
        requires
            self@.diff(o@).fits::<N>(),
        ensures
            r@ == self@.diff(o@),
    {
        Vec5 { x: self.x.minus(o.x), y: self.y.minus(o.y), z: self.z.minus(o.z), w: self.w
            .minus(o.w), a: self.a.minus(o.a) }
    }

    /// Every component multiplied by `k`.
    pub fn scaled(&self, k: N) -> (r: Self)
        requires
            self@.scale(k.val()).fits::<N>(),
        ensures
            r@ == self@.scale(k.val()),
    {
        Vec5 { x: self.x.times(k), y: self.y.times(k), z: self.z.times(k), w: self.w
            .times(k), a: self.a.times(k) }
    }

    /// A vector is determined by its view.
    pub proof fn lemma_view_injective(a: Self, b: Self)
        requires
            a@ == b@,
        ensures
            a == b,
    {
        a.x.lemma_val();
        b.x.lemma_val();
        a.y.lemma_val();
        b.y.lemma_val();
        a.z.lemma_val();
        b.z.lemma_val();
        a.w.lemma_val();
        b.w.lemma_val();
        a.a.lemma_val();
        b.a.lemma_val();
    }
}

impl<N> Dim for Vec5<N> {
    open spec fn dim_model() -> nat {
        5
    }

    fn dim() -> (r: usize) {
        5
    }
}

impl<N: Scalar> Zero for Vec5<N> {
    open spec fn is_zero(&self) -> bool {
        self@ == Vec5::<int>::origin()
    }

    fn zero() -> (r: Self) {
        let z = N::zero();
        proof {
            z.lemma_val();
        }
        Vec5 { x: z, y: z, z: z, w: z, a: z }
    }
}

impl<N: Scalar> Negate for Vec5<N> {
    open spec fn neg_fits(v: Vec5<int>) -> bool {
        v.opposite().fits::<N>()
    }

    open spec fn neg_model(v: Vec5<int>) -> Vec5<int> {
        v.opposite()
    }

    fn negated(&self) -> (r: Self) {
        Vec5 { x: self.x.neg(), y: self.y.neg(), z: self.z.neg(), w: self.w.neg(), a: self.a.neg() }
    }
}

impl<N: Scalar> Dot<N> for Vec5<N> {
    open spec fn dot_fits(a: Vec5<int>, b: Vec5<int>) -> bool {
        &&& fits::<N>(a.x * b.x)
        &&& fits::<N>(a.y * b.y)
        &&& fits::<N>(a.z * b.z)
        &&& fits::<N>(a.w * b.w)
        &&& fits::<N>(a.a * b.a)
        &&& fits::<N>(a.x * b.x + a.y * b.y)
        &&& fits::<N>(a.x * b.x + a.y * b.y + a.z * b.z)
        &&& fits::<N>(a.x * b.x + a.y * b.y + a.z * b.z + a.w * b.w)
        &&& fits::<N>(a.x * b.x + a.y * b.y + a.z * b.z + a.w * b.w + a.a * b.a)
    }

    open spec fn dot_model(a: Vec5<int>, b: Vec5<int>) -> int {
        a.dot(b)
    }

    open spec fn sub_dot_fits(a: Vec5<int>, b: Vec5<int>, c: Vec5<int>) -> bool {
        &&& fits::<N>(a.x - b.x)
        &&& fits::<N>(a.y - b.y)
        &&& fits::<N>(a.z - b.z)
        &&& fits::<N>(a.w - b.w)
        &&& fits::<N>(a.a - b.a)
        &&& fits::<N>((a.x - b.x) * c.x)
        &&& fits::<N>((a.y - b.y) * c.y)
        &&& fits::<N>((a.z - b.z) * c.z)
        &&& fits::<N>((a.w - b.w) * c.w)
        &&& fits::<N>((a.a - b.a) * c.a)
        &&& fits::<N>((a.x - b.x) * c.x + (a.y - b.y) * c.y)
        &&& fits::<N>((a.x - b.x) * c.x + (a.y - b.y) * c.y + (a.z - b.z) * c.z)
        &&& fits::<N>((a.x - b.x) * c.x + (a.y - b.y) * c.y + (a.z - b.z) * c.z + (a.w - b.w) * c.w)
        &&& fits::<N>((a.x - b.x) * c.x + (a.y - b.y) * c.y + (a.z - b.z) * c.z + (a.w - b.w) * c.w
            + (a.a - b.a) * c.a)
    }

    open spec fn sub_dot_model(a: Vec5<int>, b: Vec5<int>, c: Vec5<int>) -> int {
        a.diff(b).dot(c)
    }

    proof fn lemma_dot_symmetric(a: Vec5<int>, b: Vec5<int>) {
        lemma_comm(a.x, b.x);
        lemma_comm(a.y, b.y);
        lemma_comm(a.z, b.z);
        lemma_comm(a.w, b.w);
        lemma_comm(a.a, b.a);
    }

    fn dot(&self, o: &Self) -> (r: N) {
        self.x.times(o.x).plus(self.y.times(o.y)).plus(self.z.times(o.z)).plus(self.w.times(o.w))
            .plus(self.a.times(o.a))
    }

    fn sub_dot(&self, b: &Self, c: &Self) -> (r: N) {
        self.x.minus(b.x).times(c.x)
            .plus(self.y.minus(b.y).times(c.y))
            .plus(self.z.minus(b.z).times(c.z))
            .plus(self.w.minus(b.w).times(c.w))
            .plus(self.a.minus(b.a).times(c.a))
    }
}

impl<N: Algebraic> Norm<N> for Vec5<N> {
    open spec fn norm_fits(v: Vec5<int>) -> bool {
        <Vec5<N> as Dot<N>>::dot_fits(v, v)
    }

    open spec fn is_sqnorm(v: Vec5<int>, r: N) -> bool {
        r.val() == v.dot(v)
    }

    open spec fn is_norm(v: Vec5<int>, r: N) -> bool {
        r.val() == floor_sqrt(v.dot(v))
    }

    open spec fn normalized_fits(v: Vec5<int>) -> bool {
        &&& <Vec5<N> as Dot<N>>::dot_fits(v, v)
        &&& v.normalizable()
    }

    open spec fn normalized_model(v: Vec5<int>) -> Vec5<int> {
        v.normalized()
    }

    fn sqnorm(&self) -> (r: N) {
        self.dot(self)
    }

    fn norm(&self) -> (r: N) {
        proof {
            lemma_square_nonneg(self.x.val());
            lemma_square_nonneg(self.y.val());
            lemma_square_nonneg(self.z.val());
            lemma_square_nonneg(self.w.val());
            lemma_square_nonneg(self.a.val());
        }
        self.dot(self).sqrt()
    }

    fn normalized(&self) -> (r: Self) {
        let mut res = *self;
        let _ = res.normalize();
        res
    }

    fn normalize(&mut self) -> (r: N) {
        let n = self.norm();
        let z = N::zero();
        proof {
            z.lemma_val();
            lemma_square_nonneg(self.x.val());
            lemma_square_nonneg(self.y.val());
            lemma_square_nonneg(self.z.val());
            lemma_square_nonneg(self.w.val());
            lemma_square_nonneg(self.a.val());
            lemma_floor_sqrt(self@.dot(self@));
        }
        if !n.same(z) {
            proof {
                self.x.lemma_val();
                lemma_trunc_div_bounds(self.x.val(), n.val());
                self.y.lemma_val();
                lemma_trunc_div_bounds(self.y.val(), n.val());
                self.z.lemma_val();
                lemma_trunc_div_bounds(self.z.val(), n.val());
                self.w.lemma_val();
                lemma_trunc_div_bounds(self.w.val(), n.val());
                self.a.lemma_val();
                lemma_trunc_div_bounds(self.a.val(), n.val());
            }
            self.x = self.x.quot(n);
            self.y = self.y.quot(n);
            self.z = self.z.quot(n);
            self.w = self.w.quot(n);
            self.a = self.a.quot(n);
        }
        n
    }
}

impl<N: Scalar> Absolute<Vec5<N>> for Vec5<N> {
    open spec fn absolute_fits(m: Vec5<int>) -> bool {
        m.abs().fits::<N>()
    }

    open spec fn absolute_model(m: Vec5<int>) -> Vec5<int> {
        m.abs()
    }

    fn absolute(&self) -> (r: Vec5<N>) {
        Vec5 { x: self.x.abs(), y: self.y.abs(), z: self.z.abs(), w: self.w.abs(), a: self.a.abs() }
    }
}

impl<N: Scalar> Outer<Mat5<N>> for Vec5<N> {
    open spec fn outer_fits(a: Vec5<int>, b: Vec5<int>) -> bool {
        &&& fits::<N>(a.x * b.x)
        &&& fits::<N>(a.x * b.y)
        &&& fits::<N>(a.x * b.z)
        &&& fits::<N>(a.x * b.w)
        &&& fits::<N>(a.x * b.a)
        &&& fits::<N>(a.y * b.x)
        &&& fits::<N>(a.y * b.y)
        &&& fits::<N>(a.y * b.z)
        &&& fits::<N>(a.y * b.w)
        &&& fits::<N>(a.y * b.a)
        &&& fits::<N>(a.z * b.x)
        &&& fits::<N>(a.z * b.y)
        &&& fits::<N>(a.z * b.z)
        &&& fits::<N>(a.z * b.w)
        &&& fits::<N>(a.z * b.a)
        &&& fits::<N>(a.w * b.x)
        &&& fits::<N>(a.w * b.y)
        &&& fits::<N>(a.w * b.z)
        &&& fits::<N>(a.w * b.w)
        &&& fits::<N>(a.w * b.a)
        &&& fits::<N>(a.a * b.x)
        &&& fits::<N>(a.a * b.y)
        &&& fits::<N>(a.a * b.z)
        &&& fits::<N>(a.a * b.w)
        &&& fits::<N>(a.a * b.a)
    }

    open spec fn outer_model(a: Vec5<int>, b: Vec5<int>) -> Mat5<int> {
        a.outer(b)
    }

    fn outer(&self, o: &Self) -> (r: Mat5<N>) {
        Mat5 {
            m11: self.x.times(o.x),
            m12: self.x.times(o.y),
            m13: self.x.times(o.z),
            m14: self.x.times(o.w),
            m15: self.x.times(o.a),
            m21: self.y.times(o.x),
            m22: self.y.times(o.y),
            m23: self.y.times(o.z),
            m24: self.y.times(o.w),
            m25: self.y.times(o.a),
            m31: self.z.times(o.x),
            m32: self.z.times(o.y),
            m33: self.z.times(o.z),
            m34: self.z.times(o.w),
            m35: self.z.times(o.a),
            m41: self.w.times(o.x),
            m42: self.w.times(o.y),
            m43: self.w.times(o.z),
            m44: self.w.times(o.w),
            m45: self.w.times(o.a),
            m51: self.a.times(o.x),
            m52: self.a.times(o.y),
            m53: self.a.times(o.z),
            m54: self.a.times(o.w),
            m55: self.a.times(o.a),
        }
    }
}

impl<N: Scalar> ToHomogeneous<Vec6<N>> for Vec5<N> {
    open spec fn to_homogeneous_model(m: Vec5<int>) -> Vec6<int> {
        m.lifted()
    }

    fn to_homogeneous(&self) -> (r: Vec6<N>) {
        let one = N::one();
        proof {
            one.lemma_val();
        }
        Vec6 { x: self.x, y: self.y, z: self.z, w: self.w, a: self.a, b: one }
    }
}

impl<N: Scalar> FromHomogeneous<Vec6<N>> for Vec5<N> {
    open spec fn from_fits(m: Vec6<int>) -> bool {
        true
    }

    open spec fn from_model(m: Vec6<int>) -> Vec5<int> {
        m.lowered()
    }

    fn from(m: &Vec6<N>) -> (r: Self) {
        Vec5 { x: m.x, y: m.y, z: m.z, w: m.w, a: m.a }
    }
}

impl<N: Cast<M>, M: Scalar> VecCast<Vec5<M>> for Vec5<N> {
    open spec fn cast_fits(v: Vec5<int>) -> bool {
        v.fits::<M>()
    }

    open spec fn cast_model(v: Vec5<int>) -> Vec5<int> {
        v
    }

    fn from(v: Self) -> (r: Vec5<M>) {
        Vec5 { x: v.x.cast(), y: v.y.cast(), z: v.z.cast(), w: v.w.cast(), a: v.a.cast() }
    }
}

impl<N: Scalar> UniformSphereSample for Vec5<N> {
    open spec fn sample_points() -> Seq<Self> {
        seq![
            Vec5 { x: N::of(1), y: N::of(0), z: N::of(0), w: N::of(0), a: N::of(0) },
            Vec5 { x: N::of(-1), y: N::of(0), z: N::of(0), w: N::of(0), a: N::of(0) },
            Vec5 { x: N::of(0), y: N::of(1), z: N::of(0), w: N::of(0), a: N::of(0) },
            Vec5 { x: N::of(0), y: N::of(-1), z: N::of(0), w: N::of(0), a: N::of(0) },
            Vec5 { x: N::of(0), y: N::of(0), z: N::of(1), w: N::of(0), a: N::of(0) },
            Vec5 { x: N::of(0), y: N::of(0), z: N::of(-1), w: N::of(0), a: N::of(0) },
            Vec5 { x: N::of(0), y: N::of(0), z: N::of(0), w: N::of(1), a: N::of(0) },
            Vec5 { x: N::of(0), y: N::of(0), z: N::of(0), w: N::of(-1), a: N::of(0) },
            Vec5 { x: N::of(0), y: N::of(0), z: N::of(0), w: N::of(0), a: N::of(1) },
            Vec5 { x: N::of(0), y: N::of(0), z: N::of(0), w: N::of(0), a: N::of(-1) },
        ]
    }

    fn sample() -> (r: Vec<Self>) {
        let z = N::zero();
        let one = N::one();
        proof {
            z.lemma_val();
            one.lemma_val();
            N::lemma_range();
        }
        let neg = one.neg();
        proof {
            neg.lemma_val();
        }
        let mut res: Vec<Self> = Vec::new();
        res.push(Vec5 { x: one, y: z, z: z, w: z, a: z });
        res.push(Vec5 { x: neg, y: z, z: z, w: z, a: z });
        res.push(Vec5 { x: z, y: one, z: z, w: z, a: z });
        res.push(Vec5 { x: z, y: neg, z: z, w: z, a: z });
        res.push(Vec5 { x: z, y: z, z: one, w: z, a: z });
        res.push(Vec5 { x: z, y: z, z: neg, w: z, a: z });
        res.push(Vec5 { x: z, y: z, z: z, w: one, a: z });
        res.push(Vec5 { x: z, y: z, z: z, w: neg, a: z });
        res.push(Vec5 { x: z, y: z, z: z, w: z, a: one });
        res.push(Vec5 { x: z, y: z, z: z, w: z, a: neg });
        assert(res@ =~= Self::sample_points());
        res
    }
}

/// A vector of six components.
#[derive(Clone, Copy, Debug, PartialEq, Eq)]
pub struct Vec6<N> {
    pub x: N,
    pub y: N,
    pub z: N,
    pub w: N,
    pub a: N,
    pub b: N,
}

impl<N> Vec6<N> {
    /// The vector with the given components.
    pub fn new(x: N, y: N, z: N, w: N, a: N, b: N) -> (r: Self)
        ensures
            r == (Vec6 { x, y, z, w, a, b }),
    {
        Vec6 { x, y, z, w, a, b }
    }
}

impl<N: Scalar> View for Vec6<N> {
    type V = Vec6<int>;

    open spec fn view(&self) -> Vec6<int> {
        Vec6 { x: self.x.val(), y: self.y.val(), z: self.z.val(), w: self.w.val(), a: self.a.val(),
            b: self.b.val() }
    }
}

impl Vec6<int> {
    /// The zero vector.
    pub open spec fn origin() -> Self {
        Vec6 { x: 0, y: 0, z: 0, w: 0, a: 0, b: 0 }
    }

    /// Whether every component is representable in the scalar type `N`.
    pub open spec fn fits<N: Scalar>(self) -> bool {
        &&& fits::<N>(self.x)
        &&& fits::<N>(self.y)
        &&& fits::<N>(self.z)
        &&& fits::<N>(self.w)
        &&& fits::<N>(self.a)
        &&& fits::<N>(self.b)
    }

    /// Component-wise sum.
    pub open spec fn sum(self, o: Self) -> Self {
        Vec6 { x: self.x + o.x, y: self.y + o.y, z: self.z + o.z, w: self.w + o.w, a: self.a
            + o.a, b: self.b + o.b }
    }

    /// Component-wise difference.
    pub open spec fn diff(self, o: Self) -> Self {
        Vec6 { x: self.x - o.x, y: self.y - o.y, z: self.z - o.z, w: self.w - o.w, a: self.a
            - o.a, b: self.b - o.b }
    }

    /// Additive inverse.
    pub open spec fn opposite(self) -> Self {
        Vec6 { x: -self.x, y: -self.y, z: -self.z, w: -self.w, a: -self.a, b: -self.b }
    }

    /// Every component multiplied by `k`.
    pub open spec fn scale(self, k: int) -> Self {
        Vec6 { x: self.x * k, y: self.y * k, z: self.z * k, w: self.w * k, a: self.a * k, b: self.b
            * k }
    }

    /// Every component divided by `k`, rounding toward zero.
    pub open spec fn shrink(self, k: int) -> Self {
        Vec6 { x: trunc_div(self.x, k), y: trunc_div(self.y, k), z: trunc_div(self.z, k),
            w: trunc_div(self.w, k), a: trunc_div(self.a, k), b: trunc_div(self.b, k) }
    }

    /// Component-wise absolute value.
    pub open spec fn abs(self) -> Self {
        Vec6 { x: abs_int(self.x), y: abs_int(self.y), z: abs_int(self.z), w: abs_int(self.w),
            a: abs_int(self.a), b: abs_int(self.b) }
    }

    /// Inner product.
    pub open spec fn dot(self, o: Self) -> int {
        self.x * o.x + self.y * o.y + self.z * o.z + self.w * o.w + self.a * o.a + self.b * o.b
    }

    /// Whether the vector has a normalized form with integer components: its
    /// norm is an integer that divides every component.
    pub open spec fn normalizable(self) -> bool {
        let n = floor_sqrt(self.dot(self));
        &&& n * n == self.dot(self)
        &&& n != 0 ==> self.x % n == 0 && self.y % n == 0 && self.z % n == 0 && self.w % n == 0
            && self.a % n == 0 && self.b % n == 0
    }

    /// The vector scaled to norm one, where it is normalizable: every component
    /// divided by the norm. The zero vector is left as it is.
    pub open spec fn normalized(self) -> Self
        recommends
            self.normalizable(),
    {
        let n = floor_sqrt(self.dot(self));
        if n == 0 {
            self
        } else {
            self.shrink(n)
        }
    }

    /// The vector without its last component.
    pub open spec fn lowered(self) -> Vec5<int> {
        Vec5 { x: self.x, y: self.y, z: self.z, w: self.w, a: self.a }
    }

    /// Outer product: the matrix of the products of a component of `self`
    /// and a component of `o`.
    pub open spec fn outer(self, o: Self) -> Mat6<int> {
        Mat6 {
            m11: self.x * o.x, m12: self.x * o.y, m13: self.x * o.z, m14: self.x * o.w, m15: self.x
                * o.a, m16: self.x * o.b,
            m21: self.y * o.x, m22: self.y * o.y, m23: self.y * o.z, m24: self.y * o.w, m25: self.y
                * o.a, m26: self.y * o.b,
            m31: self.z * o.x, m32: self.z * o.y, m33: self.z * o.z, m34: self.z * o.w, m35: self.z
                * o.a, m36: self.z * o.b,
            m41: self.w * o.x, m42: self.w * o.y, m43: self.w * o.z, m44: self.w * o.w, m45: self.w
                * o.a, m46: self.w * o.b,
            m51: self.a * o.x, m52: self.a * o.y, m53: self.a * o.z, m54: self.a * o.w, m55: self.a
                * o.a, m56: self.a * o.b,
            m61: self.b * o.x, m62: self.b * o.y, m63: self.b * o.z, m64: self.b * o.w, m65: self.b
                * o.a, m66: self.b * o.b,
        }
    }
}

impl<N: Scalar> Vec6<N> {
    /// Component-wise sum.
    pub fn plus(&self, o: &Self) -> (r: Self)
        requires
            self@.sum(o@).fits::<N>(),
        ensures
            r@ == self@.sum(o@),
    {
        Vec6 { x: self.x.plus(o.x), y: self.y.plus(o.y), z: self.z.plus(o.z), w: self.w
            .plus(o.w), a: self.a.plus(o.a), b: self.b.plus(o.b) }
    }

    /// Component-wise difference.
    pub fn minus(&self, o: &Self) -> (r: Self)
        requires
            self@.diff(o@).fits::<N>(),
        ensures
            r@ == self@.diff(o@),
    {
        Vec6 { x: self.x.minus(o.x), y: self.y.minus(o.y), z: self.z.minus(o.z), w: self.w
            .minus(o.w), a: self.a.minus(o.a), b: self.b.minus(o.b) }
    }

    /// Every component multiplied by `k`.
    pub fn scaled(&self, k: N) -> (r: Self)
        requires
            self@.scale(k.val()).fits::<N>(),
        ensures
            r@ == self@.scale(k.val()),
    {
        Vec6 { x: self.x.times(k), y: self.y.times(k), z: self.z.times(k), w: self.w
            .times(k), a: self.a.times(k), b: self.b.times(k) }
    }

    /// A vector is determined by its view.
    pub proof fn lemma_view_injective(a: Self, b: Self)
        requires
            a@ == b@,
        ensures
            a == b,
    {
        a.x.lemma_val();
        b.x.lemma_val();
        a.y.lemma_val();
        b.y.lemma_val();
        a.z.lemma_val();
        b.z.lemma_val();
        a.w.lemma_val();
        b.w.lemma_val();
        a.a.lemma_val();
        b.a.lemma_val();
        a.b.lemma_val();
        b.b.lemma_val();
    }
}

impl<N> Dim for Vec6<N> {
    open spec fn dim_model() -> nat {
        6
    }

    fn dim() -> (r: usize) {
        6
    }
}

impl<N: Scalar> Zero for Vec6<N> {
    open spec fn is_zero(&self) -> bool {
        self@ == Vec6::<int>::origin()
    }

    fn zero() -> (r: Self) {
        let z = N::zero();
        proof {
            z.lemma_val();
        }
        Vec6 { x: z, y: z, z: z, w: z, a: z, b: z }
    }
}

impl<N: Scalar> Negate for Vec6<N> {
    open spec fn neg_fits(v: Vec6<int>) -> bool {
        v.opposite().fits::<N>()
    }

    open spec fn neg_model(v: Vec6<int>) -> Vec6<int> {
        v.opposite()
    }

    fn negated(&self) -> (r: Self) {
        Vec6 { x: self.x.neg(), y: self.y.neg(), z: self.z.neg(), w: self.w.neg(), a: self.a.neg(),
            b: self.b.neg() }
    }
}

impl<N: Scalar> Dot<N> for Vec6<N> {
    open spec fn dot_fits(a: Vec6<int>, b: Vec6<int>) -> bool {
        &&& fits::<N>(a.x * b.x)
        &&& fits::<N>(a.y * b.y)
        &&& fits::<N>(a.z * b.z)
        &&& fits::<N>(a.w * b.w)
        &&& fits::<N>(a.a * b.a)
        &&& fits::<N>(a.b * b.b)
        &&& fits::<N>(a.x * b.x + a.y * b.y)
        &&& fits::<N>(a.x * b.x + a.y * b.y + a.z * b.z)
        &&& fits::<N>(a.x * b.x + a.y * b.y + a.z * b.z + a.w * b.w)
        &&& fits::<N>(a.x * b.x + a.y * b.y + a.z * b.z + a.w * b.w + a.a * b.a)
        &&& fits::<N>(a.x * b.x + a.y * b.y + a.z * b.z + a.w * b.w + a.a * b.a + a.b * b.b)
    }

    open spec fn dot_model(a: Vec6<int>, b: Vec6<int>) -> int {
        a.dot(b)
    }

    open spec fn sub_dot_fits(a: Vec6<int>, b: Vec6<int>, c: Vec6<int>) -> bool {
        &&& fits::<N>(a.x - b.x)
        &&& fits::<N>(a.y - b.y)
        &&& fits::<N>(a.z - b.z)
        &&& fits::<N>(a.w - b.w)
        &&& fits::<N>(a.a - b.a)
        &&& fits::<N>(a.b - b.b)
        &&& fits::<N>((a.x - b.x) * c.x)
        &&& fits::<N>((a.y - b.y) * c.y)
        &&& fits::<N>((a.z - b.z) * c.z)
        &&& fits::<N>((a.w - b.w) * c.w)
        &&& fits::<N>((a.a - b.a) * c.a)
        &&& fits::<N>((a.b - b.b) * c.b)
        &&& fits::<N>((a.x - b.x) * c.x + (a.y - b.y) * c.y)
        &&& fits::<N>((a.x - b.x) * c.x + (a.y - b.y) * c.y + (a.z - b.z) * c.z)
        &&& fits::<N>((a.x - b.x) * c.x + (a.y - b.y) * c.y + (a.z - b.z) * c.z + (a.w - b.w) * c.w)
        &&& fits::<N>((a.x - b.x) * c.x + (a.y - b.y) * c.y + (a.z - b.z) * c.z + (a.w - b.w) * c.w
            + (a.a - b.a) * c.a)
        &&& fits::<N>((a.x - b.x) * c.x + (a.y - b.y) * c.y + (a.z - b.z) * c.z + (a.w - b.w) * c.w
            + (a.a - b.a) * c.a + (a.b - b.b) * c.b)
    }

    open spec fn sub_dot_model(a: Vec6<int>, b: Vec6<int>, c: Vec6<int>) -> int {
        a.diff(b).dot(c)
    }

    proof fn lemma_dot_symmetric(a: Vec6<int>, b: Vec6<int>) {
        lemma_comm(a.x, b.x);
        lemma_comm(a.y, b.y);
        lemma_comm(a.z, b.z);
        lemma_comm(a.w, b.w);
        lemma_comm(a.a, b.a);
        lemma_comm(a.b, b.b);
    }

    fn dot(&self, o: &Self) -> (r: N) {
        self.x.times(o.x).plus(self.y.times(o.y)).plus(self.z.times(o.z)).plus(self.w.times(o.w))
            .plus(self.a.times(o.a)).plus(self.b.times(o.b))
    }

    fn sub_dot(&self, b: &Self, c: &Self) -> (r: N) {
        self.x.minus(b.x).times(c.x)
            .plus(self.y.minus(b.y).times(c.y))
            .plus(self.z.minus(b.z).times(c.z))
            .plus(self.w.minus(b.w).times(c.w))
            .plus(self.a.minus(b.a).times(c.a))
            .plus(self.b.minus(b.b).times(c.b))
    }
}

impl<N: Algebraic> Norm<N> for Vec6<N> {
    open spec fn norm_fits(v: Vec6<int>) -> bool {
        <Vec6<N> as Dot<N>>::dot_fits(v, v)
    }

    open spec fn is_sqnorm(v: Vec6<int>, r: N) -> bool {
        r.val() == v.dot(v)
    }

    open spec fn is_norm(v: Vec6<int>, r: N) -> bool {
        r.val() == floor_sqrt(v.dot(v))
    }

    open spec fn normalized_fits(v: Vec6<int>) -> bool {
        &&& <Vec6<N> as Dot<N>>::dot_fits(v, v)
        &&& v.normalizable()
    }

    open spec fn normalized_model(v: Vec6<int>) -> Vec6<int> {
        v.normalized()
    }

    fn sqnorm(&self) -> (r: N) {
        self.dot(self)
    }

    fn norm(&self) -> (r: N) {
        proof {
            lemma_square_nonneg(self.x.val());
            lemma_square_nonneg(self.y.val());
            lemma_square_nonneg(self.z.val());
            lemma_square_nonneg(self.w.val());
            lemma_square_nonneg(self.a.val());
            lemma_square_nonneg(self.b.val());
        }
        self.dot(self).sqrt()
    }

    fn normalized(&self) -> (r: Self) {
        let mut res = *self;
        let _ = res.normalize();
        res
    }

    fn normalize(&mut self) -> (r: N) {
        let n = self.norm();
        let z = N::zero();
        proof {
            z.lemma_val();
            lemma_square_nonneg(self.x.val());
            lemma_square_nonneg(self.y.val());
            lemma_square_nonneg(self.z.val());
            lemma_square_nonneg(self.w.val());
            lemma_square_nonneg(self.a.val());
            lemma_square_nonneg(self.b.val());
            lemma_floor_sqrt(self@.dot(self@));
        }
        if !n.same(z) {
            proof {
                self.x.lemma_val();
                lemma_trunc_div_bounds(self.x.val(), n.val());
                self.y.lemma_val();
                lemma_trunc_div_bounds(self.y.val(), n.val());
                self.z.lemma_val();
                lemma_trunc_div_bounds(self.z.val(), n.val());
                self.w.lemma_val();
                lemma_trunc_div_bounds(self.w.val(), n.val());
                self.a.lemma_val();
                lemma_trunc_div_bounds(self.a.val(), n.val());
                self.b.lemma_val();
                lemma_trunc_div_bounds(self.b.val(), n.val());
            }
            self.x = self.x.quot(n);
            self.y = self.y.quot(n);
            self.z = self.z.quot(n);
            self.w = self.w.quot(n);
            self.a = self.a.quot(n);
            self.b = self.b.quot(n);
        }
        n
    }
}

impl<N: Scalar> Absolute<Vec6<N>> for Vec6<N> {
    open spec fn absolute_fits(m: Vec6<int>) -> bool {
        m.abs().fits::<N>()
    }

    open spec fn absolute_model(m: Vec6<int>) -> Vec6<int> {
        m.abs()
    }

    fn absolute(&self) -> (r: Vec6<N>) {
        Vec6 { x: self.x.abs(), y: self.y.abs(), z: self.z.abs(), w: self.w.abs(), a: self.a.abs(),
            b: self.b.abs() }
    }
}

impl<N: Scalar> Outer<Mat6<N>> for Vec6<N> {
    open spec fn outer_fits(a: Vec6<int>, b: Vec6<int>) -> bool {
        &&& fits::<N>(a.x * b.x)
        &&& fits::<N>(a.x * b.y)
        &&& fits::<N>(a.x * b.z)
        &&& fits::<N>(a.x * b.w)
        &&& fits::<N>(a.x * b.a)
        &&& fits::<N>(a.x * b.b)
        &&& fits::<N>(a.y * b.x)
        &&& fits::<N>(a.y * b.y)
        &&& fits::<N>(a.y * b.z)
        &&& fits::<N>(a.y * b.w)
        &&& fits::<N>(a.y * b.a)
        &&& fits::<N>(a.y * b.b)
        &&& fits::<N>(a.z * b.x)
        &&& fits::<N>(a.z * b.y)
        &&& fits::<N>(a.z * b.z)
        &&& fits::<N>(a.z * b.w)
        &&& fits::<N>(a.z * b.a)
        &&& fits::<N>(a.z * b.b)
        &&& fits::<N>(a.w * b.x)
        &&& fits::<N>(a.w * b.y)
        &&& fits::<N>(a.w * b.z)
        &&& fits::<N>(a.w * b.w)
        &&& fits::<N>(a.w * b.a)
        &&& fits::<N>(a.w * b.b)
        &&& fits::<N>(a.a * b.x)
        &&& fits::<N>(a.a * b.y)
        &&& fits::<N>(a.a * b.z)
        &&& fits::<N>(a.a * b.w)
        &&& fits::<N>(a.a * b.a)
        &&& fits::<N>(a.a * b.b)
        &&& fits::<N>(a.b * b.x)
        &&& fits::<N>(a.b * b.y)
        &&& fits::<N>(a.b * b.z)
        &&& fits::<N>(a.b * b.w)
        &&& fits::<N>(a.b * b.a)
        &&& fits::<N>(a.b * b.b)
    }

    open spec fn outer_model(a: Vec6<int>, b: Vec6<int>) -> Mat6<int> {
        a.outer(b)
    }

    fn outer(&self, o: &Self) -> (r: Mat6<N>) {
        Mat6 {
            m11: self.x.times(o.x),
            m12: self.x.times(o.y),
            m13: self.x.times(o.z),
            m14: self.x.times(o.w),
            m15: self.x.times(o.a),
            m16: self.x.times(o.b),
            m21: self.y.times(o.x),
            m22: self.y.times(o.y),
            m23: self.y.times(o.z),
            m24: self.y.times(o.w),
            m25: self.y.times(o.a),
            m26: self.y.times(o.b),
            m31: self.z.times(o.x),
            m32: self.z.times(o.y),
            m33: self.z.times(o.z),
            m34: self.z.times(o.w),
            m35: self.z.times(o.a),
            m36: self.z.times(o.b),
            m41: self.w.times(o.x),
            m42: self.w.times(o.y),
            m43: self.w.times(o.z),
            m44: self.w.times(o.w),
            m45: self.w.times(o.a),
            m46: self.w.times(o.b),
            m51: self.a.times(o.x),
            m52: self.a.times(o.y),
            m53: self.a.times(o.z),
            m54: self.a.times(o.w),
            m55: self.a.times(o.a),
            m56: self.a.times(o.b),
            m61: self.b.times(o.x),
            m62: self.b.times(o.y),
            m63: self.b.times(o.z),
            m64: self.b.times(o.w),
            m65: self.b.times(o.a),
            m66: self.b.times(o.b),
        }
    }
}

impl<N: Cast<M>, M: Scalar> VecCast<Vec6<M>> for Vec6<N> {
    open spec fn cast_fits(v: Vec6<int>) -> bool {
        v.fits::<M>()
    }

    open spec fn cast_model(v: Vec6<int>) -> Vec6<int> {
        v
    }

    fn from(v: Self) -> (r: Vec6<M>) {
        Vec6 { x: v.x.cast(), y: v.y.cast(), z: v.z.cast(), w: v.w.cast(), a: v.a.cast(),
            b: v.b.cast() }
    }
}

impl<N: Scalar> UniformSphereSample for Vec6<N> {
    open spec fn sample_points() -> Seq<Self> {
        seq![
            Vec6 { x: N::of(1), y: N::of(0), z: N::of(0), w: N::of(0), a: N::of(0), b: N::of(0) },
            Vec6 { x: N::of(-1), y: N::of(0), z: N::of(0), w: N::of(0), a: N::of(0), b: N::of(0) },
            Vec6 { x: N::of(0), y: N::of(1), z: N::of(0), w: N::of(0), a: N::of(0), b: N::of(0) },
            Vec6 { x: N::of(0), y: N::of(-1), z: N::of(0), w: N::of(0), a: N::of(0), b: N::of(0) },
            Vec6 { x: N::of(0), y: N::of(0), z: N::of(1), w: N::of(0), a: N::of(0), b: N::of(0) },
            Vec6 { x: N::of(0), y: N::of(0), z: N::of(-1), w: N::of(0), a: N::of(0), b: N::of(0) },
            Vec6 { x: N::of(0), y: N::of(0), z: N::of(0), w: N::of(1), a: N::of(0), b: N::of(0) },
            Vec6 { x: N::of(0), y: N::of(0), z: N::of(0), w: N::of(-1), a: N::of(0), b: N::of(0) },
            Vec6 { x: N::of(0), y: N::of(0), z: N::of(0), w: N::of(0), a: N::of(1), b: N::of(0) },
            Vec6 { x: N::of(0), y: N::of(0), z: N::of(0), w: N::of(0), a: N::of(-1), b: N::of(0) },
            Vec6 { x: N::of(0), y: N::of(0), z: N::of(0), w: N::of(0), a: N::of(0), b: N::of(1) },
            Vec6 { x: N::of(0), y: N::of(0), z: N::of(0), w: N::of(0), a: N::of(0), b: N::of(-1) },
        ]
    }

    fn sample() -> (r: Vec<Self>) {
        let z = N::zero();
        let one = N::one();
        proof {
            z.lemma_val();
            one.lemma_val();
            N::lemma_range();
        }
        let neg = one.neg();
        proof {
            neg.lemma_val();
        }
        let mut res: Vec<Self> = Vec::new();
        res.push(Vec6 { x: one, y: z, z: z, w: z, a: z, b: z });
        res.push(Vec6 { x: neg, y: z, z: z, w: z, a: z, b: z });
        res.push(Vec6 { x: z, y: one, z: z, w: z, a: z, b: z });
        res.push(Vec6 { x: z, y: neg, z: z, w: z, a: z, b: z });
        res.push(Vec6 { x: z, y: z, z: one, w: z, a: z, b: z });
        res.push(Vec6 { x: z, y: z, z: neg, w: z, a: z, b: z });
        res.push(Vec6 { x: z, y: z, z: z, w: one, a: z, b: z });
        res.push(Vec6 { x: z, y: z, z: z, w: neg, a: z, b: z });
        res.push(Vec6 { x: z, y: z, z: z, w: z, a: one, b: z });
        res.push(Vec6 { x: z, y: z, z: z, w: z, a: neg, b: z });
        res.push(Vec6 { x: z, y: z, z: z, w: z, a: z, b: one });
        res.push(Vec6 { x: z, y: z, z: z, w: z, a: z, b: neg });
        assert(res@ =~= Self::sample_points());
        res
    }
}

/// The cross product changes its sign when its arguments change places.
pub proof fn lemma_cross_anticommutative(a: Vec3<int>, b: Vec3<int>)
    ensures
        a.cross(b) == b.cross(a).opposite(),
{
    lemma_comm(a.x, b.y);
    lemma_comm(a.x, b.z);
    lemma_comm(a.y, b.x);
    lemma_comm(a.y, b.z);
    lemma_comm(a.z, b.x);
    lemma_comm(a.z, b.y);
}

/// The cross product of a vector with itself is zero.
pub proof fn lemma_cross_self(a: Vec3<int>)
    ensures
        a.cross(a) == Vec3::<int>::origin(),
{
    lemma_comm(a.x, a.y);
    lemma_comm(a.x, a.z);
    lemma_comm(a.y, a.z);
}

/// The cross product is orthogonal to both of its arguments.
pub proof fn lemma_cross_orthogonal(a: Vec3<int>, b: Vec3<int>)
    ensures
        a.cross(b).dot(a) == 0,
        a.cross(b).dot(b) == 0,
{
    lemma_dist_diff(a.y * b.z, a.z * b.y, a.x);
    lemma_dist_diff(a.z * b.x, a.x * b.z, a.y);
    lemma_dist_diff(a.x * b.y, a.y * b.x, a.z);
    lemma_dist_diff(a.y * b.z, a.z * b.y, b.x);
    lemma_dist_diff(a.z * b.x, a.x * b.z, b.y);
    lemma_dist_diff(a.x * b.y, a.y * b.x, b.z);
    lemma_mono3(a.x, a.y, b.z);
    lemma_mono3(a.x, a.z, b.y);
    lemma_mono3(a.y, a.z, b.x);
    lemma_mono3(a.x, b.y, b.z);
    lemma_mono3(a.y, b.x, b.z);
    lemma_mono3(a.z, b.x, b.y);
}

/// The cross product in the plane changes its sign when its arguments
/// change places, and is zero for a vector with itself.
pub proof fn lemma_cross2_anticommutative(a: Vec2<int>, b: Vec2<int>)
    ensures
        a.cross(b) == b.cross(a).opposite(),
        a.cross(a) == Vec1::<int>::origin(),
{
    lemma_comm(a.x, b.y);
    lemma_comm(a.y, b.x);
    lemma_comm(a.x, a.y);
}

/// The squared norm of a vector is not negative, and is zero for the zero
/// vector only.
pub proof fn lemma_sqnorm3(v: Vec3<int>)
    ensures
        v.dot(v) >= 0,
        v.dot(v) == 0 <==> v == Vec3::<int>::origin(),
{
    lemma_square_nonneg(v.x);
    lemma_square_nonneg(v.y);
    lemma_square_nonneg(v.z);
    lemma_square_zero(v.x);
    lemma_square_zero(v.y);
    lemma_square_zero(v.z);
}

/// The direction orthogonal to a vector of the plane is orthogonal to the
/// vector and has its squared norm.
pub proof fn lemma_subspace_directions2(v: Vec2<int>)
    ensures
        v.perp().dot(v) == 0,
        v.perp().dot(v.perp()) == v.dot(v),
{
    lemma_pairs(v.y, v.x);
    lemma_comm(v.x, v.y);
    lemma_pairs(v.y, -v.y);
    lemma_pairs(v.y, v.y);
}

/// The two directions that a vector of space gives for its orthogonal
/// subspace are orthogonal to the vector and to each other.
pub proof fn lemma_subspace_directions3(v: Vec3<int>)
    ensures
        v.any_orthogonal().dot(v) == 0,
        v.any_orthogonal().cross(v).dot(v) == 0,
        v.any_orthogonal().cross(v).dot(v.any_orthogonal()) == 0,
{
    lemma_cross_orthogonal(v.any_orthogonal(), v);
    lemma_pairs(v.x, v.z);
    lemma_pairs(v.z, v.y);
    lemma_comm(v.x, v.z);
    lemma_comm(v.y, v.z);
}

/// The three directions that a vector of four components gives for its
/// orthogonal subspace are orthogonal to the vector and to each other, and
/// have its squared norm.
pub proof fn lemma_subspace_directions4(v: Vec4<int>)
    ensures
        v.perp1().dot(v) == 0,
        v.perp2().dot(v) == 0,
        v.perp3().dot(v) == 0,
        v.perp1().dot(v.perp2()) == 0,
        v.perp1().dot(v.perp3()) == 0,
        v.perp2().dot(v.perp3()) == 0,
        v.perp1().dot(v.perp1()) == v.dot(v),
        v.perp2().dot(v.perp2()) == v.dot(v),
        v.perp3().dot(v.perp3()) == v.dot(v),
{
    lemma_pairs(v.x, v.y);
    lemma_pairs(v.x, v.z);
    lemma_pairs(v.x, v.w);
    lemma_pairs(v.y, v.z);
    lemma_pairs(v.y, v.w);
    lemma_pairs(v.z, v.w);
    lemma_pairs(v.x, v.x);
    lemma_pairs(v.y, v.y);
    lemma_pairs(v.z, v.z);
    lemma_pairs(v.w, v.w);
}

/// The quotient of an integer by a positive integer that divides it,
/// times the divisor, is the integer.
pub proof fn lemma_exact_quotient(a: int, n: int)
    requires
        n >= 1,
        a % n == 0,
    ensures
        trunc_div(a, n) * n == a,
{
    let k = a / n;
    vstd::arithmetic::div_mod::lemma_fundamental_div_mod(a, n);
    lemma_comm(n, k);
    if a < 0 {
        lemma_pairs(n, k);
        assert(-a == n * (-k));
        vstd::arithmetic::div_mod::lemma_div_multiples_vanish(-k, n);
        assert((-a) / n == -k);
    }
}

/// The square of a product is the product of the squares.
proof fn lemma_square_product(q: int, n: int) by (nonlinear_arith)
    ensures
        (q * n) * (q * n) == (q * q) * (n * n),
{
}

/// An integer whose product with a positive integer is that integer is one.
proof fn lemma_cancel(s: int, m: int) by (nonlinear_arith)
    requires
        m >= 1,
        s * m == m,
    ensures
        s == 1,
{
}

/// An integer whose product with a positive integer is zero is zero.
proof fn lemma_cancel_zero(s: int, m: int) by (nonlinear_arith)
    requires
        m >= 1,
        s * m == 0,
    ensures
        s == 0,
{
}

/// A positive integer has a positive square.
proof fn lemma_square_positive(n: int) by (nonlinear_arith)
    requires
        n >= 1,
    ensures
        n * n >= 1,
{
}

/// The normalized form of a normalizable vector of 1 component that is not
/// zero has norm one, and is the vector scaled by one over its norm: scaled by
/// the norm, it is the vector. It has the inner products of the vector, each
/// divided by the norm.
pub proof fn lemma_normalized_unit1(v: Vec1<int>, w: Vec1<int>)
    requires
        v.normalizable(),
        v != Vec1::<int>::origin(),
    ensures
        floor_sqrt(v.dot(v)) >= 1,
        v.normalized().scale(floor_sqrt(v.dot(v))) == v,
        v.normalized().dot(v.normalized()) == 1,
        v.normalized().dot(w) * floor_sqrt(v.dot(v)) == v.dot(w),
        v.dot(w) == 0 ==> v.normalized().dot(w) == 0,
{
    let d = v.dot(v);
    let n = floor_sqrt(d);
    let u = v.normalized();
    lemma_square_nonneg(v.x);
    lemma_square_zero(v.x);
    lemma_floor_sqrt_positive(d);
    lemma_square_positive(n);
    lemma_exact_quotient(v.x, n);
    lemma_square_product(u.x, n);
    lemma_mono3(u.x, n, w.x);
    lemma_cancel(u.dot(u), n * n);
    if v.dot(w) == 0 {
        lemma_cancel_zero(u.dot(w), n);
    }
}

/// The canonical basis of the vectors of 1 component: one vector for each axis,
/// in the order of the axes, with `1` along its axis and `0` elsewhere.
pub proof fn lemma_canonical_basis1<N: Algebraic>()
    ensures
        <Vec1<N> as Basis>::canonical_basis_seq().len() == 1,
        <Vec1<N> as Basis>::canonical_basis_seq()[0]@ == (Vec1 { x: 1int }),
{
    N::lemma_range();
    N::lemma_of(0);
    N::lemma_of(1);
}

/// The squared norm of a vector of 1 component is its inner product with
/// itself, and its norm is the root of that, rounded down.
pub proof fn lemma_sqnorm_is_dot1<N: Algebraic>(v: Vec1<int>, r: N)
    ensures
        <Vec1<N> as Norm<N>>::is_sqnorm(v, r) <==> r.val() == <Vec1<N> as Dot<N>>::dot_model(v, v),
        <Vec1<N> as Norm<N>>::is_norm(v, r) <==> r.val() == floor_sqrt(
            <Vec1<N> as Dot<N>>::dot_model(v, v),
        ),
{
}

/// The sample points of the unit sphere of the vectors of 1 component
/// have squared norm one.
pub proof fn lemma_sample_points1<N: Scalar>(i: int)
    requires
        0 <= i < 2,
    ensures
        <Vec1<N> as UniformSphereSample>::sample_points().len() == 2,
        <Vec1<N> as UniformSphereSample>::sample_points()[i]@.dot(
            <Vec1<N> as UniformSphereSample>::sample_points()[i]@,
        ) == 1,
{
    N::lemma_range();
    N::lemma_of(0);
    N::lemma_of(1);
    N::lemma_of(-1);
    let v = <Vec1<N> as UniformSphereSample>::sample_points()[i]@;
    lemma_unit_square(v.x);
}

/// To lower the homogeneous form of a vector of 1 component gives the
/// vector back.
pub proof fn lemma_homogeneous_round_trip_vec1<N: Scalar>(v: Vec1<int>)
    ensures
        <Vec1<N> as FromHomogeneous<Vec2<N>>>::from_fits(
            <Vec1<N> as ToHomogeneous<Vec2<N>>>::to_homogeneous_model(v),
        ),
        <Vec1<N> as FromHomogeneous<Vec2<N>>>::from_model(
            <Vec1<N> as ToHomogeneous<Vec2<N>>>::to_homogeneous_model(v),
        ) == v,
{
}

/// The normalized form of a normalizable vector of 2 components that is not
/// zero has norm one, and is the vector scaled by one over its norm: scaled by
/// the norm, it is the vector. It has the inner products of the vector, each
/// divided by the norm.
pub proof fn lemma_normalized_unit2(v: Vec2<int>, w: Vec2<int>)
    requires
        v.normalizable(),
        v != Vec2::<int>::origin(),
    ensures
        floor_sqrt(v.dot(v)) >= 1,
        v.normalized().scale(floor_sqrt(v.dot(v))) == v,
        v.normalized().dot(v.normalized()) == 1,
        v.normalized().dot(w) * floor_sqrt(v.dot(v)) == v.dot(w),
        v.dot(w) == 0 ==> v.normalized().dot(w) == 0,
{
    let d = v.dot(v);
    let n = floor_sqrt(d);
    let u = v.normalized();
    lemma_square_nonneg(v.x);
    lemma_square_zero(v.x);
    lemma_square_nonneg(v.y);
    lemma_square_zero(v.y);
    lemma_floor_sqrt_positive(d);
    lemma_square_positive(n);
    lemma_exact_quotient(v.x, n);
    lemma_square_product(u.x, n);
    lemma_mono3(u.x, n, w.x);
    lemma_exact_quotient(v.y, n);
    lemma_square_product(u.y, n);
    lemma_mono3(u.y, n, w.y);
    lemma_dist_left2(u.x * u.x, u.y * u.y, n * n);
    lemma_dist_left2(u.x * w.x, u.y * w.y, n);
    lemma_cancel(u.dot(u), n * n);
    if v.dot(w) == 0 {
        lemma_cancel_zero(u.dot(w), n);
    }
}

/// The canonical basis of the vectors of 2 components: one vector for each axis,
/// in the order of the axes, with `1` along its axis and `0` elsewhere.
pub proof fn lemma_canonical_basis2<N: Algebraic>()
    ensures
        <Vec2<N> as Basis>::canonical_basis_seq().len() == 2,
        <Vec2<N> as Basis>::canonical_basis_seq()[0]@ == (Vec2 { x: 1int, y: 0int }),
        <Vec2<N> as Basis>::canonical_basis_seq()[1]@ == (Vec2 { x: 0int, y: 1int }),
{
    N::lemma_range();
    N::lemma_of(0);
    N::lemma_of(1);
}

/// The squared norm of a vector of 2 components is its inner product with
/// itself, and its norm is the root of that, rounded down.
pub proof fn lemma_sqnorm_is_dot2<N: Algebraic>(v: Vec2<int>, r: N)
    ensures
        <Vec2<N> as Norm<N>>::is_sqnorm(v, r) <==> r.val() == <Vec2<N> as Dot<N>>::dot_model(v, v),
        <Vec2<N> as Norm<N>>::is_norm(v, r) <==> r.val() == floor_sqrt(
            <Vec2<N> as Dot<N>>::dot_model(v, v),
        ),
{
}

/// The sample points of the unit sphere of the vectors of 2 components
/// have squared norm one.
pub proof fn lemma_sample_points2<N: Scalar>(i: int)
    requires
        0 <= i < 4,
    ensures
        <Vec2<N> as UniformSphereSample>::sample_points().len() == 4,
        <Vec2<N> as UniformSphereSample>::sample_points()[i]@.dot(
            <Vec2<N> as UniformSphereSample>::sample_points()[i]@,
        ) == 1,
{
    N::lemma_range();
    N::lemma_of(0);
    N::lemma_of(1);
    N::lemma_of(-1);
    let v = <Vec2<N> as UniformSphereSample>::sample_points()[i]@;
    lemma_unit_square(v.x);
    lemma_unit_square(v.y);
}

/// To lower the homogeneous form of a vector of 2 components gives the
/// vector back.
pub proof fn lemma_homogeneous_round_trip_vec2<N: Scalar>(v: Vec2<int>)
    ensures
        <Vec2<N> as FromHomogeneous<Vec3<N>>>::from_fits(
            <Vec2<N> as ToHomogeneous<Vec3<N>>>::to_homogeneous_model(v),
        ),
        <Vec2<N> as FromHomogeneous<Vec3<N>>>::from_model(
            <Vec2<N> as ToHomogeneous<Vec3<N>>>::to_homogeneous_model(v),
        ) == v,
{
}

/// The normalized form of a normalizable vector of 3 components that is not
/// zero has norm one, and is the vector scaled by one over its norm: scaled by
/// the norm, it is the vector. It has the inner products of the vector, each
/// divided by the norm.
pub proof fn lemma_normalized_unit3(v: Vec3<int>, w: Vec3<int>)
    requires
        v.normalizable(),
        v != Vec3::<int>::origin(),
    ensures
        floor_sqrt(v.dot(v)) >= 1,
        v.normalized().scale(floor_sqrt(v.dot(v))) == v,
        v.normalized().dot(v.normalized()) == 1,
        v.normalized().dot(w) * floor_sqrt(v.dot(v)) == v.dot(w),
        v.dot(w) == 0 ==> v.normalized().dot(w) == 0,
{
    let d = v.dot(v);
    let n = floor_sqrt(d);
    let u = v.normalized();
    lemma_square_nonneg(v.x);
    lemma_square_zero(v.x);
    lemma_square_nonneg(v.y);
    lemma_square_zero(v.y);
    lemma_square_nonneg(v.z);
    lemma_square_zero(v.z);
    lemma_floor_sqrt_positive(d);
    lemma_square_positive(n);
    lemma_exact_quotient(v.x, n);
    lemma_square_product(u.x, n);
    lemma_mono3(u.x, n, w.x);
    lemma_exact_quotient(v.y, n);
    lemma_square_product(u.y, n);
    lemma_mono3(u.y, n, w.y);
    lemma_exact_quotient(v.z, n);
    lemma_square_product(u.z, n);
    lemma_mono3(u.z, n, w.z);
    lemma_dist_left3(u.x * u.x, u.y * u.y, u.z * u.z, n * n);
    lemma_dist_left3(u.x * w.x, u.y * w.y, u.z * w.z, n);
    lemma_cancel(u.dot(u), n * n);
    if v.dot(w) == 0 {
        lemma_cancel_zero(u.dot(w), n);
    }
}

/// The canonical basis of the vectors of 3 components: one vector for each axis,
/// in the order of the axes, with `1` along its axis and `0` elsewhere.
pub proof fn lemma_canonical_basis3<N: Algebraic>()
    ensures
        <Vec3<N> as Basis>::canonical_basis_seq().len() == 3,
        <Vec3<N> as Basis>::canonical_basis_seq()[0]@ == (Vec3 { x: 1int, y: 0int, z: 0int }),
        <Vec3<N> as Basis>::canonical_basis_seq()[1]@ == (Vec3 { x: 0int, y: 1int, z: 0int }),
        <Vec3<N> as Basis>::canonical_basis_seq()[2]@ == (Vec3 { x: 0int, y: 0int, z: 1int }),
{
    N::lemma_range();
    N::lemma_of(0);
    N::lemma_of(1);
}

/// The squared norm of a vector of 3 components is its inner product with
/// itself, and its norm is the root of that, rounded down.
pub proof fn lemma_sqnorm_is_dot3<N: Algebraic>(v: Vec3<int>, r: N)
    ensures
        <Vec3<N> as Norm<N>>::is_sqnorm(v, r) <==> r.val() == <Vec3<N> as Dot<N>>::dot_model(v, v),
        <Vec3<N> as Norm<N>>::is_norm(v, r) <==> r.val() == floor_sqrt(
            <Vec3<N> as Dot<N>>::dot_model(v, v),
        ),
{
}

/// The sample points of the unit sphere of the vectors of 3 components
/// have squared norm one.
pub proof fn lemma_sample_points3<N: Scalar>(i: int)
    requires
        0 <= i < 6,
    ensures
        <Vec3<N> as UniformSphereSample>::sample_points().len() == 6,
        <Vec3<N> as UniformSphereSample>::sample_points()[i]@.dot(
            <Vec3<N> as UniformSphereSample>::sample_points()[i]@,
        ) == 1,
{
    N::lemma_range();
    N::lemma_of(0);
    N::lemma_of(1);
    N::lemma_of(-1);
    let v = <Vec3<N> as UniformSphereSample>::sample_points()[i]@;
    lemma_unit_square(v.x);
    lemma_unit_square(v.y);
    lemma_unit_square(v.z);
}

/// To lower the homogeneous form of a vector of 3 components gives the
/// vector back.
pub proof fn lemma_homogeneous_round_trip_vec3<N: Scalar>(v: Vec3<int>)
    ensures
        <Vec3<N> as FromHomogeneous<Vec4<N>>>::from_fits(
            <Vec3<N> as ToHomogeneous<Vec4<N>>>::to_homogeneous_model(v),
        ),
        <Vec3<N> as FromHomogeneous<Vec4<N>>>::from_model(
            <Vec3<N> as ToHomogeneous<Vec4<N>>>::to_homogeneous_model(v),
        ) == v,
{
}

/// The normalized form of a normalizable vector of 4 components that is not
/// zero has norm one, and is the vector scaled by one over its norm: scaled by
/// the norm, it is the vector. It has the inner products of the vector, each
/// divided by the norm.
pub proof fn lemma_normalized_unit4(v: Vec4<int>, w: Vec4<int>)
    requires
        v.normalizable(),
        v != Vec4::<int>::origin(),
    ensures
        floor_sqrt(v.dot(v)) >= 1,
        v.normalized().scale(floor_sqrt(v.dot(v))) == v,
        v.normalized().dot(v.normalized()) == 1,
        v.normalized().dot(w) * floor_sqrt(v.dot(v)) == v.dot(w),
        v.dot(w) == 0 ==> v.normalized().dot(w) == 0,
{
    let d = v.dot(v);
    let n = floor_sqrt(d);
    let u = v.normalized();
    lemma_square_nonneg(v.x);
    lemma_square_zero(v.x);
    lemma_square_nonneg(v.y);
    lemma_square_zero(v.y);
    lemma_square_nonneg(v.z);
    lemma_square_zero(v.z);
    lemma_square_nonneg(v.w);
    lemma_square_zero(v.w);
    lemma_floor_sqrt_positive(d);
    lemma_square_positive(n);
    lemma_exact_quotient(v.x, n);
    lemma_square_product(u.x, n);
    lemma_mono3(u.x, n, w.x);
    lemma_exact_quotient(v.y, n);
    lemma_square_product(u.y, n);
    lemma_mono3(u.y, n, w.y);
    lemma_exact_quotient(v.z, n);
    lemma_square_product(u.z, n);
    lemma_mono3(u.z, n, w.z);
    lemma_exact_quotient(v.w, n);
    lemma_square_product(u.w, n);
    lemma_mono3(u.w, n, w.w);
    lemma_dist_left4(u.x * u.x, u.y * u.y, u.z * u.z, u.w * u.w, n * n);
    lemma_dist_left4(u.x * w.x, u.y * w.y, u.z * w.z, u.w * w.w, n);
    lemma_cancel(u.dot(u), n * n);
    if v.dot(w) == 0 {
        lemma_cancel_zero(u.dot(w), n);
    }
}

/// The canonical basis of the vectors of 4 components: one vector for each axis,
/// in the order of the axes, with `1` along its axis and `0` elsewhere.
pub proof fn lemma_canonical_basis4<N: Algebraic>()
    ensures
        <Vec4<N> as Basis>::canonical_basis_seq().len() == 4,
        <Vec4<N> as Basis>::canonical_basis_seq()[0]@
            == (Vec4 { x: 1int, y: 0int, z: 0int, w: 0int }),
        <Vec4<N> as Basis>::canonical_basis_seq()[1]@
            == (Vec4 { x: 0int, y: 1int, z: 0int, w: 0int }),
        <Vec4<N> as Basis>::canonical_basis_seq()[2]@
            == (Vec4 { x: 0int, y: 0int, z: 1int, w: 0int }),
        <Vec4<N> as Basis>::canonical_basis_seq()[3]@
            == (Vec4 { x: 0int, y: 0int, z: 0int, w: 1int }),
{
    N::lemma_range();
    N::lemma_of(0);
    N::lemma_of(1);
}

/// The squared norm of a vector of 4 components is its inner product with
/// itself, and its norm is the root of that, rounded down.
pub proof fn lemma_sqnorm_is_dot4<N: Algebraic>(v: Vec4<int>, r: N)
    ensures
        <Vec4<N> as Norm<N>>::is_sqnorm(v, r) <==> r.val() == <Vec4<N> as Dot<N>>::dot_model(v, v),
        <Vec4<N> as Norm<N>>::is_norm(v, r) <==> r.val() == floor_sqrt(
            <Vec4<N> as Dot<N>>::dot_model(v, v),
        ),
{
}

/// The sample points of the unit sphere of the vectors of 4 components
/// have squared norm one.
pub proof fn lemma_sample_points4<N: Scalar>(i: int)
    requires
        0 <= i < 8,
    ensures
        <Vec4<N> as UniformSphereSample>::sample_points().len() == 8,
        <Vec4<N> as UniformSphereSample>::sample_points()[i]@.dot(
            <Vec4<N> as UniformSphereSample>::sample_points()[i]@,
        ) == 1,
{
    N::lemma_range();
    N::lemma_of(0);
    N::lemma_of(1);
    N::lemma_of(-1);
    let v = <Vec4<N> as UniformSphereSample>::sample_points()[i]@;
    lemma_unit_square(v.x);
    lemma_unit_square(v.y);
    lemma_unit_square(v.z);
    lemma_unit_square(v.w);
}

/// To lower the homogeneous form of a vector of 4 components gives the
/// vector back.
pub proof fn lemma_homogeneous_round_trip_vec4<N: Scalar>(v: Vec4<int>)
    ensures
        <Vec4<N> as FromHomogeneous<Vec5<N>>>::from_fits(
            <Vec4<N> as ToHomogeneous<Vec5<N>>>::to_homogeneous_model(v),
        ),
        <Vec4<N> as FromHomogeneous<Vec5<N>>>::from_model(
            <Vec4<N> as ToHomogeneous<Vec5<N>>>::to_homogeneous_model(v),
        ) == v,
{
}

/// The normalized form of a normalizable vector of 5 components that is not
/// zero has norm one, and is the vector scaled by one over its norm: scaled by
/// the norm, it is the vector. It has the inner products of the vector, each
/// divided by the norm.
pub proof fn lemma_normalized_unit5(v: Vec5<int>, w: Vec5<int>)
    requires
        v.normalizable(),
        v != Vec5::<int>::origin(),
    ensures
        floor_sqrt(v.dot(v)) >= 1,
        v.normalized().scale(floor_sqrt(v.dot(v))) == v,
        v.normalized().dot(v.normalized()) == 1,
        v.normalized().dot(w) * floor_sqrt(v.dot(v)) == v.dot(w),
        v.dot(w) == 0 ==> v.normalized().dot(w) == 0,
{
    let d = v.dot(v);
    let n = floor_sqrt(d);
    let u = v.normalized();
    lemma_square_nonneg(v.x);
    lemma_square_zero(v.x);
    lemma_square_nonneg(v.y);
    lemma_square_zero(v.y);
    lemma_square_nonneg(v.z);
    lemma_square_zero(v.z);
    lemma_square_nonneg(v.w);
    lemma_square_zero(v.w);
    lemma_square_nonneg(v.a);
    lemma_square_zero(v.a);
    lemma_floor_sqrt_positive(d);
    lemma_square_positive(n);
    lemma_exact_quotient(v.x, n);
    lemma_square_product(u.x, n);
    lemma_mono3(u.x, n, w.x);
    lemma_exact_quotient(v.y, n);
    lemma_square_product(u.y, n);
    lemma_mono3(u.y, n, w.y);
    lemma_exact_quotient(v.z, n);
    lemma_square_product(u.z, n);
    lemma_mono3(u.z, n, w.z);
    lemma_exact_quotient(v.w, n);
    lemma_square_product(u.w, n);
    lemma_mono3(u.w, n, w.w);
    lemma_exact_quotient(v.a, n);
    lemma_square_product(u.a, n);
    lemma_mono3(u.a, n, w.a);
    lemma_dist_left5(u.x * u.x, u.y * u.y, u.z * u.z, u.w * u.w, u.a * u.a, n * n);
    lemma_dist_left5(u.x * w.x, u.y * w.y, u.z * w.z, u.w * w.w, u.a * w.a, n);
    lemma_cancel(u.dot(u), n * n);
    if v.dot(w) == 0 {
        lemma_cancel_zero(u.dot(w), n);
    }
}

/// The squared norm of a vector of 5 components is its inner product with
/// itself, and its norm is the root of that, rounded down.
pub proof fn lemma_sqnorm_is_dot5<N: Algebraic>(v: Vec5<int>, r: N)
    ensures
        <Vec5<N> as Norm<N>>::is_sqnorm(v, r) <==> r.val() == <Vec5<N> as Dot<N>>::dot_model(v, v),
        <Vec5<N> as Norm<N>>::is_norm(v, r) <==> r.val() == floor_sqrt(
            <Vec5<N> as Dot<N>>::dot_model(v, v),
        ),
{
}

/// The sample points of the unit sphere of the vectors of 5 components
/// have squared norm one.
pub proof fn lemma_sample_points5<N: Scalar>(i: int)
    requires
        0 <= i < 10,
    ensures
        <Vec5<N> as UniformSphereSample>::sample_points().len() == 10,
        <Vec5<N> as UniformSphereSample>::sample_points()[i]@.dot(
            <Vec5<N> as UniformSphereSample>::sample_points()[i]@,
        ) == 1,
{
    N::lemma_range();
    N::lemma_of(0);
    N::lemma_of(1);
    N::lemma_of(-1);
    let v = <Vec5<N> as UniformSphereSample>::sample_points()[i]@;
    lemma_unit_square(v.x);
    lemma_unit_square(v.y);
    lemma_unit_square(v.z);
    lemma_unit_square(v.w);
    lemma_unit_square(v.a);
}

/// To lower the homogeneous form of a vector of 5 components gives the
/// vector back.
pub proof fn lemma_homogeneous_round_trip_vec5<N: Scalar>(v: Vec5<int>)
    ensures
        <Vec5<N> as FromHomogeneous<Vec6<N>>>::from_fits(
            <Vec5<N> as ToHomogeneous<Vec6<N>>>::to_homogeneous_model(v),
        ),
        <Vec5<N> as FromHomogeneous<Vec6<N>>>::from_model(
            <Vec5<N> as ToHomogeneous<Vec6<N>>>::to_homogeneous_model(v),
        ) == v,
{
}

/// The normalized form of a normalizable vector of 6 components that is not
/// zero has norm one, and is the vector scaled by one over its norm: scaled by
/// the norm, it is the vector. It has the inner products of the vector, each
/// divided by the norm.
pub proof fn lemma_normalized_unit6(v: Vec6<int>, w: Vec6<int>)
    requires
        v.normalizable(),
        v != Vec6::<int>::origin(),
    ensures
        floor_sqrt(v.dot(v)) >= 1,
        v.normalized().scale(floor_sqrt(v.dot(v))) == v,
        v.normalized().dot(v.normalized()) == 1,
        v.normalized().dot(w) * floor_sqrt(v.dot(v)) == v.dot(w),
        v.dot(w) == 0 ==> v.normalized().dot(w) == 0,
{
    let d = v.dot(v);
    let n = floor_sqrt(d);
    let u = v.normalized();
    lemma_square_nonneg(v.x);
    lemma_square_zero(v.x);
    lemma_square_nonneg(v.y);
    lemma_square_zero(v.y);
    lemma_square_nonneg(v.z);
    lemma_square_zero(v.z);
    lemma_square_nonneg(v.w);
    lemma_square_zero(v.w);
    lemma_square_nonneg(v.a);
    lemma_square_zero(v.a);
    lemma_square_nonneg(v.b);
    lemma_square_zero(v.b);
    lemma_floor_sqrt_positive(d);
    lemma_square_positive(n);
    lemma_exact_quotient(v.x, n);
    lemma_square_product(u.x, n);
    lemma_mono3(u.x, n, w.x);
    lemma_exact_quotient(v.y, n);
    lemma_square_product(u.y, n);
    lemma_mono3(u.y, n, w.y);
    lemma_exact_quotient(v.z, n);
    lemma_square_product(u.z, n);
    lemma_mono3(u.z, n, w.z);
    lemma_exact_quotient(v.w, n);
    lemma_square_product(u.w, n);
    lemma_mono3(u.w, n, w.w);
    lemma_exact_quotient(v.a, n);
    lemma_square_product(u.a, n);
    lemma_mono3(u.a, n, w.a);
    lemma_exact_quotient(v.b, n);
    lemma_square_product(u.b, n);
    lemma_mono3(u.b, n, w.b);
    lemma_dist_left6(u.x * u.x, u.y * u.y, u.z * u.z, u.w * u.w, u.a * u.a, u.b * u.b, n * n);
    lemma_dist_left6(u.x * w.x, u.y * w.y, u.z * w.z, u.w * w.w, u.a * w.a, u.b * w.b, n);
    lemma_cancel(u.dot(u), n * n);
    if v.dot(w) == 0 {
        lemma_cancel_zero(u.dot(w), n);
    }
}

/// The squared norm of a vector of 6 components is its inner product with
/// itself, and its norm is the root of that, rounded down.
pub proof fn lemma_sqnorm_is_dot6<N: Algebraic>(v: Vec6<int>, r: N)
    ensures
        <Vec6<N> as Norm<N>>::is_sqnorm(v, r) <==> r.val() == <Vec6<N> as Dot<N>>::dot_model(v, v),
        <Vec6<N> as Norm<N>>::is_norm(v, r) <==> r.val() == floor_sqrt(
            <Vec6<N> as Dot<N>>::dot_model(v, v),
        ),
{
}

/// The sample points of the unit sphere of the vectors of 6 components
/// have squared norm one.
pub proof fn lemma_sample_points6<N: Scalar>(i: int)
    requires
        0 <= i < 12,
    ensures
        <Vec6<N> as UniformSphereSample>::sample_points().len() == 12,
        <Vec6<N> as UniformSphereSample>::sample_points()[i]@.dot(
            <Vec6<N> as UniformSphereSample>::sample_points()[i]@,
        ) == 1,
{
    N::lemma_range();
    N::lemma_of(0);
    N::lemma_of(1);
    N::lemma_of(-1);
    let v = <Vec6<N> as UniformSphereSample>::sample_points()[i]@;
    lemma_unit_square(v.x);
    lemma_unit_square(v.y);
    lemma_unit_square(v.z);
    lemma_unit_square(v.w);
    lemma_unit_square(v.a);
    lemma_unit_square(v.b);
}

/// The basis that a vector of the plane, not zero, gives for its orthogonal
/// subspace: one vector of norm one, orthogonal to the vector.
pub proof fn lemma_orthonormal_subspace_basis2<N: Algebraic>(v: Vec2<int>)
    requires
        v != Vec2::<int>::origin(),
        <Vec2<N> as Basis>::orthonormal_subspace_basis_fits(v),
    ensures
        <Vec2<N> as Basis>::orthonormal_subspace_basis_model(v).len() == 1,
        <Vec2<N> as Basis>::orthonormal_subspace_basis_model(v)[0].dot(
            <Vec2<N> as Basis>::orthonormal_subspace_basis_model(v)[0],
        ) == 1,
        <Vec2<N> as Basis>::orthonormal_subspace_basis_model(v)[0].dot(v) == 0,
{
    lemma_subspace_directions2(v);
    lemma_normalized_unit2(v.perp(), v);
}

/// The basis that a vector of space, not zero, gives for its orthogonal
/// subspace: two vectors of norm one, orthogonal to the vector and to each
/// other.
pub proof fn lemma_orthonormal_subspace_basis3<N: Algebraic>(v: Vec3<int>)
    requires
        v != Vec3::<int>::origin(),
        <Vec3<N> as Basis>::orthonormal_subspace_basis_fits(v),
    ensures
        <Vec3<N> as Basis>::orthonormal_subspace_basis_model(v).len() == 2,
        forall|i: int|
            0 <= i < 2 ==> (#[trigger] <Vec3<N> as Basis>::orthonormal_subspace_basis_model(
                v,
            )[i]).dot(<Vec3<N> as Basis>::orthonormal_subspace_basis_model(v)[i]) == 1
                && <Vec3<N> as Basis>::orthonormal_subspace_basis_model(v)[i].dot(v) == 0,
        <Vec3<N> as Basis>::orthonormal_subspace_basis_model(v)[0].dot(
            <Vec3<N> as Basis>::orthonormal_subspace_basis_model(v)[1],
        ) == 0,
{
    let a = v.any_orthogonal();
    let c = a.cross(v);
    lemma_subspace_directions3(v);
    lemma_square_nonneg(v.x);
    lemma_square_nonneg(v.y);
    lemma_square_nonneg(v.z);
    lemma_square_zero(v.x);
    lemma_square_zero(v.y);
    lemma_square_zero(v.z);
    lemma_pairs(v.x, v.x);
    lemma_pairs(v.z, v.z);
    lemma_mul_zero(0, v.x);
    lemma_mul_zero(0, v.y);
    lemma_mul_zero(0, v.z);
    assert(a != Vec3::<int>::origin());
    assert(c != Vec3::<int>::origin());
    lemma_normalized_unit3(a, v);
    lemma_normalized_unit3(a, c);
    lemma_comm(c.x, a.x);
    lemma_comm(c.y, a.y);
    lemma_comm(c.z, a.z);
    let an = a.normalized();
    lemma_comm(an.x, c.x);
    lemma_comm(an.y, c.y);
    lemma_comm(an.z, c.z);
    lemma_normalized_unit3(c, v);
    lemma_normalized_unit3(c, an);
}

/// The basis that a vector of four components, not zero, gives for its
/// orthogonal subspace: three vectors of norm one, orthogonal to the vector
/// and to each other.
pub proof fn lemma_orthonormal_subspace_basis4<N: Algebraic>(v: Vec4<int>)
    requires
        v != Vec4::<int>::origin(),
        <Vec4<N> as Basis>::orthonormal_subspace_basis_fits(v),
    ensures
        <Vec4<N> as Basis>::orthonormal_subspace_basis_model(v).len() == 3,
        forall|i: int|
            0 <= i < 3 ==> (#[trigger] <Vec4<N> as Basis>::orthonormal_subspace_basis_model(
                v,
            )[i]).dot(<Vec4<N> as Basis>::orthonormal_subspace_basis_model(v)[i]) == 1
                && <Vec4<N> as Basis>::orthonormal_subspace_basis_model(v)[i].dot(v) == 0,
        <Vec4<N> as Basis>::orthonormal_subspace_basis_model(v)[0].dot(
            <Vec4<N> as Basis>::orthonormal_subspace_basis_model(v)[1],
        ) == 0,
        <Vec4<N> as Basis>::orthonormal_subspace_basis_model(v)[0].dot(
            <Vec4<N> as Basis>::orthonormal_subspace_basis_model(v)[2],
        ) == 0,
        <Vec4<N> as Basis>::orthonormal_subspace_basis_model(v)[1].dot(
            <Vec4<N> as Basis>::orthonormal_subspace_basis_model(v)[2],
        ) == 0,
{
    let u1 = v.perp1();
    let u2 = v.perp2();
    let u3 = v.perp3();
    lemma_subspace_directions4(v);
    lemma_normalized_unit4(u1, v);
    lemma_normalized_unit4(u2, v);
    lemma_normalized_unit4(u3, v);
    let n2 = u2.normalized();
    let n3 = u3.normalized();
    lemma_dot_comm4(u2, u1);
    lemma_dot_comm4(u3, u1);
    lemma_dot_comm4(u3, u2);
    lemma_normalized_unit4(u2, u1);
    lemma_normalized_unit4(u3, u1);
    lemma_normalized_unit4(u3, u2);
    lemma_dot_comm4(n2, u1);
    lemma_dot_comm4(n3, u1);
    lemma_dot_comm4(n3, u2);
    lemma_normalized_unit4(u1, n2);
    lemma_normalized_unit4(u1, n3);
    lemma_normalized_unit4(u2, n3);
}

/// The inner product of vectors of four components does not depend on
/// their order.
pub proof fn lemma_dot_comm4(a: Vec4<int>, b: Vec4<int>)
    ensures
        a.dot(b) == b.dot(a),
{
    lemma_comm(a.x, b.x);
    lemma_comm(a.y, b.y);
    lemma_comm(a.z, b.z);
    lemma_comm(a.w, b.w);
}

} // verus!
