//! Fractions: vectors and matrices of scalars over a common denominator.
//!
//! A vector or matrix of integers cannot hold a vector of norm one in
//! every direction, nor the inverse of every matrix that is not singular.
//! A fraction can: it stands for its numerator, a vector or matrix of
//! scalars, divided by its denominator, a positive scalar.
//!
//! The inverse of a matrix of fractions is exact. A root is taken of a
//! fraction that was enlarged by the precision of its scalar type, so that
//! the norm of a vector is off by less than one part in the precision, and
//! the normalized form of a vector, which is the vector scaled by a
//! positive factor, has a norm between one and one and one part in the
//! precision.
use crate::determinant::{lemma_adjugate4, lemma_det_times2, lemma_det_times3, lemma_det_times4};
use crate::matrix::{Mat1, Mat2, Mat3, Mat4};
use crate::matrix_laws::{
    lemma_adjugate1, lemma_adjugate2, lemma_adjugate3, lemma_det_times1, lemma_times_assoc1,
    lemma_times_assoc2, lemma_times_assoc3, lemma_times_assoc4, lemma_times_identity1,
    lemma_times_identity2, lemma_times_identity3, lemma_times_identity4,
};
use crate::ring::{
    lemma_assoc, lemma_comm, lemma_dist_left2, lemma_dist_left3, lemma_dist_left4, lemma_mul_zero,
    lemma_pairs, lemma_square_nonneg, lemma_square_zero,
};
use crate::scalar::{
    abs_int, Algebraic, fits, floor_sqrt, lemma_floor_sqrt, lemma_floor_sqrt_between,
    lemma_square_monotone, Scalar,
};
use crate::traits::{Basis, Cross, Dot, Inv, Norm};
use crate::vector::{
    lemma_subspace_directions2, lemma_subspace_directions3, lemma_subspace_directions4, Vec1, Vec2,
    Vec3, Vec4,
};
use vstd::prelude::*;

verus! {

/// A fraction of two scalars: `num` divided by `den`, which is positive.
#[derive(Clone, Copy, Debug, PartialEq, Eq)]
pub struct Ratio<N> {
    pub num: N,
    pub den: N,
}

/// The mathematical model of a fraction of scalars.
pub struct RatioModel {
    pub num: int,
    pub den: int,
}

impl<N: Scalar> View for Ratio<N> {
    type V = RatioModel;

    open spec fn view(&self) -> RatioModel {
        RatioModel { num: self.num.val(), den: self.den.val() }
    }
}

impl RatioModel {
    /// Whether `self` and `o` stand for the same number.
    pub open spec fn same(self, o: RatioModel) -> bool {
        self.num * o.den == o.num * self.den
    }
}

/// The square of the product of two integers.
proof fn lemma_scaled_square(x: int, s: int) by (nonlinear_arith)
    ensures
        (x * s) * (x * s) == (x * x) * (s * s),
{
}

/// The square of a positive integer times an integer that is at least one
/// is at least the square.
proof fn lemma_scaled_sum(d: int, s: int) by (nonlinear_arith)
    requires
        d >= 1,
        s >= 1,
    ensures
        d * (s * s) >= s * s,
        s * s >= 1,
{
}

/// The product of two positive integers is not zero.
proof fn lemma_nonzero_product(a: int, b: int) by (nonlinear_arith)
    requires
        a >= 1,
        b >= 1,
    ensures
        a * b != 0,
{
}

/// Fractions that are the same after they were enlarged by a common positive
/// factor are the same.
proof fn lemma_cancel_common(y: int, a: int, m: int, b: int, c: int) by (nonlinear_arith)
    requires
        c >= 1,
        y * (a * c) == m * (c * b),
    ensures
        y * a == m * b,
{
}

/// The products of zero and of one with an integer.
proof fn lemma_diagonal_entries(d: int) by (nonlinear_arith)
    ensures
        0 * d == 0,
        1 * d == d,
{
}

/// An integer `x` whose product with `e`, which is not zero, is that of `i`
/// times `e` and `d`, is `i` times `d`.
proof fn lemma_cancel_entry(x: int, i: int, e: int, d: int) by (nonlinear_arith)
    requires
        e != 0,
        x * e == (i * e) * d,
    ensures
        x == i * d,
{
}

/// The powers of an integer that is not zero are not zero.
proof fn lemma_power_nonzero(d: int) by (nonlinear_arith)
    requires
        d != 0,
    ensures
        d * d != 0,
        d * (d * d) != 0,
        d * (d * (d * d)) != 0,
{
}

/// Bounds between two squares, enlarged by the square of `s`.
proof fn lemma_scale_bounds(d: int, q: int, s: int) by (nonlinear_arith)
    requires
        0 <= d,
        d * d <= q,
        q < (d + 1) * (d + 1),
        s >= 1,
    ensures
        (s * d) * (s * d) <= q * (s * s),
        q * (s * s) < (s * d + s) * (s * d + s),
        0 <= s * d,
{
}

/// The products by which a multiple of the identity is scaled.
proof fn lemma_diagonal(d: int, k: int) by (nonlinear_arith)
    ensures
        0 * k == 0,
        d * k == 1 * (k * d),
        0 == 0 * (k * d),
        -(d * k) == 1 * (k * (-d)),
        0 == 0 * (k * (-d)),
        -(0 * k) == 0,
{
}

/// The product of two integers that were multiplied by `s` and by `t`.
proof fn lemma_scaled_pair(a: int, s: int, b: int, t: int) by (nonlinear_arith)
    ensures
        (a * s) * (b * t) == (a * b) * (s * t),
        (a * s) * b == (a * b) * s,
{
}

/// A vector of 1 component of fractions over a common denominator: `num`
/// divided by `den`, which is positive.
#[derive(Clone, Copy, Debug, PartialEq, Eq)]
pub struct QVec1<N> {
    pub num: Vec1<N>,
    pub den: N,
}

/// The mathematical model of a vector of 1 component of fractions.
pub struct QVec1Model {
    pub num: Vec1<int>,
    pub den: int,
}

impl<N: Scalar> View for QVec1<N> {
    type V = QVec1Model;

    open spec fn view(&self) -> QVec1Model {
        QVec1Model { num: self.num@, den: self.den.val() }
    }
}

impl QVec1Model {
    /// The numerator enlarged by `s`.
    pub open spec fn enlarged(self, s: int) -> Vec1<int> {
        self.num.scale(s)
    }

    /// The norm of the numerator enlarged by `s`, rounded down.
    pub open spec fn root(self, s: int) -> int {
        floor_sqrt(self.enlarged(s).dot(self.enlarged(s)))
    }

    /// The vector scaled by a positive factor to norm one, with roots of
    /// precision `s`: the numerator enlarged by `s`, over its norm rounded
    /// down. The zero vector is left as it is.
    pub open spec fn normalized(self, s: int) -> Self {
        if self.root(s) == 0 {
            self
        } else {
            QVec1Model { num: self.enlarged(s), den: self.root(s) }
        }
    }

    /// Whether every step to the norm of the vector is representable in `N`.
    pub open spec fn root_fits<N: Algebraic>(self) -> bool {
        &&& self.den >= 1
        &&& self.enlarged(N::precision()).fits::<N>()
        &&& <Vec1<N> as Dot<N>>::dot_fits(
            self.enlarged(N::precision()),
            self.enlarged(N::precision()),
        )
        &&& fits::<N>(N::precision() * self.den)
    }
}

impl<N: Scalar> QVec1<N> {
    /// The vector `num` divided by `den`.
    pub fn new(num: Vec1<N>, den: N) -> (r: Self)
        ensures
            r == (QVec1 { num, den }),
    {
        QVec1 { num, den }
    }

    /// A vector of integers as a vector of fractions, over the denominator one.
    pub fn whole(num: Vec1<N>) -> (r: Self)
        ensures
            r@ == (QVec1Model { num: num@, den: 1 }),
    {
        let one = N::one();
        proof {
            one.lemma_val();
        }
        QVec1 { num, den: one }
    }
}

impl<N: Algebraic> Norm<Ratio<N>> for QVec1<N> {
    open spec fn norm_fits(v: QVec1Model) -> bool {
        &&& v.root_fits::<N>()
        &&& <Vec1<N> as Dot<N>>::dot_fits(v.num, v.num)
        &&& fits::<N>(v.den * v.den)
    }

    open spec fn is_sqnorm(v: QVec1Model, r: Ratio<N>) -> bool {
        r@ == (RatioModel { num: v.num.dot(v.num), den: v.den * v.den })
    }

    open spec fn is_norm(v: QVec1Model, r: Ratio<N>) -> bool {
        r@ == (RatioModel { num: v.root(N::precision()), den: N::precision() * v.den })
    }

    open spec fn normalized_fits(v: QVec1Model) -> bool {
        v.root_fits::<N>()
    }

    open spec fn normalized_model(v: QVec1Model) -> QVec1Model {
        v.normalized(N::precision())
    }

    fn sqnorm(&self) -> (r: Ratio<N>) {
        Ratio { num: self.num.dot(&self.num), den: self.den.times(self.den) }
    }

    fn norm(&self) -> (r: Ratio<N>) {
        let s = N::precision_unit();
        let t = self.num.scaled(s);
        proof {
            lemma_square_nonneg(t@.x);
        }
        Ratio { num: t.dot(&t).sqrt(), den: s.times(self.den) }
    }

    fn normalized(&self) -> (r: Self) {
        let mut res = *self;
        let _ = res.normalize();
        res
    }

    fn normalize(&mut self) -> (r: Ratio<N>) {
        let s = N::precision_unit();
        let t = self.num.scaled(s);
        proof {
            lemma_square_nonneg(t@.x);
        }
        let n = t.dot(&t).sqrt();
        let r = Ratio { num: n, den: s.times(self.den) };
        let z = N::zero();
        proof {
            z.lemma_val();
        }
        if !n.same(z) {
            self.num = t;
            self.den = n;
        }
        r
    }
}

/// The normalized form of a vector of 1 component of fractions that is
/// not zero, with roots of precision `s`: it is the vector scaled by a
/// positive factor, for its numerator is that of the vector enlarged by `s`
/// and its denominator is positive; and its norm is at least one and less
/// than one and one part in its denominator, which is at least `s`.
pub proof fn lemma_normalized_fraction1(v: QVec1Model, s: int)
    requires
        s >= 1,
        v.num != Vec1::<int>::origin(),
    ensures
        v.normalized(s).num == v.num.scale(s),
        v.normalized(s).den >= s,
        v.normalized(s).den * v.normalized(s).den <= v.normalized(s).num.dot(v.normalized(s).num),
        v.normalized(s).num.dot(v.normalized(s).num) < (v.normalized(s).den + 1) * (
        v.normalized(s).den + 1),
{
    let t = v.enlarged(s);
    let d = v.num.dot(v.num);
    let n = v.root(s);
    lemma_square_nonneg(v.num.x);
    lemma_square_zero(v.num.x);
    lemma_scaled_square(v.num.x, s);
    assert(t.dot(t) == d * (s * s));
    lemma_scaled_sum(d, s);
    lemma_floor_sqrt(t.dot(t));
    if n < s {
        lemma_square_monotone(n, s);
    }
}

/// The norm of the normalized form of a vector of 1 component of fractions
/// that is not zero, with roots of precision `s`: as the type gives it, a
/// fraction with the denominator `s` times that of the normalized form, it
/// is at least one and less than one and one part in the denominator of
/// the normalized form, which is at least `s`.
pub proof fn lemma_norm_normalized_fraction1(v: QVec1Model, s: int)
    requires
        s >= 1,
        v.num != Vec1::<int>::origin(),
    ensures
        v.normalized(s).den >= s,
        s * v.normalized(s).den <= v.normalized(s).root(s),
        v.normalized(s).root(s) < s * v.normalized(s).den + s,
{
    let u = v.normalized(s);
    let q = u.num.dot(u.num);
    let t = u.enlarged(s);
    lemma_normalized_fraction1(v, s);
    lemma_scaled_square(u.num.x, s);
    assert(t.dot(t) == q * (s * s));
    lemma_scale_bounds(u.den, q, s);
    lemma_floor_sqrt_between(t.dot(t), s * u.den, s * u.den + s);
}

impl QVec1Model {
    /// The vector of integers `num` as a vector of fractions.
    pub open spec fn whole(num: Vec1<int>) -> Self {
        QVec1Model { num, den: 1 }
    }
}

impl<N: Algebraic> Basis for QVec1<N> {
    open spec fn canonical_basis_seq() -> Seq<Self> {
        seq![
            QVec1 { num: Vec1 { x: N::of(1) }, den: N::of(1) },
        ]
    }

    open spec fn orthonormal_subspace_basis_fits(v: QVec1Model) -> bool {
        true
    }

    open spec fn orthonormal_subspace_basis_model(v: QVec1Model) -> Seq<QVec1Model> {
        Seq::empty()
    }

    fn canonical_basis_list() -> (r: Vec<Self>) {
        let z = N::zero();
        let one = N::one();
        proof {
            z.lemma_val();
            one.lemma_val();
        }
        let mut res: Vec<Self> = Vec::new();
        res.push(QVec1 { num: Vec1 { x: one }, den: one });
        assert(res@ =~= Self::canonical_basis_seq());
        res
    }

    fn orthonormal_subspace_basis_list(&self) -> (r: Vec<Self>) {
        let mut res: Vec<Self> = Vec::new();
        res
    }
}

/// A vector of 2 components of fractions over a common denominator: `num`
/// divided by `den`, which is positive.
#[derive(Clone, Copy, Debug, PartialEq, Eq)]
pub struct QVec2<N> {
    pub num: Vec2<N>,
    pub den: N,
}

/// The mathematical model of a vector of 2 components of fractions.
pub struct QVec2Model {
    pub num: Vec2<int>,
    pub den: int,
}

impl<N: Scalar> View for QVec2<N> {
    type V = QVec2Model;

    open spec fn view(&self) -> QVec2Model {
        QVec2Model { num: self.num@, den: self.den.val() }
    }
}

impl QVec2Model {
    /// The numerator enlarged by `s`.
    pub open spec fn enlarged(self, s: int) -> Vec2<int> {
        self.num.scale(s)
    }

    /// The norm of the numerator enlarged by `s`, rounded down.
    pub open spec fn root(self, s: int) -> int {
        floor_sqrt(self.enlarged(s).dot(self.enlarged(s)))
    }

    /// The vector scaled by a positive factor to norm one, with roots of
    /// precision `s`: the numerator enlarged by `s`, over its norm rounded
    /// down. The zero vector is left as it is.
    pub open spec fn normalized(self, s: int) -> Self {
        if self.root(s) == 0 {
            self
        } else {
            QVec2Model { num: self.enlarged(s), den: self.root(s) }
        }
    }

    /// Whether every step to the norm of the vector is representable in `N`.
    pub open spec fn root_fits<N: Algebraic>(self) -> bool {
        &&& self.den >= 1
        &&& self.enlarged(N::precision()).fits::<N>()
        &&& <Vec2<N> as Dot<N>>::dot_fits(
            self.enlarged(N::precision()),
            self.enlarged(N::precision()),
        )
        &&& fits::<N>(N::precision() * self.den)
    }
}

impl<N: Scalar> QVec2<N> {
    /// The vector `num` divided by `den`.
    pub fn new(num: Vec2<N>, den: N) -> (r: Self)
        ensures
            r == (QVec2 { num, den }),
    {
        QVec2 { num, den }
    }

    /// A vector of integers as a vector of fractions, over the denominator one.
    pub fn whole(num: Vec2<N>) -> (r: Self)
        ensures
            r@ == (QVec2Model { num: num@, den: 1 }),
    {
        let one = N::one();
        proof {
            one.lemma_val();
        }
        QVec2 { num, den: one }
    }
}

impl<N: Algebraic> Norm<Ratio<N>> for QVec2<N> {
    open spec fn norm_fits(v: QVec2Model) -> bool {
        &&& v.root_fits::<N>()
        &&& <Vec2<N> as Dot<N>>::dot_fits(v.num, v.num)
        &&& fits::<N>(v.den * v.den)
    }

    open spec fn is_sqnorm(v: QVec2Model, r: Ratio<N>) -> bool {
        r@ == (RatioModel { num: v.num.dot(v.num), den: v.den * v.den })
    }

    open spec fn is_norm(v: QVec2Model, r: Ratio<N>) -> bool {
        r@ == (RatioModel { num: v.root(N::precision()), den: N::precision() * v.den })
    }

    open spec fn normalized_fits(v: QVec2Model) -> bool {
        v.root_fits::<N>()
    }

    open spec fn normalized_model(v: QVec2Model) -> QVec2Model {
        v.normalized(N::precision())
    }

    fn sqnorm(&self) -> (r: Ratio<N>) {
        Ratio { num: self.num.dot(&self.num), den: self.den.times(self.den) }
    }

    fn norm(&self) -> (r: Ratio<N>) {
        let s = N::precision_unit();
        let t = self.num.scaled(s);
        proof {
            lemma_square_nonneg(t@.x);
            lemma_square_nonneg(t@.y);
        }
        Ratio { num: t.dot(&t).sqrt(), den: s.times(self.den) }
    }

    fn normalized(&self) -> (r: Self) {
        let mut res = *self;
        let _ = res.normalize();
        res
    }

    fn normalize(&mut self) -> (r: Ratio<N>) {
        let s = N::precision_unit();
        let t = self.num.scaled(s);
        proof {
            lemma_square_nonneg(t@.x);
            lemma_square_nonneg(t@.y);
        }
        let n = t.dot(&t).sqrt();
        let r = Ratio { num: n, den: s.times(self.den) };
        let z = N::zero();
        proof {
            z.lemma_val();
        }
        if !n.same(z) {
            self.num = t;
            self.den = n;
        }
        r
    }
}

/// The normalized form of a vector of 2 components of fractions that is
/// not zero, with roots of precision `s`: it is the vector scaled by a
/// positive factor, for its numerator is that of the vector enlarged by `s`
/// and its denominator is positive; and its norm is at least one and less
/// than one and one part in its denominator, which is at least `s`.
pub proof fn lemma_normalized_fraction2(v: QVec2Model, s: int)
    requires
        s >= 1,
        v.num != Vec2::<int>::origin(),
    ensures
        v.normalized(s).num == v.num.scale(s),
        v.normalized(s).den >= s,
        v.normalized(s).den * v.normalized(s).den <= v.normalized(s).num.dot(v.normalized(s).num),
        v.normalized(s).num.dot(v.normalized(s).num) < (v.normalized(s).den + 1) * (
        v.normalized(s).den + 1),
{
    let t = v.enlarged(s);
    let d = v.num.dot(v.num);
    let n = v.root(s);
    lemma_square_nonneg(v.num.x);
    lemma_square_zero(v.num.x);
    lemma_scaled_square(v.num.x, s);
    lemma_square_nonneg(v.num.y);
    lemma_square_zero(v.num.y);
    lemma_scaled_square(v.num.y, s);
    lemma_dist_left2(v.num.x * v.num.x, v.num.y * v.num.y, s * s);
    assert(t.dot(t) == d * (s * s));
    lemma_scaled_sum(d, s);
    lemma_floor_sqrt(t.dot(t));
    if n < s {
        lemma_square_monotone(n, s);
    }
}

/// The norm of the normalized form of a vector of 2 components of fractions
/// that is not zero, with roots of precision `s`: as the type gives it, a
/// fraction with the denominator `s` times that of the normalized form, it
/// is at least one and less than one and one part in the denominator of
/// the normalized form, which is at least `s`.
pub proof fn lemma_norm_normalized_fraction2(v: QVec2Model, s: int)
    requires
        s >= 1,
        v.num != Vec2::<int>::origin(),
    ensures
        v.normalized(s).den >= s,
        s * v.normalized(s).den <= v.normalized(s).root(s),
        v.normalized(s).root(s) < s * v.normalized(s).den + s,
{
    let u = v.normalized(s);
    let q = u.num.dot(u.num);
    let t = u.enlarged(s);
    lemma_normalized_fraction2(v, s);
    lemma_scaled_square(u.num.x, s);
    lemma_scaled_square(u.num.y, s);
    lemma_dist_left2(u.num.x * u.num.x, u.num.y * u.num.y, s * s);
    assert(t.dot(t) == q * (s * s));
    lemma_scale_bounds(u.den, q, s);
    lemma_floor_sqrt_between(t.dot(t), s * u.den, s * u.den + s);
}

impl QVec2Model {
    /// The vector of integers `num` as a vector of fractions.
    pub open spec fn whole(num: Vec2<int>) -> Self {
        QVec2Model { num, den: 1 }
    }
}

impl<N: Algebraic> Basis for QVec2<N> {
    open spec fn canonical_basis_seq() -> Seq<Self> {
        seq![
            QVec2 { num: Vec2 { x: N::of(1), y: N::of(0) }, den: N::of(1) },
            QVec2 { num: Vec2 { x: N::of(0), y: N::of(1) }, den: N::of(1) },
        ]
    }

    open spec fn orthonormal_subspace_basis_fits(v: QVec2Model) -> bool {
        &&& fits::<N>(-v.num.y)
        &&& QVec2Model::whole(v.num.perp()).root_fits::<N>()
    }

    open spec fn orthonormal_subspace_basis_model(v: QVec2Model) -> Seq<QVec2Model> {
        seq![
            QVec2Model::whole(v.num.perp()).normalized(N::precision()),
        ]
    }

    fn canonical_basis_list() -> (r: Vec<Self>) {
        let z = N::zero();
        let one = N::one();
        proof {
            z.lemma_val();
            one.lemma_val();
        }
        let mut res: Vec<Self> = Vec::new();
        res.push(QVec2 { num: Vec2 { x: one, y: z }, den: one });
        res.push(QVec2 { num: Vec2 { x: z, y: one }, den: one });
        assert(res@ =~= Self::canonical_basis_seq());
        res
    }

    fn orthonormal_subspace_basis_list(&self) -> (r: Vec<Self>) {
        let mut res: Vec<Self> = Vec::new();
        let v = self.num;
        let p = Vec2 { x: v.y.neg(), y: v.x };
        res.push(<QVec2<N> as Norm<Ratio<N>>>::normalized(&QVec2::whole(p)));
        res
    }
}

/// The inner product of vectors of 2 components that were multiplied by `s`
/// and by `t`.
pub proof fn lemma_scaled_dot2(a: Vec2<int>, b: Vec2<int>, s: int, t: int)
    ensures
        a.scale(s).dot(b.scale(t)) == a.dot(b) * (s * t),
        a.scale(s).dot(b) == a.dot(b) * s,
{
    lemma_scaled_pair(a.x, s, b.x, t);
    lemma_scaled_pair(a.y, s, b.y, t);
    lemma_dist_left2(a.x * b.x, a.y * b.y, s * t);
    lemma_dist_left2(a.x * b.x, a.y * b.y, s);
}

/// The basis that a vector of 2 components of fractions, not zero, gives for
/// its orthogonal subspace: 1 vector, each orthogonal to the vector, with a positive denominator that is at least the
/// precision, and with a norm that is at least one and less than one and
/// one part in its denominator.
pub proof fn lemma_orthonormal_fraction_basis2<N: Algebraic>(v: QVec2Model)
    requires
        v.num != Vec2::<int>::origin(),
    ensures
        <QVec2<N> as Basis>::orthonormal_subspace_basis_model(v).len() == 1,
        forall|i: int|
            0 <= i < 1 ==> {
                let u = #[trigger] <QVec2<N> as Basis>::orthonormal_subspace_basis_model(v)[i];
                &&& u.num.dot(v.num) == 0
                &&& u.den >= N::precision()
                &&& u.den * u.den <= u.num.dot(u.num)
                &&& u.num.dot(u.num) < (u.den + 1) * (u.den + 1)
            },
{
    let s = N::precision();
    N::lemma_precision();
    lemma_subspace_directions2(v.num);
    let w = v.num;
    let d0 = w.perp();
    assert(d0 != Vec2::<int>::origin());
    lemma_normalized_fraction2(QVec2Model::whole(d0), s);
    lemma_scaled_dot2(d0, w, s, 1);
}

/// A vector of 3 components of fractions over a common denominator: `num`
/// divided by `den`, which is positive.
#[derive(Clone, Copy, Debug, PartialEq, Eq)]
pub struct QVec3<N> {
    pub num: Vec3<N>,
    pub den: N,
}

/// The mathematical model of a vector of 3 components of fractions.
pub struct QVec3Model {
    pub num: Vec3<int>,
    pub den: int,
}

impl<N: Scalar> View for QVec3<N> {
    type V = QVec3Model;

    open spec fn view(&self) -> QVec3Model {
        QVec3Model { num: self.num@, den: self.den.val() }
    }
}

impl QVec3Model {
    /// The numerator enlarged by `s`.
    pub open spec fn enlarged(self, s: int) -> Vec3<int> {
        self.num.scale(s)
    }

    /// The norm of the numerator enlarged by `s`, rounded down.
    pub open spec fn root(self, s: int) -> int {
        floor_sqrt(self.enlarged(s).dot(self.enlarged(s)))
    }

    /// The vector scaled by a positive factor to norm one, with roots of
    /// precision `s`: the numerator enlarged by `s`, over its norm rounded
    /// down. The zero vector is left as it is.
    pub open spec fn normalized(self, s: int) -> Self {
        if self.root(s) == 0 {
            self
        } else {
            QVec3Model { num: self.enlarged(s), den: self.root(s) }
        }
    }

    /// Whether every step to the norm of the vector is representable in `N`.
    pub open spec fn root_fits<N: Algebraic>(self) -> bool {
        &&& self.den >= 1
        &&& self.enlarged(N::precision()).fits::<N>()
        &&& <Vec3<N> as Dot<N>>::dot_fits(
            self.enlarged(N::precision()),
            self.enlarged(N::precision()),
        )
        &&& fits::<N>(N::precision() * self.den)
    }
}

impl<N: Scalar> QVec3<N> {
    /// The vector `num` divided by `den`.
    pub fn new(num: Vec3<N>, den: N) -> (r: Self)
        ensures
            r == (QVec3 { num, den }),
    {
        QVec3 { num, den }
    }

    /// A vector of integers as a vector of fractions, over the denominator one.
    pub fn whole(num: Vec3<N>) -> (r: Self)
        ensures
            r@ == (QVec3Model { num: num@, den: 1 }),
    {
        let one = N::one();
        proof {
            one.lemma_val();
        }
        QVec3 { num, den: one }
    }
}

impl<N: Algebraic> Norm<Ratio<N>> for QVec3<N> {
    open spec fn norm_fits(v: QVec3Model) -> bool {
        &&& v.root_fits::<N>()
        &&& <Vec3<N> as Dot<N>>::dot_fits(v.num, v.num)
        &&& fits::<N>(v.den * v.den)
    }

    open spec fn is_sqnorm(v: QVec3Model, r: Ratio<N>) -> bool {
        r@ == (RatioModel { num: v.num.dot(v.num), den: v.den * v.den })
    }

    open spec fn is_norm(v: QVec3Model, r: Ratio<N>) -> bool {
        r@ == (RatioModel { num: v.root(N::precision()), den: N::precision() * v.den })
    }

    open spec fn normalized_fits(v: QVec3Model) -> bool {
        v.root_fits::<N>()
    }

    open spec fn normalized_model(v: QVec3Model) -> QVec3Model {
        v.normalized(N::precision())
    }

    fn sqnorm(&self) -> (r: Ratio<N>) {
        Ratio { num: self.num.dot(&self.num), den: self.den.times(self.den) }
    }

    fn norm(&self) -> (r: Ratio<N>) {
        let s = N::precision_unit();
        let t = self.num.scaled(s);
        proof {
            lemma_square_nonneg(t@.x);
            lemma_square_nonneg(t@.y);
            lemma_square_nonneg(t@.z);
        }
        Ratio { num: t.dot(&t).sqrt(), den: s.times(self.den) }
    }

    fn normalized(&self) -> (r: Self) {
        let mut res = *self;
        let _ = res.normalize();
        res
    }

    fn normalize(&mut self) -> (r: Ratio<N>) {
        let s = N::precision_unit();
        let t = self.num.scaled(s);
        proof {
            lemma_square_nonneg(t@.x);
            lemma_square_nonneg(t@.y);
            lemma_square_nonneg(t@.z);
        }
        let n = t.dot(&t).sqrt();
        let r = Ratio { num: n, den: s.times(self.den) };
        let z = N::zero();
        proof {
            z.lemma_val();
        }
        if !n.same(z) {
            self.num = t;
            self.den = n;
        }
        r
    }
}

/// The normalized form of a vector of 3 components of fractions that is
/// not zero, with roots of precision `s`: it is the vector scaled by a
/// positive factor, for its numerator is that of the vector enlarged by `s`
/// and its denominator is positive; and its norm is at least one and less
/// than one and one part in its denominator, which is at least `s`.
pub proof fn lemma_normalized_fraction3(v: QVec3Model, s: int)
    requires
        s >= 1,
        v.num != Vec3::<int>::origin(),
    ensures
        v.normalized(s).num == v.num.scale(s),
        v.normalized(s).den >= s,
        v.normalized(s).den * v.normalized(s).den <= v.normalized(s).num.dot(v.normalized(s).num),
        v.normalized(s).num.dot(v.normalized(s).num) < (v.normalized(s).den + 1) * (
        v.normalized(s).den + 1),
{
    let t = v.enlarged(s);
    let d = v.num.dot(v.num);
    let n = v.root(s);
    lemma_square_nonneg(v.num.x);
    lemma_square_zero(v.num.x);
    lemma_scaled_square(v.num.x, s);
    lemma_square_nonneg(v.num.y);
    lemma_square_zero(v.num.y);
    lemma_scaled_square(v.num.y, s);
    lemma_square_nonneg(v.num.z);
    lemma_square_zero(v.num.z);
    lemma_scaled_square(v.num.z, s);
    lemma_dist_left3(v.num.x * v.num.x, v.num.y * v.num.y, v.num.z * v.num.z, s * s);
    assert(t.dot(t) == d * (s * s));
    lemma_scaled_sum(d, s);
    lemma_floor_sqrt(t.dot(t));
    if n < s {
        lemma_square_monotone(n, s);
    }
}

/// The norm of the normalized form of a vector of 3 components of fractions
/// that is not zero, with roots of precision `s`: as the type gives it, a
/// fraction with the denominator `s` times that of the normalized form, it
/// is at least one and less than one and one part in the denominator of
/// the normalized form, which is at least `s`.
pub proof fn lemma_norm_normalized_fraction3(v: QVec3Model, s: int)
    requires
        s >= 1,
        v.num != Vec3::<int>::origin(),
    ensures
        v.normalized(s).den >= s,
        s * v.normalized(s).den <= v.normalized(s).root(s),
        v.normalized(s).root(s) < s * v.normalized(s).den + s,
{
    let u = v.normalized(s);
    let q = u.num.dot(u.num);
    let t = u.enlarged(s);
    lemma_normalized_fraction3(v, s);
    lemma_scaled_square(u.num.x, s);
    lemma_scaled_square(u.num.y, s);
    lemma_scaled_square(u.num.z, s);
    lemma_dist_left3(u.num.x * u.num.x, u.num.y * u.num.y, u.num.z * u.num.z, s * s);
    assert(t.dot(t) == q * (s * s));
    lemma_scale_bounds(u.den, q, s);
    lemma_floor_sqrt_between(t.dot(t), s * u.den, s * u.den + s);
}

impl QVec3Model {
    /// The vector of integers `num` as a vector of fractions.
    pub open spec fn whole(num: Vec3<int>) -> Self {
        QVec3Model { num, den: 1 }
    }
}

impl<N: Algebraic> Basis for QVec3<N> {
    open spec fn canonical_basis_seq() -> Seq<Self> {
        seq![
            QVec3 { num: Vec3 { x: N::of(1), y: N::of(0), z: N::of(0) }, den: N::of(1) },
            QVec3 { num: Vec3 { x: N::of(0), y: N::of(1), z: N::of(0) }, den: N::of(1) },
            QVec3 { num: Vec3 { x: N::of(0), y: N::of(0), z: N::of(1) }, den: N::of(1) },
        ]
    }

    open spec fn orthonormal_subspace_basis_fits(v: QVec3Model) -> bool {
        &&& fits::<N>(abs_int(v.num.x))
        &&& fits::<N>(abs_int(v.num.y))
        &&& abs_int(v.num.x) > abs_int(v.num.y) ==> fits::<N>(-v.num.x)
        &&& abs_int(v.num.x) <= abs_int(v.num.y) ==> fits::<N>(-v.num.z)
        &&& <Vec3<N> as Cross<Vec3<N>>>::cross_fits(v.num.any_orthogonal(), v.num)
        &&& QVec3Model::whole(v.num.any_orthogonal().cross(v.num)).root_fits::<N>()
        &&& QVec3Model::whole(v.num.any_orthogonal()).root_fits::<N>()
    }

    open spec fn orthonormal_subspace_basis_model(v: QVec3Model) -> Seq<QVec3Model> {
        seq![
            QVec3Model::whole(v.num.any_orthogonal().cross(v.num)).normalized(N::precision()),
            QVec3Model::whole(v.num.any_orthogonal()).normalized(N::precision()),
        ]
    }

    fn canonical_basis_list() -> (r: Vec<Self>) {
        let z = N::zero();
        let one = N::one();
        proof {
            z.lemma_val();
            one.lemma_val();
        }
        let mut res: Vec<Self> = Vec::new();
        res.push(QVec3 { num: Vec3 { x: one, y: z, z: z }, den: one });
        res.push(QVec3 { num: Vec3 { x: z, y: one, z: z }, den: one });
        res.push(QVec3 { num: Vec3 { x: z, y: z, z: one }, den: one });
        assert(res@ =~= Self::canonical_basis_seq());
        res
    }

    fn orthonormal_subspace_basis_list(&self) -> (r: Vec<Self>) {
        let mut res: Vec<Self> = Vec::new();
        let v = self.num;
        let z = N::zero();
        proof {
            z.lemma_val();
        }
        let a = if v.y.abs().lt(v.x.abs()) {
            Vec3 { x: v.z, y: z, z: v.x.neg() }
        } else {
            Vec3 { x: z, y: v.z.neg(), z: v.y }
        };
        let c: Vec3<N> = a.cross(&v);
        res.push(<QVec3<N> as Norm<Ratio<N>>>::normalized(&QVec3::whole(c)));
        res.push(<QVec3<N> as Norm<Ratio<N>>>::normalized(&QVec3::whole(a)));
        res
    }
}

/// The inner product of vectors of 3 components that were multiplied by `s`
/// and by `t`.
pub proof fn lemma_scaled_dot3(a: Vec3<int>, b: Vec3<int>, s: int, t: int)
    ensures
        a.scale(s).dot(b.scale(t)) == a.dot(b) * (s * t),
        a.scale(s).dot(b) == a.dot(b) * s,
{
    lemma_scaled_pair(a.x, s, b.x, t);
    lemma_scaled_pair(a.y, s, b.y, t);
    lemma_scaled_pair(a.z, s, b.z, t);
    lemma_dist_left3(a.x * b.x, a.y * b.y, a.z * b.z, s * t);
    lemma_dist_left3(a.x * b.x, a.y * b.y, a.z * b.z, s);
}

/// The basis that a vector of 3 components of fractions, not zero, gives for
/// its orthogonal subspace: 2 vectors, each orthogonal to the vector and
/// to the others, with a positive denominator that is at least the
/// precision, and with a norm that is at least one and less than one and
/// one part in its denominator.
pub proof fn lemma_orthonormal_fraction_basis3<N: Algebraic>(v: QVec3Model)
    requires
        v.num != Vec3::<int>::origin(),
    ensures
        <QVec3<N> as Basis>::orthonormal_subspace_basis_model(v).len() == 2,
        forall|i: int|
            0 <= i < 2 ==> {
                let u = #[trigger] <QVec3<N> as Basis>::orthonormal_subspace_basis_model(v)[i];
                &&& u.num.dot(v.num) == 0
                &&& u.den >= N::precision()
                &&& u.den * u.den <= u.num.dot(u.num)
                &&& u.num.dot(u.num) < (u.den + 1) * (u.den + 1)
            },
        <QVec3<N> as Basis>::orthonormal_subspace_basis_model(v)[0].num.dot(<QVec3<N> as Basis>::orthonormal_subspace_basis_model(v)[1].num) == 0,
{
    let s = N::precision();
    N::lemma_precision();
    lemma_subspace_directions3(v.num);
    let w = v.num;
    let d0 = w.any_orthogonal().cross(w);
    let d1 = w.any_orthogonal();
    lemma_square_nonneg(w.x);
    lemma_square_nonneg(w.y);
    lemma_square_nonneg(w.z);
    lemma_square_zero(w.x);
    lemma_square_zero(w.y);
    lemma_square_zero(w.z);
    lemma_pairs(w.x, w.x);
    lemma_pairs(w.z, w.z);
    lemma_mul_zero(0, w.x);
    lemma_mul_zero(0, w.y);
    lemma_mul_zero(0, w.z);
    assert(d0 != Vec3::<int>::origin());
    lemma_normalized_fraction3(QVec3Model::whole(d0), s);
    lemma_scaled_dot3(d0, w, s, 1);
    assert(d1 != Vec3::<int>::origin());
    lemma_normalized_fraction3(QVec3Model::whole(d1), s);
    lemma_scaled_dot3(d1, w, s, 1);
    lemma_scaled_dot3(d0, d1, s, s);
}

/// A vector of 4 components of fractions over a common denominator: `num`
/// divided by `den`, which is positive.
#[derive(Clone, Copy, Debug, PartialEq, Eq)]
pub struct QVec4<N> {
    pub num: Vec4<N>,
    pub den: N,
}

/// The mathematical model of a vector of 4 components of fractions.
pub struct QVec4Model {
    pub num: Vec4<int>,
    pub den: int,
}

impl<N: Scalar> View for QVec4<N> {
    type V = QVec4Model;

    open spec fn view(&self) -> QVec4Model {
        QVec4Model { num: self.num@, den: self.den.val() }
    }
}

impl QVec4Model {
    /// The numerator enlarged by `s`.
    pub open spec fn enlarged(self, s: int) -> Vec4<int> {
        self.num.scale(s)
    }

    /// The norm of the numerator enlarged by `s`, rounded down.
    pub open spec fn root(self, s: int) -> int {
        floor_sqrt(self.enlarged(s).dot(self.enlarged(s)))
    }

    /// The vector scaled by a positive factor to norm one, with roots of
    /// precision `s`: the numerator enlarged by `s`, over its norm rounded
    /// down. The zero vector is left as it is.
    pub open spec fn normalized(self, s: int) -> Self {
        if self.root(s) == 0 {
            self
        } else {
            QVec4Model { num: self.enlarged(s), den: self.root(s) }
        }
    }

    /// Whether every step to the norm of the vector is representable in `N`.
    pub open spec fn root_fits<N: Algebraic>(self) -> bool {
        &&& self.den >= 1
        &&& self.enlarged(N::precision()).fits::<N>()
        &&& <Vec4<N> as Dot<N>>::dot_fits(
            self.enlarged(N::precision()),
            self.enlarged(N::precision()),
        )
        &&& fits::<N>(N::precision() * self.den)
    }
}

impl<N: Scalar> QVec4<N> {
    /// The vector `num` divided by `den`.
    pub fn new(num: Vec4<N>, den: N) -> (r: Self)
        ensures
            r == (QVec4 { num, den }),
    {
        QVec4 { num, den }
    }

    /// A vector of integers as a vector of fractions, over the denominator one.
    pub fn whole(num: Vec4<N>) -> (r: Self)
        ensures
            r@ == (QVec4Model { num: num@, den: 1 }),
    {
        let one = N::one();
        proof {
            one.lemma_val();
        }
        QVec4 { num, den: one }
    }
}

impl<N: Algebraic> Norm<Ratio<N>> for QVec4<N> {
    open spec fn norm_fits(v: QVec4Model) -> bool {
        &&& v.root_fits::<N>()
        &&& <Vec4<N> as Dot<N>>::dot_fits(v.num, v.num)
        &&& fits::<N>(v.den * v.den)
    }

    open spec fn is_sqnorm(v: QVec4Model, r: Ratio<N>) -> bool {
        r@ == (RatioModel { num: v.num.dot(v.num), den: v.den * v.den })
    }

    open spec fn is_norm(v: QVec4Model, r: Ratio<N>) -> bool {
        r@ == (RatioModel { num: v.root(N::precision()), den: N::precision() * v.den })
    }

    open spec fn normalized_fits(v: QVec4Model) -> bool {
        v.root_fits::<N>()
    }

    open spec fn normalized_model(v: QVec4Model) -> QVec4Model {
        v.normalized(N::precision())
    }

    fn sqnorm(&self) -> (r: Ratio<N>) {
        Ratio { num: self.num.dot(&self.num), den: self.den.times(self.den) }
    }

    fn norm(&self) -> (r: Ratio<N>) {
        let s = N::precision_unit();
        let t = self.num.scaled(s);
        proof {
            lemma_square_nonneg(t@.x);
            lemma_square_nonneg(t@.y);
            lemma_square_nonneg(t@.z);
            lemma_square_nonneg(t@.w);
        }
        Ratio { num: t.dot(&t).sqrt(), den: s.times(self.den) }
    }

    fn normalized(&self) -> (r: Self) {
        let mut res = *self;
        let _ = res.normalize();
        res
    }

    fn normalize(&mut self) -> (r: Ratio<N>) {
        let s = N::precision_unit();
        let t = self.num.scaled(s);
        proof {
            lemma_square_nonneg(t@.x);
            lemma_square_nonneg(t@.y);
            lemma_square_nonneg(t@.z);
            lemma_square_nonneg(t@.w);
        }
        let n = t.dot(&t).sqrt();
        let r = Ratio { num: n, den: s.times(self.den) };
        let z = N::zero();
        proof {
            z.lemma_val();
        }
        if !n.same(z) {
            self.num = t;
            self.den = n;
        }
        r
    }
}

/// The normalized form of a vector of 4 components of fractions that is
/// not zero, with roots of precision `s`: it is the vector scaled by a
/// positive factor, for its numerator is that of the vector enlarged by `s`
/// and its denominator is positive; and its norm is at least one and less
/// than one and one part in its denominator, which is at least `s`.
pub proof fn lemma_normalized_fraction4(v: QVec4Model, s: int)
    requires
        s >= 1,
        v.num != Vec4::<int>::origin(),
    ensures
        v.normalized(s).num == v.num.scale(s),
        v.normalized(s).den >= s,
        v.normalized(s).den * v.normalized(s).den <= v.normalized(s).num.dot(v.normalized(s).num),
        v.normalized(s).num.dot(v.normalized(s).num) < (v.normalized(s).den + 1) * (
        v.normalized(s).den + 1),
{
    let t = v.enlarged(s);
    let d = v.num.dot(v.num);
    let n = v.root(s);
    lemma_square_nonneg(v.num.x);
    lemma_square_zero(v.num.x);
    lemma_scaled_square(v.num.x, s);
    lemma_square_nonneg(v.num.y);
    lemma_square_zero(v.num.y);
    lemma_scaled_square(v.num.y, s);
    lemma_square_nonneg(v.num.z);
    lemma_square_zero(v.num.z);
    lemma_scaled_square(v.num.z, s);
    lemma_square_nonneg(v.num.w);
    lemma_square_zero(v.num.w);
    lemma_scaled_square(v.num.w, s);
    lemma_dist_left4(v.num.x * v.num.x, v.num.y * v.num.y, v.num.z * v.num.z, v.num.w * v.num.w, s
        * s);
    assert(t.dot(t) == d * (s * s));
    lemma_scaled_sum(d, s);
    lemma_floor_sqrt(t.dot(t));
    if n < s {
        lemma_square_monotone(n, s);
    }
}

/// The norm of the normalized form of a vector of 4 components of fractions
/// that is not zero, with roots of precision `s`: as the type gives it, a
/// fraction with the denominator `s` times that of the normalized form, it
/// is at least one and less than one and one part in the denominator of
/// the normalized form, which is at least `s`.
pub proof fn lemma_norm_normalized_fraction4(v: QVec4Model, s: int)
    requires
        s >= 1,
        v.num != Vec4::<int>::origin(),
    ensures
        v.normalized(s).den >= s,
        s * v.normalized(s).den <= v.normalized(s).root(s),
        v.normalized(s).root(s) < s * v.normalized(s).den + s,
{
    let u = v.normalized(s);
    let q = u.num.dot(u.num);
    let t = u.enlarged(s);
    lemma_normalized_fraction4(v, s);
    lemma_scaled_square(u.num.x, s);
    lemma_scaled_square(u.num.y, s);
    lemma_scaled_square(u.num.z, s);
    lemma_scaled_square(u.num.w, s);
    lemma_dist_left4(u.num.x * u.num.x, u.num.y * u.num.y, u.num.z * u.num.z, u.num.w * u.num.w, s
        * s);
    assert(t.dot(t) == q * (s * s));
    lemma_scale_bounds(u.den, q, s);
    lemma_floor_sqrt_between(t.dot(t), s * u.den, s * u.den + s);
}

impl QVec4Model {
    /// The vector of integers `num` as a vector of fractions.
    pub open spec fn whole(num: Vec4<int>) -> Self {
        QVec4Model { num, den: 1 }
    }
}

impl<N: Algebraic> Basis for QVec4<N> {
    open spec fn canonical_basis_seq() -> Seq<Self> {
        seq![
            QVec4 { num: Vec4 { x: N::of(1), y: N::of(0), z: N::of(0), w: N::of(0) },
                den: N::of(1) },
            QVec4 { num: Vec4 { x: N::of(0), y: N::of(1), z: N::of(0), w: N::of(0) },
                den: N::of(1) },
            QVec4 { num: Vec4 { x: N::of(0), y: N::of(0), z: N::of(1), w: N::of(0) },
                den: N::of(1) },
            QVec4 { num: Vec4 { x: N::of(0), y: N::of(0), z: N::of(0), w: N::of(1) },
                den: N::of(1) },
        ]
    }

    open spec fn orthonormal_subspace_basis_fits(v: QVec4Model) -> bool {
        &&& fits::<N>(-v.num.y)
        &&& fits::<N>(-v.num.z)
        &&& fits::<N>(-v.num.w)
        &&& QVec4Model::whole(v.num.perp1()).root_fits::<N>()
        &&& QVec4Model::whole(v.num.perp2()).root_fits::<N>()
        &&& QVec4Model::whole(v.num.perp3()).root_fits::<N>()
    }

    open spec fn orthonormal_subspace_basis_model(v: QVec4Model) -> Seq<QVec4Model> {
        seq![
            QVec4Model::whole(v.num.perp1()).normalized(N::precision()),
            QVec4Model::whole(v.num.perp2()).normalized(N::precision()),
            QVec4Model::whole(v.num.perp3()).normalized(N::precision()),
        ]
    }

    fn canonical_basis_list() -> (r: Vec<Self>) {
        let z = N::zero();
        let one = N::one();
        proof {
            z.lemma_val();
            one.lemma_val();
        }
        let mut res: Vec<Self> = Vec::new();
        res.push(QVec4 { num: Vec4 { x: one, y: z, z: z, w: z }, den: one });
        res.push(QVec4 { num: Vec4 { x: z, y: one, z: z, w: z }, den: one });
        res.push(QVec4 { num: Vec4 { x: z, y: z, z: one, w: z }, den: one });
        res.push(QVec4 { num: Vec4 { x: z, y: z, z: z, w: one }, den: one });
        assert(res@ =~= Self::canonical_basis_seq());
        res
    }

    fn orthonormal_subspace_basis_list(&self) -> (r: Vec<Self>) {
        let mut res: Vec<Self> = Vec::new();
        let v = self.num;
        let ny = v.y.neg();
        let nz = v.z.neg();
        let nw = v.w.neg();
        let u1 = Vec4 { x: ny, y: v.x, z: nw, w: v.z };
        let u2 = Vec4 { x: nz, y: v.w, z: v.x, w: ny };
        let u3 = Vec4 { x: nw, y: nz, z: v.y, w: v.x };
        res.push(<QVec4<N> as Norm<Ratio<N>>>::normalized(&QVec4::whole(u1)));
        res.push(<QVec4<N> as Norm<Ratio<N>>>::normalized(&QVec4::whole(u2)));
        res.push(<QVec4<N> as Norm<Ratio<N>>>::normalized(&QVec4::whole(u3)));
        res
    }
}

/// The inner product of vectors of 4 components that were multiplied by `s`
/// and by `t`.
pub proof fn lemma_scaled_dot4(a: Vec4<int>, b: Vec4<int>, s: int, t: int)
    ensures
        a.scale(s).dot(b.scale(t)) == a.dot(b) * (s * t),
        a.scale(s).dot(b) == a.dot(b) * s,
{
    lemma_scaled_pair(a.x, s, b.x, t);
    lemma_scaled_pair(a.y, s, b.y, t);
    lemma_scaled_pair(a.z, s, b.z, t);
    lemma_scaled_pair(a.w, s, b.w, t);
    lemma_dist_left4(a.x * b.x, a.y * b.y, a.z * b.z, a.w * b.w, s * t);
    lemma_dist_left4(a.x * b.x, a.y * b.y, a.z * b.z, a.w * b.w, s);
}

/// The basis that a vector of 4 components of fractions, not zero, gives for
/// its orthogonal subspace: 3 vectors, each orthogonal to the vector and
/// to the others, with a positive denominator that is at least the
/// precision, and with a norm that is at least one and less than one and
/// one part in its denominator.
pub proof fn lemma_orthonormal_fraction_basis4<N: Algebraic>(v: QVec4Model)
    requires
        v.num != Vec4::<int>::origin(),
    ensures
        <QVec4<N> as Basis>::orthonormal_subspace_basis_model(v).len() == 3,
        forall|i: int|
            0 <= i < 3 ==> {
                let u = #[trigger] <QVec4<N> as Basis>::orthonormal_subspace_basis_model(v)[i];
                &&& u.num.dot(v.num) == 0
                &&& u.den >= N::precision()
                &&& u.den * u.den <= u.num.dot(u.num)
                &&& u.num.dot(u.num) < (u.den + 1) * (u.den + 1)
            },
        <QVec4<N> as Basis>::orthonormal_subspace_basis_model(v)[0].num.dot(<QVec4<N> as Basis>::orthonormal_subspace_basis_model(v)[1].num) == 0,
        <QVec4<N> as Basis>::orthonormal_subspace_basis_model(v)[0].num.dot(<QVec4<N> as Basis>::orthonormal_subspace_basis_model(v)[2].num) == 0,
        <QVec4<N> as Basis>::orthonormal_subspace_basis_model(v)[1].num.dot(<QVec4<N> as Basis>::orthonormal_subspace_basis_model(v)[2].num) == 0,
{
    let s = N::precision();
    N::lemma_precision();
    lemma_subspace_directions4(v.num);
    let w = v.num;
    let d0 = w.perp1();
    let d1 = w.perp2();
    let d2 = w.perp3();
    assert(d0 != Vec4::<int>::origin());
    lemma_normalized_fraction4(QVec4Model::whole(d0), s);
    lemma_scaled_dot4(d0, w, s, 1);
    assert(d1 != Vec4::<int>::origin());
    lemma_normalized_fraction4(QVec4Model::whole(d1), s);
    lemma_scaled_dot4(d1, w, s, 1);
    assert(d2 != Vec4::<int>::origin());
    lemma_normalized_fraction4(QVec4Model::whole(d2), s);
    lemma_scaled_dot4(d2, w, s, 1);
    lemma_scaled_dot4(d0, d1, s, s);
    lemma_scaled_dot4(d0, d2, s, s);
    lemma_scaled_dot4(d1, d2, s, s);
}

/// A square matrix of dimension 1 of fractions over a common denominator:
/// `num` divided by `den`, which is positive.
#[derive(Clone, Copy, Debug, PartialEq, Eq)]
pub struct QMat1<N> {
    pub num: Mat1<N>,
    pub den: N,
}

/// The mathematical model of a matrix of dimension 1 of fractions.
pub struct QMat1Model {
    pub num: Mat1<int>,
    pub den: int,
}

impl<N: Scalar> View for QMat1<N> {
    type V = QMat1Model;

    open spec fn view(&self) -> QMat1Model {
        QMat1Model { num: self.num@, den: self.den.val() }
    }
}

impl QMat1Model {
    /// The inverse of a matrix that is not singular: the adjugate of the
    /// numerator times the denominator, over the determinant of the numerator,
    /// with the signs such that the denominator is positive.
    pub open spec fn inverse(self) -> Self {
        if self.num.det() > 0 {
            QMat1Model { num: self.num.adjugate().scale(self.den), den: self.num.det() }
        } else {
            QMat1Model { num: self.num.adjugate().scale(self.den).opposite(), den: -self.num.det() }
        }
    }

    /// Whether the product of `self` and `o` is the identity.
    pub open spec fn is_inverse_of(self, o: Self) -> bool {
        self.num.times(o.num) == Mat1::<int>::identity().scale(self.den * o.den)
    }
}

impl<N: Scalar> QMat1<N> {
    /// The matrix `num` divided by `den`.
    pub fn new(num: Mat1<N>, den: N) -> (r: Self)
        ensures
            r == (QMat1 { num, den }),
    {
        QMat1 { num, den }
    }

    /// A matrix of integers as a matrix of fractions, over the denominator one.
    pub fn whole(num: Mat1<N>) -> (r: Self)
        ensures
            r@ == (QMat1Model { num: num@, den: 1 }),
    {
        let one = N::one();
        proof {
            one.lemma_val();
        }
        QMat1 { num, den: one }
    }
}

impl Mat1<int> {
    /// Whether every step to the determinant and the adjugate of `m` is
    /// representable in `N`.
    pub open spec fn adjugate_fits<N: Scalar>(m: Self) -> bool {
        true
    }
}

impl<N: Scalar> Mat1<N> {
    /// The determinant and the adjugate of `self`.
    pub fn det_and_adjugate(&self) -> (r: (N, Self))
        requires
            Mat1::<int>::adjugate_fits::<N>(self@),
        ensures
            r.0.val() == self@.det(),
            r.1@ == self@.adjugate(),
    {
        let u = N::one();
        proof {
            u.lemma_val();
        }
        let det = self.m11;
        let adj = Mat1 { m11: u };
        (det, adj)
    }
}

impl<N: Scalar> Inv for QMat1<N> {
    open spec fn inv_fits(m: QMat1Model) -> bool {
        &&& Mat1::<int>::adjugate_fits::<N>(m.num)
        &&& m.num.det() != 0 ==> m.num.adjugate().scale(m.den).fits::<N>()
        &&& m.num.det() < 0 ==> m.num.adjugate().scale(m.den).opposite().fits::<N>() && fits::<N>(
            -m.num.det(),
        )
    }

    open spec fn invertible(m: QMat1Model) -> bool {
        m.num.det() != 0
    }

    open spec fn inverse_model(m: QMat1Model) -> QMat1Model {
        m.inverse()
    }

    fn inverted(&self) -> (r: Option<Self>) {
        let (det, adj) = self.num.det_and_adjugate();
        let z = N::zero();
        proof {
            z.lemma_val();
        }
        if det.same(z) {
            None
        } else if z.lt(det) {
            Some(QMat1 { num: adj.scaled(self.den), den: det })
        } else {
            Some(QMat1 { num: adj.scaled(self.den).opposite(), den: det.neg() })
        }
    }

    fn invert(&mut self) -> (ok: bool) {
        match self.inverted() {
            Some(m) => {
                *self = m;
                true
            },
            None => false,
        }
    }
}

/// The product of a matrix of dimension 1 and a matrix of which every
/// component was multiplied by `k`, or replaced by its additive inverse.
pub proof fn lemma_times_scale1(a: Mat1<int>, b: Mat1<int>, k: int)
    ensures
        a.times(b.scale(k)) == a.times(b).scale(k),
        a.times(b.opposite()) == a.times(b).opposite(),
{
    lemma_assoc(a.m11, b.m11, k);
    lemma_pairs(a.m11, b.m11);
}

/// The product of a matrix of dimension 1 of which every component was
/// multiplied by `k`, or replaced by its additive inverse, and a matrix.
pub proof fn lemma_scale_times1(a: Mat1<int>, b: Mat1<int>, k: int)
    ensures
        a.scale(k).times(b) == a.times(b).scale(k),
        a.opposite().times(b) == a.times(b).opposite(),
{
    lemma_scaled_pair(a.m11, k, b.m11, 1);
    lemma_pairs(a.m11, b.m11);
}

/// The determinant of a multiple of the identity matrix of dimension 1 by an
/// integer that is not zero is not zero.
pub proof fn lemma_det_scaled_identity1(d: int)
    requires
        d != 0,
    ensures
        Mat1::<int>::identity().scale(d).det() != 0,
{
    let m = Mat1::<int>::identity().scale(d);
    assert(m.m11 == d);
}

/// The adjugate of a matrix of dimension 1 that is not singular times the
/// matrix is the determinant times the identity.
pub proof fn lemma_adjugate_left1(a: Mat1<int>)
    requires
        a.det() != 0,
    ensures
        a.adjugate().times(a) == Mat1::<int>::identity().scale(a.det()),
{
    let i = Mat1::<int>::identity();
    let o = Vec1::<int>::origin();
    let d = a.det();
    let x = a.adjugate();
    let y = x.adjugate();
    let e = x.det();
    lemma_adjugate1(a);
    lemma_adjugate1(x);
    lemma_diagonal_entries(d);
    lemma_diagonal_entries(e);
    assert(a.times(x) == i.scale(d));
    assert(x.times(y) == i.scale(e));
    lemma_det_times1(a, x);
    lemma_det_scaled_identity1(d);
    if e == 0 {
        lemma_mul_zero(d, e);
    }
    lemma_times_assoc1(a, x, y);
    lemma_scale_times1(i, y, d);
    lemma_times_scale1(a, i, e);
    lemma_times_identity1(y, o);
    lemma_times_identity1(a, o);
    assert(y.scale(d) == a.scale(e));
    lemma_times_scale1(x, a, e);
    lemma_times_scale1(x, y, d);
    let p = x.times(a);
    assert(p.scale(e) == i.scale(e).scale(d));
    lemma_cancel_entry(p.m11, 1, e, d);
}

/// The inverse of a matrix of dimension 1 of fractions that is not singular:
/// its denominator is positive, and the product of the matrix and its
/// inverse, in either order, is the identity.
pub proof fn lemma_inverse_fraction1(m: QMat1Model)
    requires
        m.num.det() != 0,
    ensures
        m.inverse().den >= 1,
        m.is_inverse_of(m.inverse()),
        m.inverse().is_inverse_of(m),
{
    let a = m.num;
    let adj = a.adjugate();
    let d = a.det();
    lemma_adjugate1(a);
    lemma_adjugate_left1(a);
    lemma_times_scale1(a, adj, m.den);
    lemma_times_scale1(a, adj.scale(m.den), 0);
    lemma_scale_times1(adj, a, m.den);
    lemma_scale_times1(adj.scale(m.den), a, 0);
    lemma_diagonal(d, m.den);
    lemma_diagonal(m.den, d);
    lemma_diagonal(m.den, -d);
    lemma_comm(d, m.den);
    lemma_pairs(d, m.den);
    lemma_diagonal_entries(d);
    lemma_diagonal_entries(d * m.den);
    lemma_diagonal_entries(m.den * d);
    lemma_diagonal_entries((-d) * m.den);
}

/// The inverse of a matrix of dimension 1 of fractions that is not singular
/// is not singular, and its inverse stands for the matrix: each, multiplied
/// by the denominator of the other, gives the same matrix.
pub proof fn lemma_inverted_twice_fraction1(m: QMat1Model)
    requires
        m.den >= 1,
        m.num.det() != 0,
    ensures
        m.inverse().num.det() != 0,
        m.inverse().inverse().num.scale(m.den) == m.num.scale(m.inverse().inverse().den),
{
    let x = m.inverse();
    let i = Mat1::<int>::identity();
    let o = Vec1::<int>::origin();
    lemma_inverse_fraction1(m);
    let c = x.den * m.den;
    lemma_nonzero_product(x.den, m.den);
    lemma_det_times1(x.num, m.num);
    lemma_det_scaled_identity1(c);
    if x.num.det() == 0 {
        lemma_mul_zero(x.num.det(), m.num.det());
    }
    let y = x.inverse();
    lemma_inverse_fraction1(x);
    lemma_times_assoc1(m.num, x.num, y.num);
    lemma_scale_times1(i, y.num, m.den * x.den);
    lemma_times_scale1(m.num, i, x.den * y.den);
    lemma_times_identity1(y.num, o);
    lemma_times_identity1(m.num, o);
    assert(y.num.scale(m.den * x.den) == m.num.scale(x.den * y.den));
    lemma_cancel_common(y.num.m11, m.den, m.num.m11, y.den, x.den);
}

/// A square matrix of dimension 2 of fractions over a common denominator:
/// `num` divided by `den`, which is positive.
#[derive(Clone, Copy, Debug, PartialEq, Eq)]
pub struct QMat2<N> {
    pub num: Mat2<N>,
    pub den: N,
}

/// The mathematical model of a matrix of dimension 2 of fractions.
pub struct QMat2Model {
    pub num: Mat2<int>,
    pub den: int,
}

impl<N: Scalar> View for QMat2<N> {
    type V = QMat2Model;

    open spec fn view(&self) -> QMat2Model {
        QMat2Model { num: self.num@, den: self.den.val() }
    }
}

impl QMat2Model {
    /// The inverse of a matrix that is not singular: the adjugate of the
    /// numerator times the denominator, over the determinant of the numerator,
    /// with the signs such that the denominator is positive.
    pub open spec fn inverse(self) -> Self {
        if self.num.det() > 0 {
            QMat2Model { num: self.num.adjugate().scale(self.den), den: self.num.det() }
        } else {
            QMat2Model { num: self.num.adjugate().scale(self.den).opposite(), den: -self.num.det() }
        }
    }

    /// Whether the product of `self` and `o` is the identity.
    pub open spec fn is_inverse_of(self, o: Self) -> bool {
        self.num.times(o.num) == Mat2::<int>::identity().scale(self.den * o.den)
    }
}

impl<N: Scalar> QMat2<N> {
    /// The matrix `num` divided by `den`.
    pub fn new(num: Mat2<N>, den: N) -> (r: Self)
        ensures
            r == (QMat2 { num, den }),
    {
        QMat2 { num, den }
    }

    /// A matrix of integers as a matrix of fractions, over the denominator one.
    pub fn whole(num: Mat2<N>) -> (r: Self)
        ensures
            r@ == (QMat2Model { num: num@, den: 1 }),
    {
        let one = N::one();
        proof {
            one.lemma_val();
        }
        QMat2 { num, den: one }
    }
}

impl Mat2<int> {
    /// Whether every step to the determinant and the adjugate of `m` is
    /// representable in `N`.
    pub open spec fn adjugate_fits<N: Scalar>(m: Self) -> bool {
        &&& fits::<N>(m.m11 * m.m22)
        &&& fits::<N>(m.m12 * m.m21)
        &&& fits::<N>(m.det())
        &&& fits::<N>(-m.m12)
        &&& fits::<N>(-m.m21)
    }
}

impl<N: Scalar> Mat2<N> {
    /// The determinant and the adjugate of `self`.
    pub fn det_and_adjugate(&self) -> (r: (N, Self))
        requires
            Mat2::<int>::adjugate_fits::<N>(self@),
        ensures
            r.0.val() == self@.det(),
            r.1@ == self@.adjugate(),
    {
        let det = self.m11.times(self.m22).minus(self.m12.times(self.m21));
        let adj = Mat2 { m11: self.m22, m12: self.m12.neg(), m21: self.m21.neg(), m22: self.m11 };
        (det, adj)
    }
}

impl<N: Scalar> Inv for QMat2<N> {
    open spec fn inv_fits(m: QMat2Model) -> bool {
        &&& Mat2::<int>::adjugate_fits::<N>(m.num)
        &&& m.num.det() != 0 ==> m.num.adjugate().scale(m.den).fits::<N>()
        &&& m.num.det() < 0 ==> m.num.adjugate().scale(m.den).opposite().fits::<N>() && fits::<N>(
            -m.num.det(),
        )
    }

    open spec fn invertible(m: QMat2Model) -> bool {
        m.num.det() != 0
    }

    open spec fn inverse_model(m: QMat2Model) -> QMat2Model {
        m.inverse()
    }

    fn inverted(&self) -> (r: Option<Self>) {
        let (det, adj) = self.num.det_and_adjugate();
        let z = N::zero();
        proof {
            z.lemma_val();
        }
        if det.same(z) {
            None
        } else if z.lt(det) {
            Some(QMat2 { num: adj.scaled(self.den), den: det })
        } else {
            Some(QMat2 { num: adj.scaled(self.den).opposite(), den: det.neg() })
        }
    }

    fn invert(&mut self) -> (ok: bool) {
        match self.inverted() {
            Some(m) => {
                *self = m;
                true
            },
            None => false,
        }
    }
}

/// The product of a matrix of dimension 2 and a matrix of which every
/// component was multiplied by `k`, or replaced by its additive inverse.
pub proof fn lemma_times_scale2(a: Mat2<int>, b: Mat2<int>, k: int)
    ensures
        a.times(b.scale(k)) == a.times(b).scale(k),
        a.times(b.opposite()) == a.times(b).opposite(),
{
    lemma_dist_left2(a.m11 * b.m11, a.m12 * b.m21, k);
    lemma_assoc(a.m11, b.m11, k);
    lemma_pairs(a.m11, b.m11);
    lemma_assoc(a.m12, b.m21, k);
    lemma_pairs(a.m12, b.m21);
    lemma_dist_left2(a.m11 * b.m12, a.m12 * b.m22, k);
    lemma_assoc(a.m11, b.m12, k);
    lemma_pairs(a.m11, b.m12);
    lemma_assoc(a.m12, b.m22, k);
    lemma_pairs(a.m12, b.m22);
    lemma_dist_left2(a.m21 * b.m11, a.m22 * b.m21, k);
    lemma_assoc(a.m21, b.m11, k);
    lemma_pairs(a.m21, b.m11);
    lemma_assoc(a.m22, b.m21, k);
    lemma_pairs(a.m22, b.m21);
    lemma_dist_left2(a.m21 * b.m12, a.m22 * b.m22, k);
    lemma_assoc(a.m21, b.m12, k);
    lemma_pairs(a.m21, b.m12);
    lemma_assoc(a.m22, b.m22, k);
    lemma_pairs(a.m22, b.m22);
}

/// The product of a matrix of dimension 2 of which every component was
/// multiplied by `k`, or replaced by its additive inverse, and a matrix.
pub proof fn lemma_scale_times2(a: Mat2<int>, b: Mat2<int>, k: int)
    ensures
        a.scale(k).times(b) == a.times(b).scale(k),
        a.opposite().times(b) == a.times(b).opposite(),
{
    lemma_dist_left2(a.m11 * b.m11, a.m12 * b.m21, k);
    lemma_scaled_pair(a.m11, k, b.m11, 1);
    lemma_pairs(a.m11, b.m11);
    lemma_scaled_pair(a.m12, k, b.m21, 1);
    lemma_pairs(a.m12, b.m21);
    lemma_dist_left2(a.m11 * b.m12, a.m12 * b.m22, k);
    lemma_scaled_pair(a.m11, k, b.m12, 1);
    lemma_pairs(a.m11, b.m12);
    lemma_scaled_pair(a.m12, k, b.m22, 1);
    lemma_pairs(a.m12, b.m22);
    lemma_dist_left2(a.m21 * b.m11, a.m22 * b.m21, k);
    lemma_scaled_pair(a.m21, k, b.m11, 1);
    lemma_pairs(a.m21, b.m11);
    lemma_scaled_pair(a.m22, k, b.m21, 1);
    lemma_pairs(a.m22, b.m21);
    lemma_dist_left2(a.m21 * b.m12, a.m22 * b.m22, k);
    lemma_scaled_pair(a.m21, k, b.m12, 1);
    lemma_pairs(a.m21, b.m12);
    lemma_scaled_pair(a.m22, k, b.m22, 1);
    lemma_pairs(a.m22, b.m22);
}

/// The determinant of a multiple of the identity matrix of dimension 2 by an
/// integer that is not zero is not zero.
pub proof fn lemma_det_scaled_identity2(d: int)
    requires
        d != 0,
    ensures
        Mat2::<int>::identity().scale(d).det() != 0,
{
    let m = Mat2::<int>::identity().scale(d);
    assert(m.m11 == d);
    assert(m.m12 == 0);
    assert(m.m21 == 0);
    assert(m.m22 == d);
    lemma_mul_zero(m.m12, m.m21);
    lemma_square_zero(d);
    assert(m.m11 * m.m22 == d * d);
}

/// The adjugate of a matrix of dimension 2 that is not singular times the
/// matrix is the determinant times the identity.
pub proof fn lemma_adjugate_left2(a: Mat2<int>)
    requires
        a.det() != 0,
    ensures
        a.adjugate().times(a) == Mat2::<int>::identity().scale(a.det()),
{
    let i = Mat2::<int>::identity();
    let o = Vec2::<int>::origin();
    let d = a.det();
    let x = a.adjugate();
    let y = x.adjugate();
    let e = x.det();
    lemma_adjugate2(a);
    lemma_adjugate2(x);
    lemma_diagonal_entries(d);
    lemma_diagonal_entries(e);
    assert(a.times(x) == i.scale(d));
    assert(x.times(y) == i.scale(e));
    lemma_det_times2(a, x);
    lemma_det_scaled_identity2(d);
    if e == 0 {
        lemma_mul_zero(d, e);
    }
    lemma_times_assoc2(a, x, y);
    lemma_scale_times2(i, y, d);
    lemma_times_scale2(a, i, e);
    lemma_times_identity2(y, o);
    lemma_times_identity2(a, o);
    assert(y.scale(d) == a.scale(e));
    lemma_times_scale2(x, a, e);
    lemma_times_scale2(x, y, d);
    let p = x.times(a);
    assert(p.scale(e) == i.scale(e).scale(d));
    lemma_cancel_entry(p.m11, 1, e, d);
    lemma_cancel_entry(p.m12, 0, e, d);
    lemma_cancel_entry(p.m21, 0, e, d);
    lemma_cancel_entry(p.m22, 1, e, d);
}

/// The inverse of a matrix of dimension 2 of fractions that is not singular:
/// its denominator is positive, and the product of the matrix and its
/// inverse, in either order, is the identity.
pub proof fn lemma_inverse_fraction2(m: QMat2Model)
    requires
        m.num.det() != 0,
    ensures
        m.inverse().den >= 1,
        m.is_inverse_of(m.inverse()),
        m.inverse().is_inverse_of(m),
{
    let a = m.num;
    let adj = a.adjugate();
    let d = a.det();
    lemma_adjugate2(a);
    lemma_adjugate_left2(a);
    lemma_times_scale2(a, adj, m.den);
    lemma_times_scale2(a, adj.scale(m.den), 0);
    lemma_scale_times2(adj, a, m.den);
    lemma_scale_times2(adj.scale(m.den), a, 0);
    lemma_diagonal(d, m.den);
    lemma_diagonal(m.den, d);
    lemma_diagonal(m.den, -d);
    lemma_comm(d, m.den);
    lemma_pairs(d, m.den);
    lemma_diagonal_entries(d);
    lemma_diagonal_entries(d * m.den);
    lemma_diagonal_entries(m.den * d);
    lemma_diagonal_entries((-d) * m.den);
}

/// The inverse of a matrix of dimension 2 of fractions that is not singular
/// is not singular, and its inverse stands for the matrix: each, multiplied
/// by the denominator of the other, gives the same matrix.
pub proof fn lemma_inverted_twice_fraction2(m: QMat2Model)
    requires
        m.den >= 1,
        m.num.det() != 0,
    ensures
        m.inverse().num.det() != 0,
        m.inverse().inverse().num.scale(m.den) == m.num.scale(m.inverse().inverse().den),
{
    let x = m.inverse();
    let i = Mat2::<int>::identity();
    let o = Vec2::<int>::origin();
    lemma_inverse_fraction2(m);
    let c = x.den * m.den;
    lemma_nonzero_product(x.den, m.den);
    lemma_det_times2(x.num, m.num);
    lemma_det_scaled_identity2(c);
    if x.num.det() == 0 {
        lemma_mul_zero(x.num.det(), m.num.det());
    }
    let y = x.inverse();
    lemma_inverse_fraction2(x);
    lemma_times_assoc2(m.num, x.num, y.num);
    lemma_scale_times2(i, y.num, m.den * x.den);
    lemma_times_scale2(m.num, i, x.den * y.den);
    lemma_times_identity2(y.num, o);
    lemma_times_identity2(m.num, o);
    assert(y.num.scale(m.den * x.den) == m.num.scale(x.den * y.den));
    lemma_cancel_common(y.num.m11, m.den, m.num.m11, y.den, x.den);
    lemma_cancel_common(y.num.m12, m.den, m.num.m12, y.den, x.den);
    lemma_cancel_common(y.num.m21, m.den, m.num.m21, y.den, x.den);
    lemma_cancel_common(y.num.m22, m.den, m.num.m22, y.den, x.den);
}

/// A square matrix of dimension 3 of fractions over a common denominator:
/// `num` divided by `den`, which is positive.
#[derive(Clone, Copy, Debug, PartialEq, Eq)]
pub struct QMat3<N> {
    pub num: Mat3<N>,
    pub den: N,
}

/// The mathematical model of a matrix of dimension 3 of fractions.
pub struct QMat3Model {
    pub num: Mat3<int>,
    pub den: int,
}

impl<N: Scalar> View for QMat3<N> {
    type V = QMat3Model;

    open spec fn view(&self) -> QMat3Model {
        QMat3Model { num: self.num@, den: self.den.val() }
    }
}

impl QMat3Model {
    /// The inverse of a matrix that is not singular: the adjugate of the
    /// numerator times the denominator, over the determinant of the numerator,
    /// with the signs such that the denominator is positive.
    pub open spec fn inverse(self) -> Self {
        if self.num.det() > 0 {
            QMat3Model { num: self.num.adjugate().scale(self.den), den: self.num.det() }
        } else {
            QMat3Model { num: self.num.adjugate().scale(self.den).opposite(), den: -self.num.det() }
        }
    }

    /// Whether the product of `self` and `o` is the identity.
    pub open spec fn is_inverse_of(self, o: Self) -> bool {
        self.num.times(o.num) == Mat3::<int>::identity().scale(self.den * o.den)
    }
}

impl<N: Scalar> QMat3<N> {
    /// The matrix `num` divided by `den`.
    pub fn new(num: Mat3<N>, den: N) -> (r: Self)
        ensures
            r == (QMat3 { num, den }),
    {
        QMat3 { num, den }
    }

    /// A matrix of integers as a matrix of fractions, over the denominator one.
    pub fn whole(num: Mat3<N>) -> (r: Self)
        ensures
            r@ == (QMat3Model { num: num@, den: 1 }),
    {
        let one = N::one();
        proof {
            one.lemma_val();
        }
        QMat3 { num, den: one }
    }
}

impl Mat3<int> {
    /// Whether every step to the determinant and the adjugate of `m` is
    /// representable in `N`.
    pub open spec fn adjugate_fits<N: Scalar>(m: Self) -> bool {
        &&& <Vec3<N> as Cross<Vec3<N>>>::cross_fits(m.row2(), m.row3())
        &&& <Vec3<N> as Cross<Vec3<N>>>::cross_fits(m.row3(), m.row1())
        &&& <Vec3<N> as Cross<Vec3<N>>>::cross_fits(m.row1(), m.row2())
        &&& <Vec3<N> as Dot<N>>::dot_fits(m.row1(), m.row2().cross(m.row3()))
    }
}

impl<N: Scalar> Mat3<N> {
    /// The determinant and the adjugate of `self`.
    pub fn det_and_adjugate(&self) -> (r: (N, Self))
        requires
            Mat3::<int>::adjugate_fits::<N>(self@),
        ensures
            r.0.val() == self@.det(),
            r.1@ == self@.adjugate(),
    {
        let r1 = self.row1();
        let r2 = self.row2();
        let r3 = self.row3();
        let c1: Vec3<N> = r2.cross(&r3);
        let c2: Vec3<N> = r3.cross(&r1);
        let c3: Vec3<N> = r1.cross(&r2);
        let det = r1.dot(&c1);
        let adj = Mat3::from_cols(c1, c2, c3);
        (det, adj)
    }
}

impl<N: Scalar> Inv for QMat3<N> {
    open spec fn inv_fits(m: QMat3Model) -> bool {
        &&& Mat3::<int>::adjugate_fits::<N>(m.num)
        &&& m.num.det() != 0 ==> m.num.adjugate().scale(m.den).fits::<N>()
        &&& m.num.det() < 0 ==> m.num.adjugate().scale(m.den).opposite().fits::<N>() && fits::<N>(
            -m.num.det(),
        )
    }

    open spec fn invertible(m: QMat3Model) -> bool {
        m.num.det() != 0
    }

    open spec fn inverse_model(m: QMat3Model) -> QMat3Model {
        m.inverse()
    }

    fn inverted(&self) -> (r: Option<Self>) {
        let (det, adj) = self.num.det_and_adjugate();
        let z = N::zero();
        proof {
            z.lemma_val();
        }
        if det.same(z) {
            None
        } else if z.lt(det) {
            Some(QMat3 { num: adj.scaled(self.den), den: det })
        } else {
            Some(QMat3 { num: adj.scaled(self.den).opposite(), den: det.neg() })
        }
    }

    fn invert(&mut self) -> (ok: bool) {
        match self.inverted() {
            Some(m) => {
                *self = m;
                true
            },
            None => false,
        }
    }
}

/// The product of a matrix of dimension 3 and a matrix of which every
/// component was multiplied by `k`, or replaced by its additive inverse.
pub proof fn lemma_times_scale3(a: Mat3<int>, b: Mat3<int>, k: int)
    ensures
        a.times(b.scale(k)) == a.times(b).scale(k),
        a.times(b.opposite()) == a.times(b).opposite(),
{
    lemma_dist_left3(a.m11 * b.m11, a.m12 * b.m21, a.m13 * b.m31, k);
    lemma_assoc(a.m11, b.m11, k);
    lemma_pairs(a.m11, b.m11);
    lemma_assoc(a.m12, b.m21, k);
    lemma_pairs(a.m12, b.m21);
    lemma_assoc(a.m13, b.m31, k);
    lemma_pairs(a.m13, b.m31);
    lemma_dist_left3(a.m11 * b.m12, a.m12 * b.m22, a.m13 * b.m32, k);
    lemma_assoc(a.m11, b.m12, k);
    lemma_pairs(a.m11, b.m12);
    lemma_assoc(a.m12, b.m22, k);
    lemma_pairs(a.m12, b.m22);
    lemma_assoc(a.m13, b.m32, k);
    lemma_pairs(a.m13, b.m32);
    lemma_dist_left3(a.m11 * b.m13, a.m12 * b.m23, a.m13 * b.m33, k);
    lemma_assoc(a.m11, b.m13, k);
    lemma_pairs(a.m11, b.m13);
    lemma_assoc(a.m12, b.m23, k);
    lemma_pairs(a.m12, b.m23);
    lemma_assoc(a.m13, b.m33, k);
    lemma_pairs(a.m13, b.m33);
    lemma_dist_left3(a.m21 * b.m11, a.m22 * b.m21, a.m23 * b.m31, k);
    lemma_assoc(a.m21, b.m11, k);
    lemma_pairs(a.m21, b.m11);
    lemma_assoc(a.m22, b.m21, k);
    lemma_pairs(a.m22, b.m21);
    lemma_assoc(a.m23, b.m31, k);
    lemma_pairs(a.m23, b.m31);
    lemma_dist_left3(a.m21 * b.m12, a.m22 * b.m22, a.m23 * b.m32, k);
    lemma_assoc(a.m21, b.m12, k);
    lemma_pairs(a.m21, b.m12);
    lemma_assoc(a.m22, b.m22, k);
    lemma_pairs(a.m22, b.m22);
    lemma_assoc(a.m23, b.m32, k);
    lemma_pairs(a.m23, b.m32);
    lemma_dist_left3(a.m21 * b.m13, a.m22 * b.m23, a.m23 * b.m33, k);
    lemma_assoc(a.m21, b.m13, k);
    lemma_pairs(a.m21, b.m13);
    lemma_assoc(a.m22, b.m23, k);
    lemma_pairs(a.m22, b.m23);
    lemma_assoc(a.m23, b.m33, k);
    lemma_pairs(a.m23, b.m33);
    lemma_dist_left3(a.m31 * b.m11, a.m32 * b.m21, a.m33 * b.m31, k);
    lemma_assoc(a.m31, b.m11, k);
    lemma_pairs(a.m31, b.m11);
    lemma_assoc(a.m32, b.m21, k);
    lemma_pairs(a.m32, b.m21);
    lemma_assoc(a.m33, b.m31, k);
    lemma_pairs(a.m33, b.m31);
    lemma_dist_left3(a.m31 * b.m12, a.m32 * b.m22, a.m33 * b.m32, k);
    lemma_assoc(a.m31, b.m12, k);
    lemma_pairs(a.m31, b.m12);
    lemma_assoc(a.m32, b.m22, k);
    lemma_pairs(a.m32, b.m22);
    lemma_assoc(a.m33, b.m32, k);
    lemma_pairs(a.m33, b.m32);
    lemma_dist_left3(a.m31 * b.m13, a.m32 * b.m23, a.m33 * b.m33, k);
    lemma_assoc(a.m31, b.m13, k);
    lemma_pairs(a.m31, b.m13);
    lemma_assoc(a.m32, b.m23, k);
    lemma_pairs(a.m32, b.m23);
    lemma_assoc(a.m33, b.m33, k);
    lemma_pairs(a.m33, b.m33);
}

/// The product of a matrix of dimension 3 of which every component was
/// multiplied by `k`, or replaced by its additive inverse, and a matrix.
pub proof fn lemma_scale_times3(a: Mat3<int>, b: Mat3<int>, k: int)
    ensures
        a.scale(k).times(b) == a.times(b).scale(k),
        a.opposite().times(b) == a.times(b).opposite(),
{
    lemma_dist_left3(a.m11 * b.m11, a.m12 * b.m21, a.m13 * b.m31, k);
    lemma_scaled_pair(a.m11, k, b.m11, 1);
    lemma_pairs(a.m11, b.m11);
    lemma_scaled_pair(a.m12, k, b.m21, 1);
    lemma_pairs(a.m12, b.m21);
    lemma_scaled_pair(a.m13, k, b.m31, 1);
    lemma_pairs(a.m13, b.m31);
    lemma_dist_left3(a.m11 * b.m12, a.m12 * b.m22, a.m13 * b.m32, k);
    lemma_scaled_pair(a.m11, k, b.m12, 1);
    lemma_pairs(a.m11, b.m12);
    lemma_scaled_pair(a.m12, k, b.m22, 1);
    lemma_pairs(a.m12, b.m22);
    lemma_scaled_pair(a.m13, k, b.m32, 1);
    lemma_pairs(a.m13, b.m32);
    lemma_dist_left3(a.m11 * b.m13, a.m12 * b.m23, a.m13 * b.m33, k);
    lemma_scaled_pair(a.m11, k, b.m13, 1);
    lemma_pairs(a.m11, b.m13);
    lemma_scaled_pair(a.m12, k, b.m23, 1);
    lemma_pairs(a.m12, b.m23);
    lemma_scaled_pair(a.m13, k, b.m33, 1);
    lemma_pairs(a.m13, b.m33);
    lemma_dist_left3(a.m21 * b.m11, a.m22 * b.m21, a.m23 * b.m31, k);
    lemma_scaled_pair(a.m21, k, b.m11, 1);
    lemma_pairs(a.m21, b.m11);
    lemma_scaled_pair(a.m22, k, b.m21, 1);
    lemma_pairs(a.m22, b.m21);
    lemma_scaled_pair(a.m23, k, b.m31, 1);
    lemma_pairs(a.m23, b.m31);
    lemma_dist_left3(a.m21 * b.m12, a.m22 * b.m22, a.m23 * b.m32, k);
    lemma_scaled_pair(a.m21, k, b.m12, 1);
    lemma_pairs(a.m21, b.m12);
    lemma_scaled_pair(a.m22, k, b.m22, 1);
    lemma_pairs(a.m22, b.m22);
    lemma_scaled_pair(a.m23, k, b.m32, 1);
    lemma_pairs(a.m23, b.m32);
    lemma_dist_left3(a.m21 * b.m13, a.m22 * b.m23, a.m23 * b.m33, k);
    lemma_scaled_pair(a.m21, k, b.m13, 1);
    lemma_pairs(a.m21, b.m13);
    lemma_scaled_pair(a.m22, k, b.m23, 1);
    lemma_pairs(a.m22, b.m23);
    lemma_scaled_pair(a.m23, k, b.m33, 1);
    lemma_pairs(a.m23, b.m33);
    lemma_dist_left3(a.m31 * b.m11, a.m32 * b.m21, a.m33 * b.m31, k);
    lemma_scaled_pair(a.m31, k, b.m11, 1);
    lemma_pairs(a.m31, b.m11);
    lemma_scaled_pair(a.m32, k, b.m21, 1);
    lemma_pairs(a.m32, b.m21);
    lemma_scaled_pair(a.m33, k, b.m31, 1);
    lemma_pairs(a.m33, b.m31);
    lemma_dist_left3(a.m31 * b.m12, a.m32 * b.m22, a.m33 * b.m32, k);
    lemma_scaled_pair(a.m31, k, b.m12, 1);
    lemma_pairs(a.m31, b.m12);
    lemma_scaled_pair(a.m32, k, b.m22, 1);
    lemma_pairs(a.m32, b.m22);
    lemma_scaled_pair(a.m33, k, b.m32, 1);
    lemma_pairs(a.m33, b.m32);
    lemma_dist_left3(a.m31 * b.m13, a.m32 * b.m23, a.m33 * b.m33, k);
    lemma_scaled_pair(a.m31, k, b.m13, 1);
    lemma_pairs(a.m31, b.m13);
    lemma_scaled_pair(a.m32, k, b.m23, 1);
    lemma_pairs(a.m32, b.m23);
    lemma_scaled_pair(a.m33, k, b.m33, 1);
    lemma_pairs(a.m33, b.m33);
}

/// The determinant of a multiple of the identity matrix of dimension 3 by an
/// integer that is not zero is not zero.
pub proof fn lemma_det_scaled_identity3(d: int)
    requires
        d != 0,
    ensures
        Mat3::<int>::identity().scale(d).det() != 0,
{
    let m = Mat3::<int>::identity().scale(d);
    assert(m.m11 == d);
    assert(m.m12 == 0);
    assert(m.m13 == 0);
    assert(m.m21 == 0);
    assert(m.m22 == d);
    assert(m.m23 == 0);
    assert(m.m31 == 0);
    assert(m.m32 == 0);
    assert(m.m33 == d);
    let c = m.row2().cross(m.row3());
    lemma_mul_zero(m.m23, m.m32);
    lemma_mul_zero(m.m23, m.m31);
    lemma_mul_zero(m.m21, m.m33);
    lemma_mul_zero(m.m21, m.m32);
    lemma_mul_zero(m.m22, m.m31);
    assert(m.m22 * m.m33 == d * d);
    assert(c.x == d * d);
    assert(c.y == 0);
    assert(c.z == 0);
    lemma_mul_zero(m.m12, c.y);
    lemma_mul_zero(m.m13, c.z);
    assert(m.m11 * c.x == d * (d * d));
    lemma_power_nonzero(d);
}

/// The adjugate of a matrix of dimension 3 that is not singular times the
/// matrix is the determinant times the identity.
pub proof fn lemma_adjugate_left3(a: Mat3<int>)
    requires
        a.det() != 0,
    ensures
        a.adjugate().times(a) == Mat3::<int>::identity().scale(a.det()),
{
    let i = Mat3::<int>::identity();
    let o = Vec3::<int>::origin();
    let d = a.det();
    let x = a.adjugate();
    let y = x.adjugate();
    let e = x.det();
    lemma_adjugate3(a);
    lemma_adjugate3(x);
    lemma_diagonal_entries(d);
    lemma_diagonal_entries(e);
    assert(a.times(x) == i.scale(d));
    assert(x.times(y) == i.scale(e));
    lemma_det_times3(a, x);
    lemma_det_scaled_identity3(d);
    if e == 0 {
        lemma_mul_zero(d, e);
    }
    lemma_times_assoc3(a, x, y);
    lemma_scale_times3(i, y, d);
    lemma_times_scale3(a, i, e);
    lemma_times_identity3(y, o);
    lemma_times_identity3(a, o);
    assert(y.scale(d) == a.scale(e));
    lemma_times_scale3(x, a, e);
    lemma_times_scale3(x, y, d);
    let p = x.times(a);
    assert(p.scale(e) == i.scale(e).scale(d));
    lemma_cancel_entry(p.m11, 1, e, d);
    lemma_cancel_entry(p.m12, 0, e, d);
    lemma_cancel_entry(p.m13, 0, e, d);
    lemma_cancel_entry(p.m21, 0, e, d);
    lemma_cancel_entry(p.m22, 1, e, d);
    lemma_cancel_entry(p.m23, 0, e, d);
    lemma_cancel_entry(p.m31, 0, e, d);
    lemma_cancel_entry(p.m32, 0, e, d);
    lemma_cancel_entry(p.m33, 1, e, d);
}

/// The inverse of a matrix of dimension 3 of fractions that is not singular:
/// its denominator is positive, and the product of the matrix and its
/// inverse, in either order, is the identity.
pub proof fn lemma_inverse_fraction3(m: QMat3Model)
    requires
        m.num.det() != 0,
    ensures
        m.inverse().den >= 1,
        m.is_inverse_of(m.inverse()),
        m.inverse().is_inverse_of(m),
{
    let a = m.num;
    let adj = a.adjugate();
    let d = a.det();
    lemma_adjugate3(a);
    lemma_adjugate_left3(a);
    lemma_times_scale3(a, adj, m.den);
    lemma_times_scale3(a, adj.scale(m.den), 0);
    lemma_scale_times3(adj, a, m.den);
    lemma_scale_times3(adj.scale(m.den), a, 0);
    lemma_diagonal(d, m.den);
    lemma_diagonal(m.den, d);
    lemma_diagonal(m.den, -d);
    lemma_comm(d, m.den);
    lemma_pairs(d, m.den);
    lemma_diagonal_entries(d);
    lemma_diagonal_entries(d * m.den);
    lemma_diagonal_entries(m.den * d);
    lemma_diagonal_entries((-d) * m.den);
}

/// The inverse of a matrix of dimension 3 of fractions that is not singular
/// is not singular, and its inverse stands for the matrix: each, multiplied
/// by the denominator of the other, gives the same matrix.
pub proof fn lemma_inverted_twice_fraction3(m: QMat3Model)
    requires
        m.den >= 1,
        m.num.det() != 0,
    ensures
        m.inverse().num.det() != 0,
        m.inverse().inverse().num.scale(m.den) == m.num.scale(m.inverse().inverse().den),
{
    let x = m.inverse();
    let i = Mat3::<int>::identity();
    let o = Vec3::<int>::origin();
    lemma_inverse_fraction3(m);
    let c = x.den * m.den;
    lemma_nonzero_product(x.den, m.den);
    lemma_det_times3(x.num, m.num);
    lemma_det_scaled_identity3(c);
    if x.num.det() == 0 {
        lemma_mul_zero(x.num.det(), m.num.det());
    }
    let y = x.inverse();
    lemma_inverse_fraction3(x);
    lemma_times_assoc3(m.num, x.num, y.num);
    lemma_scale_times3(i, y.num, m.den * x.den);
    lemma_times_scale3(m.num, i, x.den * y.den);
    lemma_times_identity3(y.num, o);
    lemma_times_identity3(m.num, o);
    assert(y.num.scale(m.den * x.den) == m.num.scale(x.den * y.den));
    lemma_cancel_common(y.num.m11, m.den, m.num.m11, y.den, x.den);
    lemma_cancel_common(y.num.m12, m.den, m.num.m12, y.den, x.den);
    lemma_cancel_common(y.num.m13, m.den, m.num.m13, y.den, x.den);
    lemma_cancel_common(y.num.m21, m.den, m.num.m21, y.den, x.den);
    lemma_cancel_common(y.num.m22, m.den, m.num.m22, y.den, x.den);
    lemma_cancel_common(y.num.m23, m.den, m.num.m23, y.den, x.den);
    lemma_cancel_common(y.num.m31, m.den, m.num.m31, y.den, x.den);
    lemma_cancel_common(y.num.m32, m.den, m.num.m32, y.den, x.den);
    lemma_cancel_common(y.num.m33, m.den, m.num.m33, y.den, x.den);
}

/// A square matrix of dimension 4 of fractions over a common denominator:
/// `num` divided by `den`, which is positive.
#[derive(Clone, Copy, Debug, PartialEq, Eq)]
pub struct QMat4<N> {
    pub num: Mat4<N>,
    pub den: N,
}

/// The mathematical model of a matrix of dimension 4 of fractions.
pub struct QMat4Model {
    pub num: Mat4<int>,
    pub den: int,
}

impl<N: Scalar> View for QMat4<N> {
    type V = QMat4Model;

    open spec fn view(&self) -> QMat4Model {
        QMat4Model { num: self.num@, den: self.den.val() }
    }
}

impl QMat4Model {
    /// The inverse of a matrix that is not singular: the adjugate of the
    /// numerator times the denominator, over the determinant of the numerator,
    /// with the signs such that the denominator is positive.
    pub open spec fn inverse(self) -> Self {
        if self.num.det() > 0 {
            QMat4Model { num: self.num.adjugate().scale(self.den), den: self.num.det() }
        } else {
            QMat4Model { num: self.num.adjugate().scale(self.den).opposite(), den: -self.num.det() }
        }
    }

    /// Whether the product of `self` and `o` is the identity.
    pub open spec fn is_inverse_of(self, o: Self) -> bool {
        self.num.times(o.num) == Mat4::<int>::identity().scale(self.den * o.den)
    }
}

impl<N: Scalar> QMat4<N> {
    /// The matrix `num` divided by `den`.
    pub fn new(num: Mat4<N>, den: N) -> (r: Self)
        ensures
            r == (QMat4 { num, den }),
    {
        QMat4 { num, den }
    }

    /// A matrix of integers as a matrix of fractions, over the denominator one.
    pub fn whole(num: Mat4<N>) -> (r: Self)
        ensures
            r@ == (QMat4Model { num: num@, den: 1 }),
    {
        let one = N::one();
        proof {
            one.lemma_val();
        }
        QMat4 { num, den: one }
    }
}

impl Mat4<int> {
    /// Whether every step to the determinant and the adjugate of `m` is
    /// representable in `N`.
    pub open spec fn adjugate_fits<N: Scalar>(m: Self) -> bool {
        &&& Vec4::<int>::cross3_fits::<N>(m.row2(), m.row3(), m.row4())
        &&& Vec4::<int>::cross3_fits::<N>(m.row1(), m.row4(), m.row3())
        &&& Vec4::<int>::cross3_fits::<N>(m.row1(), m.row2(), m.row4())
        &&& Vec4::<int>::cross3_fits::<N>(m.row1(), m.row3(), m.row2())
        &&& <Vec4<N> as Dot<N>>::dot_fits(m.row1(), m.row2().cross3(m.row3(), m.row4()))
    }
}

impl<N: Scalar> Mat4<N> {
    /// The determinant and the adjugate of `self`.
    pub fn det_and_adjugate(&self) -> (r: (N, Self))
        requires
            Mat4::<int>::adjugate_fits::<N>(self@),
        ensures
            r.0.val() == self@.det(),
            r.1@ == self@.adjugate(),
    {
        let r1 = self.row1();
        let r2 = self.row2();
        let r3 = self.row3();
        let r4 = self.row4();
        let c1 = r2.cross3(&r3, &r4);
        let c2 = r1.cross3(&r4, &r3);
        let c3 = r1.cross3(&r2, &r4);
        let c4 = r1.cross3(&r3, &r2);
        let det = r1.dot(&c1);
        let adj = Mat4::from_cols(c1, c2, c3, c4);
        (det, adj)
    }
}

impl<N: Scalar> Inv for QMat4<N> {
    open spec fn inv_fits(m: QMat4Model) -> bool {
        &&& Mat4::<int>::adjugate_fits::<N>(m.num)
        &&& m.num.det() != 0 ==> m.num.adjugate().scale(m.den).fits::<N>()
        &&& m.num.det() < 0 ==> m.num.adjugate().scale(m.den).opposite().fits::<N>() && fits::<N>(
            -m.num.det(),
        )
    }

    open spec fn invertible(m: QMat4Model) -> bool {
        m.num.det() != 0
    }

    open spec fn inverse_model(m: QMat4Model) -> QMat4Model {
        m.inverse()
    }

    fn inverted(&self) -> (r: Option<Self>) {
        let (det, adj) = self.num.det_and_adjugate();
        let z = N::zero();
        proof {
            z.lemma_val();
        }
        if det.same(z) {
            None
        } else if z.lt(det) {
            Some(QMat4 { num: adj.scaled(self.den), den: det })
        } else {
            Some(QMat4 { num: adj.scaled(self.den).opposite(), den: det.neg() })
        }
    }

    fn invert(&mut self) -> (ok: bool) {
        match self.inverted() {
            Some(m) => {
                *self = m;
                true
            },
            None => false,
        }
    }
}

/// The product of a matrix of dimension 4 and a matrix of which every
/// component was multiplied by `k`, or replaced by its additive inverse.
pub proof fn lemma_times_scale4(a: Mat4<int>, b: Mat4<int>, k: int)
    ensures
        a.times(b.scale(k)) == a.times(b).scale(k),
        a.times(b.opposite()) == a.times(b).opposite(),
{
    lemma_dist_left4(a.m11 * b.m11, a.m12 * b.m21, a.m13 * b.m31, a.m14 * b.m41, k);
    lemma_assoc(a.m11, b.m11, k);
    lemma_pairs(a.m11, b.m11);
    lemma_assoc(a.m12, b.m21, k);
    lemma_pairs(a.m12, b.m21);
    lemma_assoc(a.m13, b.m31, k);
    lemma_pairs(a.m13, b.m31);
    lemma_assoc(a.m14, b.m41, k);
    lemma_pairs(a.m14, b.m41);
    lemma_dist_left4(a.m11 * b.m12, a.m12 * b.m22, a.m13 * b.m32, a.m14 * b.m42, k);
    lemma_assoc(a.m11, b.m12, k);
    lemma_pairs(a.m11, b.m12);
    lemma_assoc(a.m12, b.m22, k);
    lemma_pairs(a.m12, b.m22);
    lemma_assoc(a.m13, b.m32, k);
    lemma_pairs(a.m13, b.m32);
    lemma_assoc(a.m14, b.m42, k);
    lemma_pairs(a.m14, b.m42);
    lemma_dist_left4(a.m11 * b.m13, a.m12 * b.m23, a.m13 * b.m33, a.m14 * b.m43, k);
    lemma_assoc(a.m11, b.m13, k);
    lemma_pairs(a.m11, b.m13);
    lemma_assoc(a.m12, b.m23, k);
    lemma_pairs(a.m12, b.m23);
    lemma_assoc(a.m13, b.m33, k);
    lemma_pairs(a.m13, b.m33);
    lemma_assoc(a.m14, b.m43, k);
    lemma_pairs(a.m14, b.m43);
    lemma_dist_left4(a.m11 * b.m14, a.m12 * b.m24, a.m13 * b.m34, a.m14 * b.m44, k);
    lemma_assoc(a.m11, b.m14, k);
    lemma_pairs(a.m11, b.m14);
    lemma_assoc(a.m12, b.m24, k);
    lemma_pairs(a.m12, b.m24);
    lemma_assoc(a.m13, b.m34, k);
    lemma_pairs(a.m13, b.m34);
    lemma_assoc(a.m14, b.m44, k);
    lemma_pairs(a.m14, b.m44);
    lemma_dist_left4(a.m21 * b.m11, a.m22 * b.m21, a.m23 * b.m31, a.m24 * b.m41, k);
    lemma_assoc(a.m21, b.m11, k);
    lemma_pairs(a.m21, b.m11);
    lemma_assoc(a.m22, b.m21, k);
    lemma_pairs(a.m22, b.m21);
    lemma_assoc(a.m23, b.m31, k);
    lemma_pairs(a.m23, b.m31);
    lemma_assoc(a.m24, b.m41, k);
    lemma_pairs(a.m24, b.m41);
    lemma_dist_left4(a.m21 * b.m12, a.m22 * b.m22, a.m23 * b.m32, a.m24 * b.m42, k);
    lemma_assoc(a.m21, b.m12, k);
    lemma_pairs(a.m21, b.m12);
    lemma_assoc(a.m22, b.m22, k);
    lemma_pairs(a.m22, b.m22);
    lemma_assoc(a.m23, b.m32, k);
    lemma_pairs(a.m23, b.m32);
    lemma_assoc(a.m24, b.m42, k);
    lemma_pairs(a.m24, b.m42);
    lemma_dist_left4(a.m21 * b.m13, a.m22 * b.m23, a.m23 * b.m33, a.m24 * b.m43, k);
    lemma_assoc(a.m21, b.m13, k);
    lemma_pairs(a.m21, b.m13);
    lemma_assoc(a.m22, b.m23, k);
    lemma_pairs(a.m22, b.m23);
    lemma_assoc(a.m23, b.m33, k);
    lemma_pairs(a.m23, b.m33);
    lemma_assoc(a.m24, b.m43, k);
    lemma_pairs(a.m24, b.m43);
    lemma_dist_left4(a.m21 * b.m14, a.m22 * b.m24, a.m23 * b.m34, a.m24 * b.m44, k);
    lemma_assoc(a.m21, b.m14, k);
    lemma_pairs(a.m21, b.m14);
    lemma_assoc(a.m22, b.m24, k);
    lemma_pairs(a.m22, b.m24);
    lemma_assoc(a.m23, b.m34, k);
    lemma_pairs(a.m23, b.m34);
    lemma_assoc(a.m24, b.m44, k);
    lemma_pairs(a.m24, b.m44);
    lemma_dist_left4(a.m31 * b.m11, a.m32 * b.m21, a.m33 * b.m31, a.m34 * b.m41, k);
    lemma_assoc(a.m31, b.m11, k);
    lemma_pairs(a.m31, b.m11);
    lemma_assoc(a.m32, b.m21, k);
    lemma_pairs(a.m32, b.m21);
    lemma_assoc(a.m33, b.m31, k);
    lemma_pairs(a.m33, b.m31);
    lemma_assoc(a.m34, b.m41, k);
    lemma_pairs(a.m34, b.m41);
    lemma_dist_left4(a.m31 * b.m12, a.m32 * b.m22, a.m33 * b.m32, a.m34 * b.m42, k);
    lemma_assoc(a.m31, b.m12, k);
    lemma_pairs(a.m31, b.m12);
    lemma_assoc(a.m32, b.m22, k);
    lemma_pairs(a.m32, b.m22);
    lemma_assoc(a.m33, b.m32, k);
    lemma_pairs(a.m33, b.m32);
    lemma_assoc(a.m34, b.m42, k);
    lemma_pairs(a.m34, b.m42);
    lemma_dist_left4(a.m31 * b.m13, a.m32 * b.m23, a.m33 * b.m33, a.m34 * b.m43, k);
    lemma_assoc(a.m31, b.m13, k);
    lemma_pairs(a.m31, b.m13);
    lemma_assoc(a.m32, b.m23, k);
    lemma_pairs(a.m32, b.m23);
    lemma_assoc(a.m33, b.m33, k);
    lemma_pairs(a.m33, b.m33);
    lemma_assoc(a.m34, b.m43, k);
    lemma_pairs(a.m34, b.m43);
    lemma_dist_left4(a.m31 * b.m14, a.m32 * b.m24, a.m33 * b.m34, a.m34 * b.m44, k);
    lemma_assoc(a.m31, b.m14, k);
    lemma_pairs(a.m31, b.m14);
    lemma_assoc(a.m32, b.m24, k);
    lemma_pairs(a.m32, b.m24);
    lemma_assoc(a.m33, b.m34, k);
    lemma_pairs(a.m33, b.m34);
    lemma_assoc(a.m34, b.m44, k);
    lemma_pairs(a.m34, b.m44);
    lemma_dist_left4(a.m41 * b.m11, a.m42 * b.m21, a.m43 * b.m31, a.m44 * b.m41, k);
    lemma_assoc(a.m41, b.m11, k);
    lemma_pairs(a.m41, b.m11);
    lemma_assoc(a.m42, b.m21, k);
    lemma_pairs(a.m42, b.m21);
    lemma_assoc(a.m43, b.m31, k);
    lemma_pairs(a.m43, b.m31);
    lemma_assoc(a.m44, b.m41, k);
    lemma_pairs(a.m44, b.m41);
    lemma_dist_left4(a.m41 * b.m12, a.m42 * b.m22, a.m43 * b.m32, a.m44 * b.m42, k);
    lemma_assoc(a.m41, b.m12, k);
    lemma_pairs(a.m41, b.m12);
    lemma_assoc(a.m42, b.m22, k);
    lemma_pairs(a.m42, b.m22);
    lemma_assoc(a.m43, b.m32, k);
    lemma_pairs(a.m43, b.m32);
    lemma_assoc(a.m44, b.m42, k);
    lemma_pairs(a.m44, b.m42);
    lemma_dist_left4(a.m41 * b.m13, a.m42 * b.m23, a.m43 * b.m33, a.m44 * b.m43, k);
    lemma_assoc(a.m41, b.m13, k);
    lemma_pairs(a.m41, b.m13);
    lemma_assoc(a.m42, b.m23, k);
    lemma_pairs(a.m42, b.m23);
    lemma_assoc(a.m43, b.m33, k);
    lemma_pairs(a.m43, b.m33);
    lemma_assoc(a.m44, b.m43, k);
    lemma_pairs(a.m44, b.m43);
    lemma_dist_left4(a.m41 * b.m14, a.m42 * b.m24, a.m43 * b.m34, a.m44 * b.m44, k);
    lemma_assoc(a.m41, b.m14, k);
    lemma_pairs(a.m41, b.m14);
    lemma_assoc(a.m42, b.m24, k);
    lemma_pairs(a.m42, b.m24);
    lemma_assoc(a.m43, b.m34, k);
    lemma_pairs(a.m43, b.m34);
    lemma_assoc(a.m44, b.m44, k);
    lemma_pairs(a.m44, b.m44);
}

/// The product of a matrix of dimension 4 of which every component was
/// multiplied by `k`, or replaced by its additive inverse, and a matrix.
pub proof fn lemma_scale_times4(a: Mat4<int>, b: Mat4<int>, k: int)
    ensures
        a.scale(k).times(b) == a.times(b).scale(k),
        a.opposite().times(b) == a.times(b).opposite(),
{
    lemma_dist_left4(a.m11 * b.m11, a.m12 * b.m21, a.m13 * b.m31, a.m14 * b.m41, k);
    lemma_scaled_pair(a.m11, k, b.m11, 1);
    lemma_pairs(a.m11, b.m11);
    lemma_scaled_pair(a.m12, k, b.m21, 1);
    lemma_pairs(a.m12, b.m21);
    lemma_scaled_pair(a.m13, k, b.m31, 1);
    lemma_pairs(a.m13, b.m31);
    lemma_scaled_pair(a.m14, k, b.m41, 1);
    lemma_pairs(a.m14, b.m41);
    lemma_dist_left4(a.m11 * b.m12, a.m12 * b.m22, a.m13 * b.m32, a.m14 * b.m42, k);
    lemma_scaled_pair(a.m11, k, b.m12, 1);
    lemma_pairs(a.m11, b.m12);
    lemma_scaled_pair(a.m12, k, b.m22, 1);
    lemma_pairs(a.m12, b.m22);
    lemma_scaled_pair(a.m13, k, b.m32, 1);
    lemma_pairs(a.m13, b.m32);
    lemma_scaled_pair(a.m14, k, b.m42, 1);
    lemma_pairs(a.m14, b.m42);
    lemma_dist_left4(a.m11 * b.m13, a.m12 * b.m23, a.m13 * b.m33, a.m14 * b.m43, k);
    lemma_scaled_pair(a.m11, k, b.m13, 1);
    lemma_pairs(a.m11, b.m13);
    lemma_scaled_pair(a.m12, k, b.m23, 1);
    lemma_pairs(a.m12, b.m23);
    lemma_scaled_pair(a.m13, k, b.m33, 1);
    lemma_pairs(a.m13, b.m33);
    lemma_scaled_pair(a.m14, k, b.m43, 1);
    lemma_pairs(a.m14, b.m43);
    lemma_dist_left4(a.m11 * b.m14, a.m12 * b.m24, a.m13 * b.m34, a.m14 * b.m44, k);
    lemma_scaled_pair(a.m11, k, b.m14, 1);
    lemma_pairs(a.m11, b.m14);
    lemma_scaled_pair(a.m12, k, b.m24, 1);
    lemma_pairs(a.m12, b.m24);
    lemma_scaled_pair(a.m13, k, b.m34, 1);
    lemma_pairs(a.m13, b.m34);
    lemma_scaled_pair(a.m14, k, b.m44, 1);
    lemma_pairs(a.m14, b.m44);
    lemma_dist_left4(a.m21 * b.m11, a.m22 * b.m21, a.m23 * b.m31, a.m24 * b.m41, k);
    lemma_scaled_pair(a.m21, k, b.m11, 1);
    lemma_pairs(a.m21, b.m11);
    lemma_scaled_pair(a.m22, k, b.m21, 1);
    lemma_pairs(a.m22, b.m21);
    lemma_scaled_pair(a.m23, k, b.m31, 1);
    lemma_pairs(a.m23, b.m31);
    lemma_scaled_pair(a.m24, k, b.m41, 1);
    lemma_pairs(a.m24, b.m41);
    lemma_dist_left4(a.m21 * b.m12, a.m22 * b.m22, a.m23 * b.m32, a.m24 * b.m42, k);
    lemma_scaled_pair(a.m21, k, b.m12, 1);
    lemma_pairs(a.m21, b.m12);
    lemma_scaled_pair(a.m22, k, b.m22, 1);
    lemma_pairs(a.m22, b.m22);
    lemma_scaled_pair(a.m23, k, b.m32, 1);
    lemma_pairs(a.m23, b.m32);
    lemma_scaled_pair(a.m24, k, b.m42, 1);
    lemma_pairs(a.m24, b.m42);
    lemma_dist_left4(a.m21 * b.m13, a.m22 * b.m23, a.m23 * b.m33, a.m24 * b.m43, k);
    lemma_scaled_pair(a.m21, k, b.m13, 1);
    lemma_pairs(a.m21, b.m13);
    lemma_scaled_pair(a.m22, k, b.m23, 1);
    lemma_pairs(a.m22, b.m23);
    lemma_scaled_pair(a.m23, k, b.m33, 1);
    lemma_pairs(a.m23, b.m33);
    lemma_scaled_pair(a.m24, k, b.m43, 1);
    lemma_pairs(a.m24, b.m43);
    lemma_dist_left4(a.m21 * b.m14, a.m22 * b.m24, a.m23 * b.m34, a.m24 * b.m44, k);
    lemma_scaled_pair(a.m21, k, b.m14, 1);
    lemma_pairs(a.m21, b.m14);
    lemma_scaled_pair(a.m22, k, b.m24, 1);
    lemma_pairs(a.m22, b.m24);
    lemma_scaled_pair(a.m23, k, b.m34, 1);
    lemma_pairs(a.m23, b.m34);
    lemma_scaled_pair(a.m24, k, b.m44, 1);
    lemma_pairs(a.m24, b.m44);
    lemma_dist_left4(a.m31 * b.m11, a.m32 * b.m21, a.m33 * b.m31, a.m34 * b.m41, k);
    lemma_scaled_pair(a.m31, k, b.m11, 1);
    lemma_pairs(a.m31, b.m11);
    lemma_scaled_pair(a.m32, k, b.m21, 1);
    lemma_pairs(a.m32, b.m21);
    lemma_scaled_pair(a.m33, k, b.m31, 1);
    lemma_pairs(a.m33, b.m31);
    lemma_scaled_pair(a.m34, k, b.m41, 1);
    lemma_pairs(a.m34, b.m41);
    lemma_dist_left4(a.m31 * b.m12, a.m32 * b.m22, a.m33 * b.m32, a.m34 * b.m42, k);
    lemma_scaled_pair(a.m31, k, b.m12, 1);
    lemma_pairs(a.m31, b.m12);
    lemma_scaled_pair(a.m32, k, b.m22, 1);
    lemma_pairs(a.m32, b.m22);
    lemma_scaled_pair(a.m33, k, b.m32, 1);
    lemma_pairs(a.m33, b.m32);
    lemma_scaled_pair(a.m34, k, b.m42, 1);
    lemma_pairs(a.m34, b.m42);
    lemma_dist_left4(a.m31 * b.m13, a.m32 * b.m23, a.m33 * b.m33, a.m34 * b.m43, k);
    lemma_scaled_pair(a.m31, k, b.m13, 1);
    lemma_pairs(a.m31, b.m13);
    lemma_scaled_pair(a.m32, k, b.m23, 1);
    lemma_pairs(a.m32, b.m23);
    lemma_scaled_pair(a.m33, k, b.m33, 1);
    lemma_pairs(a.m33, b.m33);
    lemma_scaled_pair(a.m34, k, b.m43, 1);
    lemma_pairs(a.m34, b.m43);
    lemma_dist_left4(a.m31 * b.m14, a.m32 * b.m24, a.m33 * b.m34, a.m34 * b.m44, k);
    lemma_scaled_pair(a.m31, k, b.m14, 1);
    lemma_pairs(a.m31, b.m14);
    lemma_scaled_pair(a.m32, k, b.m24, 1);
    lemma_pairs(a.m32, b.m24);
    lemma_scaled_pair(a.m33, k, b.m34, 1);
    lemma_pairs(a.m33, b.m34);
    lemma_scaled_pair(a.m34, k, b.m44, 1);
    lemma_pairs(a.m34, b.m44);
    lemma_dist_left4(a.m41 * b.m11, a.m42 * b.m21, a.m43 * b.m31, a.m44 * b.m41, k);
    lemma_scaled_pair(a.m41, k, b.m11, 1);
    lemma_pairs(a.m41, b.m11);
    lemma_scaled_pair(a.m42, k, b.m21, 1);
    lemma_pairs(a.m42, b.m21);
    lemma_scaled_pair(a.m43, k, b.m31, 1);
    lemma_pairs(a.m43, b.m31);
    lemma_scaled_pair(a.m44, k, b.m41, 1);
    lemma_pairs(a.m44, b.m41);
    lemma_dist_left4(a.m41 * b.m12, a.m42 * b.m22, a.m43 * b.m32, a.m44 * b.m42, k);
    lemma_scaled_pair(a.m41, k, b.m12, 1);
    lemma_pairs(a.m41, b.m12);
    lemma_scaled_pair(a.m42, k, b.m22, 1);
    lemma_pairs(a.m42, b.m22);
    lemma_scaled_pair(a.m43, k, b.m32, 1);
    lemma_pairs(a.m43, b.m32);
    lemma_scaled_pair(a.m44, k, b.m42, 1);
    lemma_pairs(a.m44, b.m42);
    lemma_dist_left4(a.m41 * b.m13, a.m42 * b.m23, a.m43 * b.m33, a.m44 * b.m43, k);
    lemma_scaled_pair(a.m41, k, b.m13, 1);
    lemma_pairs(a.m41, b.m13);
    lemma_scaled_pair(a.m42, k, b.m23, 1);
    lemma_pairs(a.m42, b.m23);
    lemma_scaled_pair(a.m43, k, b.m33, 1);
    lemma_pairs(a.m43, b.m33);
    lemma_scaled_pair(a.m44, k, b.m43, 1);
    lemma_pairs(a.m44, b.m43);
    lemma_dist_left4(a.m41 * b.m14, a.m42 * b.m24, a.m43 * b.m34, a.m44 * b.m44, k);
    lemma_scaled_pair(a.m41, k, b.m14, 1);
    lemma_pairs(a.m41, b.m14);
    lemma_scaled_pair(a.m42, k, b.m24, 1);
    lemma_pairs(a.m42, b.m24);
    lemma_scaled_pair(a.m43, k, b.m34, 1);
    lemma_pairs(a.m43, b.m34);
    lemma_scaled_pair(a.m44, k, b.m44, 1);
    lemma_pairs(a.m44, b.m44);
}

/// The determinant of a multiple of the identity matrix of dimension 4 by an
/// integer that is not zero is not zero.
pub proof fn lemma_det_scaled_identity4(d: int)
    requires
        d != 0,
    ensures
        Mat4::<int>::identity().scale(d).det() != 0,
{
    let m = Mat4::<int>::identity().scale(d);
    assert(m.m11 == d);
    assert(m.m12 == 0);
    assert(m.m13 == 0);
    assert(m.m14 == 0);
    assert(m.m21 == 0);
    assert(m.m22 == d);
    assert(m.m23 == 0);
    assert(m.m24 == 0);
    assert(m.m31 == 0);
    assert(m.m32 == 0);
    assert(m.m33 == d);
    assert(m.m34 == 0);
    assert(m.m41 == 0);
    assert(m.m42 == 0);
    assert(m.m43 == 0);
    assert(m.m44 == d);
    let b = m.row2();
    let c = m.row3();
    let e = m.row4();
    let x = b.cross3(c, e);
    assert(x.x == d * (d * d)) by (nonlinear_arith)
        requires
            b.x == 0,
            b.y == d,
            b.z == 0,
            b.w == 0,
            c.x == 0,
            c.y == 0,
            c.z == d,
            c.w == 0,
            e.x == 0,
            e.y == 0,
            e.z == 0,
            e.w == d,
            x.x == b.y * (c.z * e.w - c.w * e.z) - b.z * (c.y * e.w - c.w * e.y) + b.w * (c.y * e.z
                - c.z * e.y),
    ;
    assert(x.y == 0) by (nonlinear_arith)
        requires
            b.x == 0,
            b.y == d,
            b.z == 0,
            b.w == 0,
            c.x == 0,
            c.y == 0,
            c.z == d,
            c.w == 0,
            e.x == 0,
            e.y == 0,
            e.z == 0,
            e.w == d,
            x.y == b.z * (c.x * e.w - c.w * e.x) - b.x * (c.z * e.w - c.w * e.z) - b.w * (c.x * e.z
                - c.z * e.x),
    ;
    assert(x.z == 0) by (nonlinear_arith)
        requires
            b.x == 0,
            b.y == d,
            b.z == 0,
            b.w == 0,
            c.x == 0,
            c.y == 0,
            c.z == d,
            c.w == 0,
            e.x == 0,
            e.y == 0,
            e.z == 0,
            e.w == d,
            x.z == b.x * (c.y * e.w - c.w * e.y) - b.y * (c.x * e.w - c.w * e.x) + b.w * (c.x * e.y
                - c.y * e.x),
    ;
    assert(x.w == 0) by (nonlinear_arith)
        requires
            b.x == 0,
            b.y == d,
            b.z == 0,
            b.w == 0,
            c.x == 0,
            c.y == 0,
            c.z == d,
            c.w == 0,
            e.x == 0,
            e.y == 0,
            e.z == 0,
            e.w == d,
            x.w == b.y * (c.x * e.z - c.z * e.x) - b.x * (c.y * e.z - c.z * e.y) - b.z * (c.x * e.y
                - c.y * e.x),
    ;
    lemma_mul_zero(m.m12, x.y);
    lemma_mul_zero(m.m13, x.z);
    lemma_mul_zero(m.m14, x.w);
    assert(m.m11 * x.x == d * (d * (d * d)));
    lemma_power_nonzero(d);
}

/// The adjugate of a matrix of dimension 4 that is not singular times the
/// matrix is the determinant times the identity.
pub proof fn lemma_adjugate_left4(a: Mat4<int>)
    requires
        a.det() != 0,
    ensures
        a.adjugate().times(a) == Mat4::<int>::identity().scale(a.det()),
{
    let i = Mat4::<int>::identity();
    let o = Vec4::<int>::origin();
    let d = a.det();
    let x = a.adjugate();
    let y = x.adjugate();
    let e = x.det();
    lemma_adjugate4(a);
    lemma_adjugate4(x);
    lemma_diagonal_entries(d);
    lemma_diagonal_entries(e);
    assert(a.times(x) == i.scale(d));
    assert(x.times(y) == i.scale(e));
    lemma_det_times4(a, x);
    lemma_det_scaled_identity4(d);
    if e == 0 {
        lemma_mul_zero(d, e);
    }
    lemma_times_assoc4(a, x, y);
    lemma_scale_times4(i, y, d);
    lemma_times_scale4(a, i, e);
    lemma_times_identity4(y, o);
    lemma_times_identity4(a, o);
    assert(y.scale(d) == a.scale(e));
    lemma_times_scale4(x, a, e);
    lemma_times_scale4(x, y, d);
    let p = x.times(a);
    assert(p.scale(e) == i.scale(e).scale(d));
    lemma_cancel_entry(p.m11, 1, e, d);
    lemma_cancel_entry(p.m12, 0, e, d);
    lemma_cancel_entry(p.m13, 0, e, d);
    lemma_cancel_entry(p.m14, 0, e, d);
    lemma_cancel_entry(p.m21, 0, e, d);
    lemma_cancel_entry(p.m22, 1, e, d);
    lemma_cancel_entry(p.m23, 0, e, d);
    lemma_cancel_entry(p.m24, 0, e, d);
    lemma_cancel_entry(p.m31, 0, e, d);
    lemma_cancel_entry(p.m32, 0, e, d);
    lemma_cancel_entry(p.m33, 1, e, d);
    lemma_cancel_entry(p.m34, 0, e, d);
    lemma_cancel_entry(p.m41, 0, e, d);
    lemma_cancel_entry(p.m42, 0, e, d);
    lemma_cancel_entry(p.m43, 0, e, d);
    lemma_cancel_entry(p.m44, 1, e, d);
}

/// The inverse of a matrix of dimension 4 of fractions that is not singular:
/// its denominator is positive, and the product of the matrix and its
/// inverse, in either order, is the identity.
pub proof fn lemma_inverse_fraction4(m: QMat4Model)
    requires
        m.num.det() != 0,
    ensures
        m.inverse().den >= 1,
        m.is_inverse_of(m.inverse()),
        m.inverse().is_inverse_of(m),
{
    let a = m.num;
    let adj = a.adjugate();
    let d = a.det();
    lemma_adjugate4(a);
    lemma_adjugate_left4(a);
    lemma_times_scale4(a, adj, m.den);
    lemma_times_scale4(a, adj.scale(m.den), 0);
    lemma_scale_times4(adj, a, m.den);
    lemma_scale_times4(adj.scale(m.den), a, 0);
    lemma_diagonal(d, m.den);
    lemma_diagonal(m.den, d);
    lemma_diagonal(m.den, -d);
    lemma_comm(d, m.den);
    lemma_pairs(d, m.den);
    lemma_diagonal_entries(d);
    lemma_diagonal_entries(d * m.den);
    lemma_diagonal_entries(m.den * d);
    lemma_diagonal_entries((-d) * m.den);
}

/// The inverse of a matrix of dimension 4 of fractions that is not singular
/// is not singular, and its inverse stands for the matrix: each, multiplied
/// by the denominator of the other, gives the same matrix.
pub proof fn lemma_inverted_twice_fraction4(m: QMat4Model)
    requires
        m.den >= 1,
        m.num.det() != 0,
    ensures
        m.inverse().num.det() != 0,
        m.inverse().inverse().num.scale(m.den) == m.num.scale(m.inverse().inverse().den),
{
    let x = m.inverse();
    let i = Mat4::<int>::identity();
    let o = Vec4::<int>::origin();
    lemma_inverse_fraction4(m);
    let c = x.den * m.den;
    lemma_nonzero_product(x.den, m.den);
    lemma_det_times4(x.num, m.num);
    lemma_det_scaled_identity4(c);
    if x.num.det() == 0 {
        lemma_mul_zero(x.num.det(), m.num.det());
    }
    let y = x.inverse();
    lemma_inverse_fraction4(x);
    lemma_times_assoc4(m.num, x.num, y.num);
    lemma_scale_times4(i, y.num, m.den * x.den);
    lemma_times_scale4(m.num, i, x.den * y.den);
    lemma_times_identity4(y.num, o);
    lemma_times_identity4(m.num, o);
    assert(y.num.scale(m.den * x.den) == m.num.scale(x.den * y.den));
    lemma_cancel_common(y.num.m11, m.den, m.num.m11, y.den, x.den);
    lemma_cancel_common(y.num.m12, m.den, m.num.m12, y.den, x.den);
    lemma_cancel_common(y.num.m13, m.den, m.num.m13, y.den, x.den);
    lemma_cancel_common(y.num.m14, m.den, m.num.m14, y.den, x.den);
    lemma_cancel_common(y.num.m21, m.den, m.num.m21, y.den, x.den);
    lemma_cancel_common(y.num.m22, m.den, m.num.m22, y.den, x.den);
    lemma_cancel_common(y.num.m23, m.den, m.num.m23, y.den, x.den);
    lemma_cancel_common(y.num.m24, m.den, m.num.m24, y.den, x.den);
    lemma_cancel_common(y.num.m31, m.den, m.num.m31, y.den, x.den);
    lemma_cancel_common(y.num.m32, m.den, m.num.m32, y.den, x.den);
    lemma_cancel_common(y.num.m33, m.den, m.num.m33, y.den, x.den);
    lemma_cancel_common(y.num.m34, m.den, m.num.m34, y.den, x.den);
    lemma_cancel_common(y.num.m41, m.den, m.num.m41, y.den, x.den);
    lemma_cancel_common(y.num.m42, m.den, m.num.m42, y.den, x.den);
    lemma_cancel_common(y.num.m43, m.den, m.num.m43, y.den, x.den);
    lemma_cancel_common(y.num.m44, m.den, m.num.m44, y.den, x.den);
}

} // verus!
