//! Capabilities: one narrow trait for each family of geometric operations.
//!
//! Every geometric type has a view, its mathematical model over the
//! integers. A capability states each of its operations twice: as a spec
//! function on models, which says what the operation computes, and as an
//! executable method, which computes it on the type's own representation.
//! A spec function whose name ends in `_fits` says when every intermediate
//! result of the executable method is representable in the scalar type; the
//! method requires it.
use crate::scalar::{Algebraic, Scalar};
use vstd::prelude::*;

verus! {

/// Types with a fixed number of components.
pub trait Dim {
    /// The number of components.
    spec fn dim_model() -> nat;

    /// The number of components.
    fn dim() -> (r: usize)
        ensures
            r == Self::dim_model(),
    ;
}

/// Objects with an additive inverse.
pub trait Negate: Sized + View {
    spec fn neg_fits(v: Self::V) -> bool;

    spec fn neg_model(v: Self::V) -> Self::V;

    /// The additive inverse of `self`.
    fn negated(&self) -> (r: Self)
        requires
            Self::neg_fits(self@),
        ensures
            r@ == Self::neg_model(self@),
    ;
}

/// Objects that hold a translation, which can be read, added to and replaced.
pub trait Translation<V: View>: Sized + View {
    spec fn translation_model(m: Self::V) -> V::V;

    spec fn inv_translation_fits(m: Self::V) -> bool;

    spec fn inv_translation_model(m: Self::V) -> V::V;

    spec fn translated_fits(m: Self::V, v: V::V) -> bool;

    spec fn translated_model(m: Self::V, v: V::V) -> Self::V;

    spec fn set_translation_model(m: Self::V, v: V::V) -> Self::V;

    /// The translation that `self` applies.
    fn translation(&self) -> (r: V)
        ensures
            r@ == Self::translation_model(self@),
    ;

    /// The additive inverse of the translation that `self` applies.
    fn inv_translation(&self) -> (r: V)
        requires
            Self::inv_translation_fits(self@),
        ensures
            r@ == Self::inv_translation_model(self@),
    ;

    /// Adds `v` to the translation of `self`.
    fn translate_by(&mut self, v: &V)
        requires
            Self::translated_fits(old(self)@, v@),
        ensures
            final(self)@ == Self::translated_model(old(self)@, v@),
    ;

    /// A copy of `self` with `v` added to its translation.
    fn translated(&self, v: &V) -> (r: Self)
        requires
            Self::translated_fits(self@, v@),
        ensures
            r@ == Self::translated_model(self@, v@),
    ;

    /// Replaces the translation of `self` by `v`.
    fn set_translation(&mut self, v: V)
        ensures
            final(self)@ == Self::set_translation_model(old(self)@, v@),
    ;
}

/// Objects that translate points, without change to their own state.
pub trait Translate<V: View>: Sized + View {
    spec fn translate_fits(m: Self::V, v: V::V) -> bool;

    spec fn translate_model(m: Self::V, v: V::V) -> V::V;

    spec fn inv_translate_fits(m: Self::V, v: V::V) -> bool;

    spec fn inv_translate_model(m: Self::V, v: V::V) -> V::V;

    /// The point `v` moved by the translation of `self`.
    fn translate(&self, v: &V) -> (r: V)
        requires
            Self::translate_fits(self@, v@),
        ensures
            r@ == Self::translate_model(self@, v@),
    ;

    /// The point `v` moved back by the translation of `self`.
    fn inv_translate(&self, v: &V) -> (r: V)
        requires
            Self::inv_translate_fits(self@, v@),
        ensures
            r@ == Self::inv_translate_model(self@, v@),
    ;
}

/// Objects that hold a rotation, which can be read, composed and replaced.
pub trait Rotation<V: View>: Sized + View {
    spec fn rotation_model(m: Self::V) -> V::V;

    spec fn inv_rotation_fits(m: Self::V) -> bool;

    spec fn inv_rotation_model(m: Self::V) -> V::V;

    spec fn rotated_fits(m: Self::V, v: V::V) -> bool;

    spec fn rotated_model(m: Self::V, v: V::V) -> Self::V;

    spec fn set_rotation_model(m: Self::V, v: V::V) -> Self::V;

    /// The rotation that `self` applies.
    fn rotation(&self) -> (r: V)
        ensures
            r@ == Self::rotation_model(self@),
    ;

    /// The inverse of the rotation that `self` applies.
    fn inv_rotation(&self) -> (r: V)
        requires
            Self::inv_rotation_fits(self@),
        ensures
            r@ == Self::inv_rotation_model(self@),
    ;

    /// Composes `self` with the rotation `v`: `v` applies after `self`.
    fn rotate_by(&mut self, v: &V)
        requires
            Self::rotated_fits(old(self)@, v@),
        ensures
            final(self)@ == Self::rotated_model(old(self)@, v@),
    ;

    /// A copy of `self` composed with the rotation `v`.
    fn rotated(&self, v: &V) -> (r: Self)
        requires
            Self::rotated_fits(self@, v@),
        ensures
            r@ == Self::rotated_model(self@, v@),
    ;

    /// Replaces the rotation of `self` by `v`.
    fn set_rotation(&mut self, v: V)
        ensures
            final(self)@ == Self::set_rotation_model(old(self)@, v@),
    ;
}

/// Objects that rotate vectors, without change to their own state.
pub trait Rotate<V: View>: Sized + View {
    spec fn rotate_fits(m: Self::V, v: V::V) -> bool;

    spec fn rotate_model(m: Self::V, v: V::V) -> V::V;

    spec fn inv_rotate_fits(m: Self::V, v: V::V) -> bool;

    spec fn inv_rotate_model(m: Self::V, v: V::V) -> V::V;

    /// The vector `v` turned by the rotation of `self`.
    fn rotate(&self, v: &V) -> (r: V)
        requires
            Self::rotate_fits(self@, v@),
        ensures
            r@ == Self::rotate_model(self@, v@),
    ;

    /// The vector `v` turned back by the rotation of `self`.
    fn inv_rotate(&self, v: &V) -> (r: V)
        requires
            Self::inv_rotate_fits(self@, v@),
        ensures
            r@ == Self::inv_rotate_model(self@, v@),
    ;
}

/// Whether every step of a rotation of `m` by `amount` about `center` is
/// representable.
pub open spec fn rotated_wrt_point_fits<M: Rotation<AV> + Translation<LV>, LV: Negate, AV: View>(
    m: M::V,
    amount: AV::V,
    center: LV::V,
) -> bool {
    let back = LV::neg_model(center);
    let moved = M::translated_model(m, back);
    let turned = M::rotated_model(moved, amount);
    &&& LV::neg_fits(center)
    &&& M::translated_fits(m, back)
    &&& M::rotated_fits(moved, amount)
    &&& M::translated_fits(turned, center)
}

/// The object `m` rotated by `amount` about `center`: translated by the
/// inverse of `center`, rotated about the origin, and translated by `center`.
pub open spec fn rotated_wrt_point_model<M: Rotation<AV> + Translation<LV>, LV: Negate, AV: View>(
    m: M::V,
    amount: AV::V,
    center: LV::V,
) -> M::V {
    M::translated_model(
        M::rotated_model(M::translated_model(m, LV::neg_model(center)), amount),
        center,
    )
}

/// Objects that hold both a rotation and a translation, and so can be
/// rotated about any point.
///
/// To rotate about `center` is to translate by the inverse of `center`,
/// rotate about the origin, and translate by `center`, in this order. To
/// rotate about the centre is to rotate about the object's own translation.
pub trait RotationWithTranslation<LV: Negate, AV: View>: Rotation<AV> + Translation<LV> {
    /// A copy of `self` rotated by `amount` about `center`.
    fn rotated_wrt_point(&self, amount: &AV, center: &LV) -> (r: Self)
        requires
            rotated_wrt_point_fits::<Self, LV, AV>(self@, amount@, center@),
        ensures
            r@ == rotated_wrt_point_model::<Self, LV, AV>(self@, amount@, center@),
    {
        let back = center.negated();
        let mut res = self.translated(&back);
        res.rotate_by(amount);
        res.translate_by(center);
        res
    }

    /// Rotates `self` by `amount` about `center`.
    fn rotate_wrt_point(&mut self, amount: &AV, center: &LV)
        requires
            rotated_wrt_point_fits::<Self, LV, AV>(old(self)@, amount@, center@),
        ensures
            final(self)@ == rotated_wrt_point_model::<Self, LV, AV>(old(self)@, amount@, center@),
    {
        let back = center.negated();
        self.translate_by(&back);
        self.rotate_by(amount);
        self.translate_by(center);
    }

    /// A copy of `self` rotated by `amount` about its own translation.
    fn rotated_wrt_center(&self, amount: &AV) -> (r: Self)
        requires
            rotated_wrt_point_fits::<Self, LV, AV>(self@, amount@, Self::translation_model(self@)),
        ensures
            r@ == rotated_wrt_point_model::<Self, LV, AV>(
                self@,
                amount@,
                Self::translation_model(self@),
            ),
    {
        let center = self.translation();
        self.rotated_wrt_point(amount, &center)
    }

    /// Rotates `self` by `amount` about its own translation.
    fn rotate_wrt_center(&mut self, amount: &AV)
        requires
            rotated_wrt_point_fits::<Self, LV, AV>(
                old(self)@,
                amount@,
                Self::translation_model(old(self)@),
            ),
        ensures
            final(self)@ == rotated_wrt_point_model::<Self, LV, AV>(
                old(self)@,
                amount@,
                Self::translation_model(old(self)@),
            ),
    {
        let center = self.translation();
        self.rotate_wrt_point(amount, &center)
    }
}

/// Objects that multiply a vector from the left: `self * v`.
pub trait RMul<V: View>: Sized + View {
    spec fn rmul_fits(m: Self::V, v: V::V) -> bool;

    spec fn rmul_model(m: Self::V, v: V::V) -> V::V;

    /// The product `self * v`, with `v` as a column.
    fn rmul(&self, v: &V) -> (r: V)
        requires
            Self::rmul_fits(self@, v@),
        ensures
            r@ == Self::rmul_model(self@, v@),
    ;
}

/// Objects that multiply a vector from the right: `v * self`.
pub trait LMul<V: View>: Sized + View {
    spec fn lmul_fits(m: Self::V, v: V::V) -> bool;

    spec fn lmul_model(m: Self::V, v: V::V) -> V::V;

    /// The product `v * self`, with `v` as a row.
    fn lmul(&self, v: &V) -> (r: V)
        requires
            Self::lmul_fits(self@, v@),
        ensures
            r@ == Self::lmul_model(self@, v@),
    ;
}

/// Matrices with rows of type `R` and columns of type `C`.
pub trait Mat<R: View, C: View>: RMul<R> + LMul<C> {
}

/// Rotations that have an explicit orthogonal matrix form `R`.
pub trait RotationMatrix<LV: View, AV: View, R: Mat<LV, LV> + Rotation<AV>>: Rotation<AV> {
    spec fn to_rot_mat_model(m: Self::V) -> R::V;

    /// The rotation of `self` as an orthogonal matrix.
    fn to_rot_mat(&self) -> (r: R)
        ensures
            r@ == Self::to_rot_mat_model(self@),
    ;
}

/// Objects that rotate vectors by the absolute value of their rotation.
pub trait AbsoluteRotate<V: View>: Sized + View {
    spec fn absolute_rotate_fits(m: Self::V, v: V::V) -> bool;

    spec fn absolute_rotate_model(m: Self::V, v: V::V) -> V::V;

    /// The vector `v` multiplied by the component-wise absolute value of
    /// the rotation matrix of `self`.
    fn absolute_rotate(&self, v: &V) -> (r: V)
        requires
            Self::absolute_rotate_fits(self@, v@),
        ensures
            r@ == Self::absolute_rotate_model(self@, v@),
    ;
}

/// Objects that hold a rigid transformation, which can be read, composed
/// and replaced.
pub trait Transformation<V: View>: Sized + View {
    spec fn transformation_model(m: Self::V) -> V::V;

    spec fn inv_transformation_fits(m: Self::V) -> bool;

    spec fn inv_transformation_model(m: Self::V) -> V::V;

    spec fn transformed_fits(m: Self::V, v: V::V) -> bool;

    spec fn transformed_model(m: Self::V, v: V::V) -> Self::V;

    spec fn set_transformation_model(m: Self::V, v: V::V) -> Self::V;

    /// The transformation that `self` applies.
    fn transformation(&self) -> (r: V)
        ensures
            r@ == Self::transformation_model(self@),
    ;

    /// The inverse of the transformation that `self` applies.
    fn inv_transformation(&self) -> (r: V)
        requires
            Self::inv_transformation_fits(self@),
        ensures
            r@ == Self::inv_transformation_model(self@),
    ;

    /// Composes `self` with the transformation `v`: `v` applies after `self`.
    fn transform_by(&mut self, v: &V)
        requires
            Self::transformed_fits(old(self)@, v@),
        ensures
            final(self)@ == Self::transformed_model(old(self)@, v@),
    ;

    /// A copy of `self` composed with the transformation `v`.
    fn transformed(&self, v: &V) -> (r: Self)
        requires
            Self::transformed_fits(self@, v@),
        ensures
            r@ == Self::transformed_model(self@, v@),
    ;

    /// Replaces the transformation of `self` by `v`.
    fn set_transformation(&mut self, v: V)
        ensures
            final(self)@ == Self::set_transformation_model(old(self)@, v@),
    ;
}

/// Objects that transform points, without change to their own state.
pub trait Transform<V: View>: Sized + View {
    spec fn transform_fits(m: Self::V, v: V::V) -> bool;

    spec fn transform_model(m: Self::V, v: V::V) -> V::V;

    spec fn inv_transform_fits(m: Self::V, v: V::V) -> bool;

    spec fn inv_transform_model(m: Self::V, v: V::V) -> V::V;

    /// The point `v` after the transformation of `self`.
    fn transform(&self, v: &V) -> (r: V)
        requires
            Self::transform_fits(self@, v@),
        ensures
            r@ == Self::transform_model(self@, v@),
    ;

    /// The point that the transformation of `self` takes to `v`.
    fn inv_transform(&self, v: &V) -> (r: V)
        requires
            Self::inv_transform_fits(self@, v@),
        ensures
            r@ == Self::inv_transform_model(self@, v@),
    ;
}

/// Vectors with an inner product.
pub trait Dot<N: Scalar>: Sized + View {
    spec fn dot_fits(a: Self::V, b: Self::V) -> bool;

    spec fn dot_model(a: Self::V, b: Self::V) -> int;

    spec fn sub_dot_fits(a: Self::V, b: Self::V, c: Self::V) -> bool;

    spec fn sub_dot_model(a: Self::V, b: Self::V, c: Self::V) -> int;

    /// The inner product is symmetric.
    proof fn lemma_dot_symmetric(a: Self::V, b: Self::V)
        ensures
            Self::dot_model(a, b) == Self::dot_model(b, a),
    ;

    /// The inner product of `self` and `o`.
    fn dot(&self, o: &Self) -> (r: N)
        requires
            Self::dot_fits(self@, o@),
        ensures
            r.val() == Self::dot_model(self@, o@),
    ;

    /// The inner product of `self - b` and `c`, computed without the
    /// difference vector.
    fn sub_dot(&self, b: &Self, c: &Self) -> (r: N)
        requires
            Self::sub_dot_fits(self@, b@, c@),
        ensures
            r.val() == Self::sub_dot_model(self@, b@, c@),
    ;
}

/// Vectors with a Euclidean norm, given as a scalar of type `N`.
///
/// The squared norm of a vector is its inner product with itself, and the
/// norm is the square root of the squared norm. To normalize is to scale
/// the vector by a positive factor so that its norm is one; the zero vector,
/// which has no direction, is left as it is, and its norm, zero, is what
/// `normalize` returns. A type states in `norm_fits` and `normalized_fits`
/// which vectors have a norm and a normalized form that it can hold, and in
/// `is_norm` how close the norm that it returns is to the square root.
pub trait Norm<N>: Sized + View {
    spec fn norm_fits(v: Self::V) -> bool;

    /// Whether `r` is the squared norm of `v`.
    spec fn is_sqnorm(v: Self::V, r: N) -> bool;

    /// Whether `r` is the norm of `v`, as the type gives it.
    spec fn is_norm(v: Self::V, r: N) -> bool;

    spec fn normalized_fits(v: Self::V) -> bool;

    spec fn normalized_model(v: Self::V) -> Self::V;

    /// The squared norm of `self`.
    fn sqnorm(&self) -> (r: N)
        requires
            Self::norm_fits(self@),
        ensures
            Self::is_sqnorm(self@, r),
    ;

    /// The norm of `self`.
    fn norm(&self) -> (r: N)
        requires
            Self::norm_fits(self@),
        ensures
            Self::is_norm(self@, r),
    ;

    /// A normalized copy of `self`.
    fn normalized(&self) -> (r: Self)
        requires
            Self::normalized_fits(self@),
        ensures
            r@ == Self::normalized_model(self@),
    ;

    /// Normalizes `self` and returns the norm it had before.
    fn normalize(&mut self) -> (r: N)
        requires
            Self::normalized_fits(old(self)@),
        ensures
            Self::is_norm(old(self)@, r),
            final(self)@ == Self::normalized_model(old(self)@),
    ;
}

/// Vectors with a cross product of type `V`.
pub trait Cross<V: View>: Sized + View {
    spec fn cross_fits(a: Self::V, b: Self::V) -> bool;

    spec fn cross_model(a: Self::V, b: Self::V) -> V::V;

    /// The cross product of `self` and `o`.
    fn cross(&self, o: &Self) -> (r: V)
        requires
            Self::cross_fits(self@, o@),
        ensures
            r@ == Self::cross_model(self@, o@),
    ;
}

/// Vectors whose cross product is the action of a matrix of type `M`.
pub trait CrossMatrix<M: View>: Sized + View {
    spec fn cross_matrix_fits(v: Self::V) -> bool;

    spec fn cross_matrix_model(v: Self::V) -> M::V;

    /// The matrix that takes every vector `w` to the cross product of
    /// `self` and `w`.
    fn cross_matrix(&self) -> (r: M)
        requires
            Self::cross_matrix_fits(self@),
        ensures
            r@ == Self::cross_matrix_model(self@),
    ;
}

/// Objects with a homogeneous form of type `U`, one dimension larger.
pub trait ToHomogeneous<U: View>: Sized + View {
    spec fn to_homogeneous_model(m: Self::V) -> U::V;

    /// The homogeneous form of `self`.
    fn to_homogeneous(&self) -> (r: U)
        ensures
            r@ == Self::to_homogeneous_model(self@),
    ;
}

/// Objects that can be read back from a homogeneous form of type `U`.
pub trait FromHomogeneous<U: View>: Sized + View {
    /// Whether `m` can be read back as an object of this type.
    spec fn from_fits(m: U::V) -> bool;

    spec fn from_model(m: U::V) -> Self::V;

    /// The object whose homogeneous form is `m`.
    fn from(m: &U) -> (r: Self)
        requires
            Self::from_fits(m@),
        ensures
            r@ == Self::from_model(m@),
    ;
}

/// Objects whose components are read and written by an index of type `I`.
pub trait Indexable<I, N: Scalar>: Sized + View {
    /// Whether `i` is the index of a component.
    spec fn index_in_range(i: I) -> bool;

    spec fn at_model(v: Self::V, i: I) -> int;

    spec fn set_model(v: Self::V, i: I, x: int) -> Self::V;

    /// The component that was written is the component that is read.
    proof fn lemma_at_set(v: Self::V, i: I, x: int)
        requires
            Self::index_in_range(i),
        ensures
            Self::at_model(Self::set_model(v, i, x), i) == x,
    ;

    /// The component of index `i`.
    fn at(&self, i: I) -> (r: N)
        requires
            Self::index_in_range(i),
        ensures
            r.val() == Self::at_model(self@, i),
    ;

    /// Replaces the component of index `i` by `x`.
    fn set(&mut self, i: I, x: N)
        requires
            Self::index_in_range(i),
        ensures
            final(self)@ == Self::set_model(old(self)@, i, x.val()),
    ;

    /// Lets the components of index `i` and `j` change places.
    fn swap(&mut self, i: I, j: I)
        requires
            Self::index_in_range(i),
            Self::index_in_range(j),
        ensures
            final(self)@ == Self::set_model(
                Self::set_model(old(self)@, i, Self::at_model(old(self)@, j)),
                j,
                Self::at_model(old(self)@, i),
            ),
    ;
}

/// Matrices whose rows, of type `R`, are read and written.
pub trait Row<R: View>: Sized + View {
    spec fn num_rows_model() -> nat;

    spec fn row_model(m: Self::V, i: int) -> R::V;

    spec fn set_row_model(m: Self::V, i: int, r: R::V) -> Self::V;

    /// The number of rows.
    fn num_rows(&self) -> (n: usize)
        ensures
            n == Self::num_rows_model(),
    ;

    /// The row of index `i`.
    fn row(&self, i: usize) -> (r: R)
        requires
            i < Self::num_rows_model(),
        ensures
            r@ == Self::row_model(self@, i as int),
    ;

    /// Replaces the row of index `i` by `r`.
    fn set_row(&mut self, i: usize, r: R)
        requires
            i < Self::num_rows_model(),
        ensures
            final(self)@ == Self::set_row_model(old(self)@, i as int, r@),
    ;
}

/// Matrices whose columns, of type `C`, are read and written.
pub trait Col<C: View>: Sized + View {
    spec fn num_cols_model() -> nat;

    spec fn col_model(m: Self::V, j: int) -> C::V;

    spec fn set_col_model(m: Self::V, j: int, c: C::V) -> Self::V;

    /// The number of columns.
    fn num_cols(&self) -> (n: usize)
        ensures
            n == Self::num_cols_model(),
    ;

    /// The column of index `j`.
    fn col(&self, j: usize) -> (c: C)
        requires
            j < Self::num_cols_model(),
        ensures
            c@ == Self::col_model(self@, j as int),
    ;

    /// Replaces the column of index `j` by `c`.
    fn set_col(&mut self, j: usize, c: C)
        requires
            j < Self::num_cols_model(),
        ensures
            final(self)@ == Self::set_col_model(old(self)@, j as int, c@),
    ;
}

/// Objects to every component of which a scalar can be added.
pub trait ScalarAdd<N: Scalar>: Sized + View {
    spec fn scalar_add_fits(v: Self::V, n: int) -> bool;

    spec fn scalar_add_model(v: Self::V, n: int) -> Self::V;

    /// A copy of `self` with `n` added to every component.
    fn scalar_add(&self, n: &N) -> (r: Self)
        requires
            Self::scalar_add_fits(self@, n.val()),
        ensures
            r@ == Self::scalar_add_model(self@, n.val()),
    ;

    /// Adds `n` to every component of `self`.
    fn scalar_add_inplace(&mut self, n: &N)
        requires
            Self::scalar_add_fits(old(self)@, n.val()),
        ensures
            final(self)@ == Self::scalar_add_model(old(self)@, n.val()),
    ;
}

/// Objects from every component of which a scalar can be taken.
pub trait ScalarSub<N: Scalar>: Sized + View {
    spec fn scalar_sub_fits(v: Self::V, n: int) -> bool;

    spec fn scalar_sub_model(v: Self::V, n: int) -> Self::V;

    /// A copy of `self` with `n` taken from every component.
    fn scalar_sub(&self, n: &N) -> (r: Self)
        requires
            Self::scalar_sub_fits(self@, n.val()),
        ensures
            r@ == Self::scalar_sub_model(self@, n.val()),
    ;

    /// Takes `n` from every component of `self`.
    fn scalar_sub_inplace(&mut self, n: &N)
        requires
            Self::scalar_sub_fits(old(self)@, n.val()),
        ensures
            final(self)@ == Self::scalar_sub_model(old(self)@, n.val()),
    ;
}

/// Objects whose components can be gone through in order.
pub trait Iterable<N: Scalar>: Sized + View {
    /// The components, in order.
    spec fn components_model(v: Self::V) -> Seq<int>;

    /// The components of `self`, in order.
    fn components(&self) -> (r: Vec<N>)
        ensures
            r@.len() == Self::components_model(self@).len(),
            forall|i: int|
                0 <= i < r@.len() ==> (#[trigger] r@[i]).val() == Self::components_model(self@)[i],
    ;
}

/// Objects whose components can be gone through and replaced in order.
pub trait IterableMut<N: Scalar>: Iterable<N> {
    /// Replaces the components of `self` by `c`, in order.
    fn set_components(&mut self, c: &Vec<N>)
        requires
            c@.len() == Self::components_model(old(self)@).len(),
        ensures
            Self::components_model(final(self)@).len() == c@.len(),
            forall|i: int|
                0 <= i < c@.len() ==> Self::components_model(final(self)@)[i] == (
                #[trigger] c@[i]).val(),
    ;
}

/// Vectors that can sample the unit sphere of their space.
pub trait UniformSphereSample: Sized {
    /// The sample points, in the order in which they are produced.
    spec fn sample_points() -> Seq<Self>;

    /// The sample points.
    fn sample() -> (r: Vec<Self>)
        ensures
            r@ == Self::sample_points(),
    ;
}

/// Objects with a component-wise absolute value of type `A`.
pub trait Absolute<A: View>: Sized + View {
    spec fn absolute_fits(m: Self::V) -> bool;

    spec fn absolute_model(m: Self::V) -> A::V;

    /// The component-wise absolute value of `self`.
    fn absolute(&self) -> (r: A)
        requires
            Self::absolute_fits(self@),
        ensures
            r@ == Self::absolute_model(self@),
    ;
}

/// Objects that may have a multiplicative inverse.
///
/// An object is invertible unless it is singular. A type states in
/// `inv_fits` which inverses it can hold: a matrix of integers holds the
/// inverse of a matrix of determinant `1` or `-1`, and a matrix of fractions
/// holds the inverse of every matrix that is not singular.
pub trait Inv: Sized + View {
    spec fn inv_fits(m: Self::V) -> bool;

    spec fn invertible(m: Self::V) -> bool;

    spec fn inverse_model(m: Self::V) -> Self::V;

    /// The inverse of `self`, or `None` where `self` is not invertible.
    fn inverted(&self) -> (r: Option<Self>)
        requires
            Self::inv_fits(self@),
        ensures
            r.is_some() == Self::invertible(self@),
            r matches Some(x) ==> x@ == Self::inverse_model(self@),
    ;

    /// Replaces `self` by its inverse and returns `true`, or returns `false`
    /// and leaves `self` as it is where `self` is not invertible.
    fn invert(&mut self) -> (ok: bool)
        requires
            Self::inv_fits(old(self)@),
        ensures
            ok == Self::invertible(old(self)@),
            ok ==> final(self)@ == Self::inverse_model(old(self)@),
            !ok ==> *final(self) == *old(self),
    ;
}

/// Objects that can be transposed.
pub trait Transpose: Sized + View {
    spec fn transposed_model(m: Self::V) -> Self::V;

    /// Transposition is an involution.
    proof fn lemma_transpose_involution(m: Self::V)
        ensures
            Self::transposed_model(Self::transposed_model(m)) == m,
    ;

    /// The transpose of `self`.
    fn transposed(&self) -> (r: Self)
        ensures
            r@ == Self::transposed_model(self@),
    ;

    /// Replaces `self` by its transpose.
    fn transpose(&mut self)
        ensures
            final(self)@ == Self::transposed_model(old(self)@),
    ;
}

/// Vectors with an outer product of type `M`.
pub trait Outer<M: View>: Sized + View {
    spec fn outer_fits(a: Self::V, b: Self::V) -> bool;

    spec fn outer_model(a: Self::V, b: Self::V) -> M::V;

    /// The outer product of `self`, as a column, and `o`, as a row.
    fn outer(&self, o: &Self) -> (r: M)
        requires
            Self::outer_fits(self@, o@),
        ensures
            r@ == Self::outer_model(self@, o@),
    ;
}

/// Sets of observations with a covariance matrix of type `M`.
pub trait Cov<M: View>: Sized + View {
    spec fn cov_fits(m: Self::V) -> bool;

    spec fn cov_model(m: Self::V) -> M::V;

    /// The covariance matrix of the observations, one observation a row.
    fn cov(&self) -> (r: M)
        requires
            Self::cov_fits(self@),
        ensures
            r@ == Self::cov_model(self@),
    ;
}

/// Sets of observations with a mean of type `N`.
pub trait Mean<N: View>: Sized + View {
    spec fn mean_fits(m: Self::V) -> bool;

    spec fn mean_model(m: Self::V) -> N::V;

    /// The mean of the observations, one observation a row.
    fn mean(&self) -> (r: N)
        requires
            Self::mean_fits(self@),
        ensures
            r@ == Self::mean_model(self@),
    ;
}

/// Matrices that convert to a matrix `M` of the same shape over another
/// scalar type.
pub trait MatCast<M: View>: Sized + View {
    spec fn cast_fits(m: Self::V) -> bool;

    spec fn cast_model(m: Self::V) -> M::V;

    /// The matrix `m` over the scalar type of `M`.
    fn from(m: Self) -> (r: M)
        requires
            Self::cast_fits(m@),
        ensures
            r@ == Self::cast_model(m@),
    ;
}

/// Vectors that convert to a vector `V` of the same dimension over another
/// scalar type.
pub trait VecCast<V: View>: Sized + View {
    spec fn cast_fits(v: Self::V) -> bool;

    spec fn cast_model(v: Self::V) -> V::V;

    /// The vector `v` over the scalar type of `V`.
    fn from(v: Self) -> (r: V)
        requires
            Self::cast_fits(v@),
        ensures
            r@ == Self::cast_model(v@),
    ;
}

/// Vectors that can enumerate bases of their space.
pub trait Basis: Sized + View {
    /// The canonical basis, in the order of the axes.
    spec fn canonical_basis_seq() -> Seq<Self>;

    spec fn orthonormal_subspace_basis_fits(v: Self::V) -> bool;

    /// A basis of the subspace orthogonal to `v`.
    spec fn orthonormal_subspace_basis_model(v: Self::V) -> Seq<Self::V>;

    /// The vectors of the canonical basis.
    fn canonical_basis_list() -> (r: Vec<Self>)
        ensures
            r@ == Self::canonical_basis_seq(),
    ;

    /// The vectors of a basis of the subspace orthogonal to `self`.
    fn orthonormal_subspace_basis_list(&self) -> (r: Vec<Self>)
        requires
            Self::orthonormal_subspace_basis_fits(self@),
        ensures
            r@.len() == Self::orthonormal_subspace_basis_model(self@).len(),
            forall|i: int|
                0 <= i < r@.len() ==> (#[trigger] r@[i])@
                    == Self::orthonormal_subspace_basis_model(self@)[i],
    ;
}

} // verus!
