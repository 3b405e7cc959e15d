//! Components by index, rows and columns, and scalars added to every
//! component, for the vectors and matrices of dimension one to six.
use crate::matrix::{Mat1, Mat2, Mat3, Mat4, Mat5, Mat6};
use crate::scalar::Scalar;
use crate::traits::{Col, Indexable, Iterable, IterableMut, Row, ScalarAdd, ScalarSub};
use crate::vector::{Vec1, Vec2, Vec3, Vec4, Vec5, Vec6};
use vstd::prelude::*;

verus! {

impl<N: Scalar> Indexable<usize, N> for Vec1<N> {
    open spec fn index_in_range(i: usize) -> bool {
        i < 1
    }

    open spec fn at_model(v: Vec1<int>, i: usize) -> int {
        v.x
    }

    open spec fn set_model(v: Vec1<int>, i: usize, x: int) -> Vec1<int> {
        Vec1 { x: x, ..v }
    }

    proof fn lemma_at_set(v: Vec1<int>, i: usize, x: int) {
    }

    fn at(&self, i: usize) -> (r: N) {
        self.x
    }

    fn set(&mut self, i: usize, x: N) {
        self.x = x;
    }

    fn swap(&mut self, i: usize, j: usize) {
        let a = self.at(i);
        let b = self.at(j);
        self.set(i, b);
        self.set(j, a);
    }
}

impl<N: Scalar> ScalarAdd<N> for Vec1<N> {
    open spec fn scalar_add_fits(v: Vec1<int>, n: int) -> bool {
        Self::scalar_add_model(v, n).fits::<N>()
    }

    open spec fn scalar_add_model(v: Vec1<int>, n: int) -> Vec1<int> {
        Vec1 { x: v.x + n }
    }

    fn scalar_add(&self, n: &N) -> (r: Self) {
        Vec1 { x: self.x.plus(*n) }
    }

    fn scalar_add_inplace(&mut self, n: &N) {
        *self = self.scalar_add(n);
    }
}

impl<N: Scalar> ScalarSub<N> for Vec1<N> {
    open spec fn scalar_sub_fits(v: Vec1<int>, n: int) -> bool {
        Self::scalar_sub_model(v, n).fits::<N>()
    }

    open spec fn scalar_sub_model(v: Vec1<int>, n: int) -> Vec1<int> {
        Vec1 { x: v.x - n }
    }

    fn scalar_sub(&self, n: &N) -> (r: Self) {
        Vec1 { x: self.x.minus(*n) }
    }

    fn scalar_sub_inplace(&mut self, n: &N) {
        *self = self.scalar_sub(n);
    }
}

impl<N: Scalar> Iterable<N> for Vec1<N> {
    open spec fn components_model(v: Vec1<int>) -> Seq<int> {
        seq![v.x]
    }

    fn components(&self) -> (r: Vec<N>) {
        let mut res: Vec<N> = Vec::new();
        res.push(self.x);
        res
    }
}

impl<N: Scalar> IterableMut<N> for Vec1<N> {
    fn set_components(&mut self, c: &Vec<N>) {
        self.x = c[0];
    }
}

impl<N: Scalar> Indexable<usize, N> for Vec2<N> {
    open spec fn index_in_range(i: usize) -> bool {
        i < 2
    }

    open spec fn at_model(v: Vec2<int>, i: usize) -> int {
        if i == 0 {
            v.x
        } else {
            v.y
        }
    }

    open spec fn set_model(v: Vec2<int>, i: usize, x: int) -> Vec2<int> {
        if i == 0 {
            Vec2 { x: x, ..v }
        } else {
            Vec2 { y: x, ..v }
        }
    }

    proof fn lemma_at_set(v: Vec2<int>, i: usize, x: int) {
    }

    fn at(&self, i: usize) -> (r: N) {
        if i == 0 {
            self.x
        } else {
            self.y
        }
    }

    fn set(&mut self, i: usize, x: N) {
        if i == 0 {
            self.x = x;
        } else {
            self.y = x;
        }
    }

    fn swap(&mut self, i: usize, j: usize) {
        let a = self.at(i);
        let b = self.at(j);
        self.set(i, b);
        self.set(j, a);
    }
}

impl<N: Scalar> ScalarAdd<N> for Vec2<N> {
    open spec fn scalar_add_fits(v: Vec2<int>, n: int) -> bool {
        Self::scalar_add_model(v, n).fits::<N>()
    }

    open spec fn scalar_add_model(v: Vec2<int>, n: int) -> Vec2<int> {
        Vec2 { x: v.x + n, y: v.y + n }
    }

    fn scalar_add(&self, n: &N) -> (r: Self) {
        Vec2 { x: self.x.plus(*n), y: self.y.plus(*n) }
    }

    fn scalar_add_inplace(&mut self, n: &N) {
        *self = self.scalar_add(n);
    }
}

impl<N: Scalar> ScalarSub<N> for Vec2<N> {
    open spec fn scalar_sub_fits(v: Vec2<int>, n: int) -> bool {
        Self::scalar_sub_model(v, n).fits::<N>()
    }

    open spec fn scalar_sub_model(v: Vec2<int>, n: int) -> Vec2<int> {
        Vec2 { x: v.x - n, y: v.y - n }
    }

    fn scalar_sub(&self, n: &N) -> (r: Self) {
        Vec2 { x: self.x.minus(*n), y: self.y.minus(*n) }
    }

    fn scalar_sub_inplace(&mut self, n: &N) {
        *self = self.scalar_sub(n);
    }
}

impl<N: Scalar> Iterable<N> for Vec2<N> {
    open spec fn components_model(v: Vec2<int>) -> Seq<int> {
        seq![v.x, v.y]
    }

    fn components(&self) -> (r: Vec<N>) {
        let mut res: Vec<N> = Vec::new();
        res.push(self.x);
        res.push(self.y);
        res
    }
}

impl<N: Scalar> IterableMut<N> for Vec2<N> {
    fn set_components(&mut self, c: &Vec<N>) {
        self.x = c[0];
        self.y = c[1];
    }
}

impl<N: Scalar> Indexable<usize, N> for Vec3<N> {
    open spec fn index_in_range(i: usize) -> bool {
        i < 3
    }

    open spec fn at_model(v: Vec3<int>, i: usize) -> int {
        if i == 0 {
            v.x
        } else if i == 1 {
            v.y
        } else {
            v.z
        }
    }

    open spec fn set_model(v: Vec3<int>, i: usize, x: int) -> Vec3<int> {
        if i == 0 {
            Vec3 { x: x, ..v }
        } else if i == 1 {
            Vec3 { y: x, ..v }
        } else {
            Vec3 { z: x, ..v }
        }
    }

    proof fn lemma_at_set(v: Vec3<int>, i: usize, x: int) {
    }

    fn at(&self, i: usize) -> (r: N) {
        if i == 0 {
            self.x
        } else if i == 1 {
            self.y
        } else {
            self.z
        }
    }

    fn set(&mut self, i: usize, x: N) {
        if i == 0 {
            self.x = x;
        } else if i == 1 {
            self.y = x;
        } else {
            self.z = x;
        }
    }

    fn swap(&mut self, i: usize, j: usize) {
        let a = self.at(i);
        let b = self.at(j);
        self.set(i, b);
        self.set(j, a);
    }
}

impl<N: Scalar> ScalarAdd<N> for Vec3<N> {
    open spec fn scalar_add_fits(v: Vec3<int>, n: int) -> bool {
        Self::scalar_add_model(v, n).fits::<N>()
    }

    open spec fn scalar_add_model(v: Vec3<int>, n: int) -> Vec3<int> {
        Vec3 { x: v.x + n, y: v.y + n, z: v.z + n }
    }

    fn scalar_add(&self, n: &N) -> (r: Self) {
        Vec3 { x: self.x.plus(*n), y: self.y.plus(*n), z: self.z.plus(*n) }
    }

    fn scalar_add_inplace(&mut self, n: &N) {
        *self = self.scalar_add(n);
    }
}

impl<N: Scalar> ScalarSub<N> for Vec3<N> {
    open spec fn scalar_sub_fits(v: Vec3<int>, n: int) -> bool {
        Self::scalar_sub_model(v, n).fits::<N>()
    }

    open spec fn scalar_sub_model(v: Vec3<int>, n: int) -> Vec3<int> {
        Vec3 { x: v.x - n, y: v.y - n, z: v.z - n }
    }

    fn scalar_sub(&self, n: &N) -> (r: Self) {
        Vec3 { x: self.x.minus(*n), y: self.y.minus(*n), z: self.z.minus(*n) }
    }

    fn scalar_sub_inplace(&mut self, n: &N) {
        *self = self.scalar_sub(n);
    }
}

impl<N: Scalar> Iterable<N> for Vec3<N> {
    open spec fn components_model(v: Vec3<int>) -> Seq<int> {
        seq![v.x, v.y, v.z]
    }

    fn components(&self) -> (r: Vec<N>) {
        let mut res: Vec<N> = Vec::new();
        res.push(self.x);
        res.push(self.y);
        res.push(self.z);
        res
    }
}

impl<N: Scalar> IterableMut<N> for Vec3<N> {
    fn set_components(&mut self, c: &Vec<N>) {
        self.x = c[0];
        self.y = c[1];
        self.z = c[2];
    }
}

impl<N: Scalar> Indexable<usize, N> for Vec4<N> {
    open spec fn index_in_range(i: usize) -> bool {
        i < 4
    }

    open spec fn at_model(v: Vec4<int>, i: usize) -> int {
        if i == 0 {
            v.x
        } else if i == 1 {
            v.y
        } else if i == 2 {
            v.z
        } else {
            v.w
        }
    }

    open spec fn set_model(v: Vec4<int>, i: usize, x: int) -> Vec4<int> {
        if i == 0 {
            Vec4 { x: x, ..v }
        } else if i == 1 {
            Vec4 { y: x, ..v }
        } else if i == 2 {
            Vec4 { z: x, ..v }
        } else {
            Vec4 { w: x, ..v }
        }
    }

    proof fn lemma_at_set(v: Vec4<int>, i: usize, x: int) {
    }

    fn at(&self, i: usize) -> (r: N) {
        if i == 0 {
            self.x
        } else if i == 1 {
            self.y
        } else if i == 2 {
            self.z
        } else {
            self.w
        }
    }

    fn set(&mut self, i: usize, x: N) {
        if i == 0 {
            self.x = x;
        } else if i == 1 {
            self.y = x;
        } else if i == 2 {
            self.z = x;
        } else {
            self.w = x;
        }
    }

    fn swap(&mut self, i: usize, j: usize) {
        let a = self.at(i);
        let b = self.at(j);
        self.set(i, b);
        self.set(j, a);
    }
}

impl<N: Scalar> ScalarAdd<N> for Vec4<N> {
    open spec fn scalar_add_fits(v: Vec4<int>, n: int) -> bool {
        Self::scalar_add_model(v, n).fits::<N>()
    }

    open spec fn scalar_add_model(v: Vec4<int>, n: int) -> Vec4<int> {
        Vec4 { x: v.x + n, y: v.y + n, z: v.z + n, w: v.w + n }
    }

    fn scalar_add(&self, n: &N) -> (r: Self) {
        Vec4 { x: self.x.plus(*n), y: self.y.plus(*n), z: self.z.plus(*n), w: self.w.plus(*n) }
    }

    fn scalar_add_inplace(&mut self, n: &N) {
        *self = self.scalar_add(n);
    }
}

impl<N: Scalar> ScalarSub<N> for Vec4<N> {
    open spec fn scalar_sub_fits(v: Vec4<int>, n: int) -> bool {
        Self::scalar_sub_model(v, n).fits::<N>()
    }

    open spec fn scalar_sub_model(v: Vec4<int>, n: int) -> Vec4<int> {
        Vec4 { x: v.x - n, y: v.y - n, z: v.z - n, w: v.w - n }
    }

    fn scalar_sub(&self, n: &N) -> (r: Self) {
        Vec4 { x: self.x.minus(*n), y: self.y.minus(*n), z: self.z.minus(*n), w: self.w.minus(*n) }
    }

    fn scalar_sub_inplace(&mut self, n: &N) {
        *self = self.scalar_sub(n);
    }
}

impl<N: Scalar> Iterable<N> for Vec4<N> {
    open spec fn components_model(v: Vec4<int>) -> Seq<int> {
        seq![v.x, v.y, v.z, v.w]
    }

    fn components(&self) -> (r: Vec<N>) {
        let mut res: Vec<N> = Vec::new();
        res.push(self.x);
        res.push(self.y);
        res.push(self.z);
        res.push(self.w);
        res
    }
}

impl<N: Scalar> IterableMut<N> for Vec4<N> {
    fn set_components(&mut self, c: &Vec<N>) {
        self.x = c[0];
        self.y = c[1];
        self.z = c[2];
        self.w = c[3];
    }
}

impl<N: Scalar> Indexable<usize, N> for Vec5<N> {
    open spec fn index_in_range(i: usize) -> bool {
        i < 5
    }

    open spec fn at_model(v: Vec5<int>, i: usize) -> int {
        if i == 0 {
            v.x
        } else if i == 1 {
            v.y
        } else if i == 2 {
            v.z
        } else if i == 3 {
            v.w
        } else {
            v.a
        }
    }

    open spec fn set_model(v: Vec5<int>, i: usize, x: int) -> Vec5<int> {
        if i == 0 {
            Vec5 { x: x, ..v }
        } else if i == 1 {
            Vec5 { y: x, ..v }
        } else if i == 2 {
            Vec5 { z: x, ..v }
        } else if i == 3 {
            Vec5 { w: x, ..v }
        } else {
            Vec5 { a: x, ..v }
        }
    }

    proof fn lemma_at_set(v: Vec5<int>, i: usize, x: int) {
    }

    fn at(&self, i: usize) -> (r: N) {
        if i == 0 {
            self.x
        } else if i == 1 {
            self.y
        } else if i == 2 {
            self.z
        } else if i == 3 {
            self.w
        } else {
            self.a
        }
    }

    fn set(&mut self, i: usize, x: N) {
        if i == 0 {
            self.x = x;
        } else if i == 1 {
            self.y = x;
        } else if i == 2 {
            self.z = x;
        } else if i == 3 {
            self.w = x;
        } else {
            self.a = x;
        }
    }

    fn swap(&mut self, i: usize, j: usize) {
        let a = self.at(i);
        let b = self.at(j);
        self.set(i, b);
        self.set(j, a);
    }
}

impl<N: Scalar> ScalarAdd<N> for Vec5<N> {
    open spec fn scalar_add_fits(v: Vec5<int>, n: int) -> bool {
        Self::scalar_add_model(v, n).fits::<N>()
    }

    open spec fn scalar_add_model(v: Vec5<int>, n: int) -> Vec5<int> {
        Vec5 { x: v.x + n, y: v.y + n, z: v.z + n, w: v.w + n, a: v.a + n }
    }

    fn scalar_add(&self, n: &N) -> (r: Self) {
        Vec5 { x: self.x.plus(*n), y: self.y.plus(*n), z: self.z.plus(*n), w: self.w
            .plus(*n), a: self.a.plus(*n) }
    }

    fn scalar_add_inplace(&mut self, n: &N) {
        *self = self.scalar_add(n);
    }
}

impl<N: Scalar> ScalarSub<N> for Vec5<N> {
    open spec fn scalar_sub_fits(v: Vec5<int>, n: int) -> bool {
        Self::scalar_sub_model(v, n).fits::<N>()
    }

    open spec fn scalar_sub_model(v: Vec5<int>, n: int) -> Vec5<int> {
        Vec5 { x: v.x - n, y: v.y - n, z: v.z - n, w: v.w - n, a: v.a - n }
    }

    fn scalar_sub(&self, n: &N) -> (r: Self) {
        Vec5 { x: self.x.minus(*n), y: self.y.minus(*n), z: self.z.minus(*n), w: self.w
            .minus(*n), a: self.a.minus(*n) }
    }

    fn scalar_sub_inplace(&mut self, n: &N) {
        *self = self.scalar_sub(n);
    }
}

impl<N: Scalar> Iterable<N> for Vec5<N> {
    open spec fn components_model(v: Vec5<int>) -> Seq<int> {
        seq![v.x, v.y, v.z, v.w, v.a]
    }

    fn components(&self) -> (r: Vec<N>) {
        let mut res: Vec<N> = Vec::new();
        res.push(self.x);
        res.push(self.y);
        res.push(self.z);
        res.push(self.w);
        res.push(self.a);
        res
    }
}

impl<N: Scalar> IterableMut<N> for Vec5<N> {
    fn set_components(&mut self, c: &Vec<N>) {
        self.x = c[0];
        self.y = c[1];
        self.z = c[2];
        self.w = c[3];
        self.a = c[4];
    }
}

impl<N: Scalar> Indexable<usize, N> for Vec6<N> {
    open spec fn index_in_range(i: usize) -> bool {
        i < 6
    }

    open spec fn at_model(v: Vec6<int>, i: usize) -> int {
        if i == 0 {
            v.x
        } else if i == 1 {
            v.y
        } else if i == 2 {
            v.z
        } else if i == 3 {
            v.w
        } else if i == 4 {
            v.a
        } else {
            v.b
        }
    }

    open spec fn set_model(v: Vec6<int>, i: usize, x: int) -> Vec6<int> {
        if i == 0 {
            Vec6 { x: x, ..v }
        } else if i == 1 {
            Vec6 { y: x, ..v }
        } else if i == 2 {
            Vec6 { z: x, ..v }
        } else if i == 3 {
            Vec6 { w: x, ..v }
        } else if i == 4 {
            Vec6 { a: x, ..v }
        } else {
            Vec6 { b: x, ..v }
        }
    }

    proof fn lemma_at_set(v: Vec6<int>, i: usize, x: int) {
    }

    fn at(&self, i: usize) -> (r: N) {
        if i == 0 {
            self.x
        } else if i == 1 {
            self.y
        } else if i == 2 {
            self.z
        } else if i == 3 {
            self.w
        } else if i == 4 {
            self.a
        } else {
            self.b
        }
    }

    fn set(&mut self, i: usize, x: N) {
        if i == 0 {
            self.x = x;
        } else if i == 1 {
            self.y = x;
        } else if i == 2 {
            self.z = x;
        } else if i == 3 {
            self.w = x;
        } else if i == 4 {
            self.a = x;
        } else {
            self.b = x;
        }
    }

    fn swap(&mut self, i: usize, j: usize) {
        let a = self.at(i);
        let b = self.at(j);
        self.set(i, b);
        self.set(j, a);
    }
}

impl<N: Scalar> ScalarAdd<N> for Vec6<N> {
    open spec fn scalar_add_fits(v: Vec6<int>, n: int) -> bool {
        Self::scalar_add_model(v, n).fits::<N>()
    }

    open spec fn scalar_add_model(v: Vec6<int>, n: int) -> Vec6<int> {
        Vec6 { x: v.x + n, y: v.y + n, z: v.z + n, w: v.w + n, a: v.a + n, b: v.b + n }
    }

    fn scalar_add(&self, n: &N) -> (r: Self) {
        Vec6 { x: self.x.plus(*n), y: self.y.plus(*n), z: self.z.plus(*n), w: self.w
            .plus(*n), a: self.a.plus(*n), b: self.b.plus(*n) }
    }

    fn scalar_add_inplace(&mut self, n: &N) {
        *self = self.scalar_add(n);
    }
}

impl<N: Scalar> ScalarSub<N> for Vec6<N> {
    open spec fn scalar_sub_fits(v: Vec6<int>, n: int) -> bool {
        Self::scalar_sub_model(v, n).fits::<N>()
    }

    open spec fn scalar_sub_model(v: Vec6<int>, n: int) -> Vec6<int> {
        Vec6 { x: v.x - n, y: v.y - n, z: v.z - n, w: v.w - n, a: v.a - n, b: v.b - n }
    }

    fn scalar_sub(&self, n: &N) -> (r: Self) {
        Vec6 { x: self.x.minus(*n), y: self.y.minus(*n), z: self.z.minus(*n), w: self.w
            .minus(*n), a: self.a.minus(*n), b: self.b.minus(*n) }
    }

    fn scalar_sub_inplace(&mut self, n: &N) {
        *self = self.scalar_sub(n);
    }
}

impl<N: Scalar> Iterable<N> for Vec6<N> {
    open spec fn components_model(v: Vec6<int>) -> Seq<int> {
        seq![v.x, v.y, v.z, v.w, v.a, v.b]
    }

    fn components(&self) -> (r: Vec<N>) {
        let mut res: Vec<N> = Vec::new();
        res.push(self.x);
        res.push(self.y);
        res.push(self.z);
        res.push(self.w);
        res.push(self.a);
        res.push(self.b);
        res
    }
}

impl<N: Scalar> IterableMut<N> for Vec6<N> {
    fn set_components(&mut self, c: &Vec<N>) {
        self.x = c[0];
        self.y = c[1];
        self.z = c[2];
        self.w = c[3];
        self.a = c[4];
        self.b = c[5];
    }
}

impl<N: Scalar> Indexable<(usize, usize), N> for Mat1<N> {
    open spec fn index_in_range(i: (usize, usize)) -> bool {
        i.0 < 1 && i.1 < 1
    }

    open spec fn at_model(v: Mat1<int>, i: (usize, usize)) -> int {
        v.m11
    }

    open spec fn set_model(v: Mat1<int>, i: (usize, usize), x: int) -> Mat1<int> {
        Mat1 { m11: x, ..v }
    }

    proof fn lemma_at_set(v: Mat1<int>, i: (usize, usize), x: int) {
    }

    fn at(&self, i: (usize, usize)) -> (r: N) {
        self.m11
    }

    fn set(&mut self, i: (usize, usize), x: N) {
        self.m11 = x;
    }

    fn swap(&mut self, i: (usize, usize), j: (usize, usize)) {
        let a = self.at(i);
        let b = self.at(j);
        self.set(i, b);
        self.set(j, a);
    }
}

impl<N: Scalar> Row<Vec1<N>> for Mat1<N> {
    open spec fn num_rows_model() -> nat {
        1
    }

    open spec fn row_model(m: Mat1<int>, i: int) -> Vec1<int> {
        Vec1 { x: m.m11 }
    }

    open spec fn set_row_model(m: Mat1<int>, i: int, r: Vec1<int>) -> Mat1<int> {
        Mat1 { m11: r.x, ..m }
    }

    fn num_rows(&self) -> (n: usize) {
        1
    }

    fn row(&self, i: usize) -> (r: Vec1<N>) {
        Vec1 { x: self.m11 }
    }

    fn set_row(&mut self, i: usize, r: Vec1<N>) {
        self.m11 = r.x;
    }
}

impl<N: Scalar> Col<Vec1<N>> for Mat1<N> {
    open spec fn num_cols_model() -> nat {
        1
    }

    open spec fn col_model(m: Mat1<int>, j: int) -> Vec1<int> {
        Vec1 { x: m.m11 }
    }

    open spec fn set_col_model(m: Mat1<int>, j: int, c: Vec1<int>) -> Mat1<int> {
        Mat1 { m11: c.x, ..m }
    }

    fn num_cols(&self) -> (n: usize) {
        1
    }

    fn col(&self, j: usize) -> (c: Vec1<N>) {
        Vec1 { x: self.m11 }
    }

    fn set_col(&mut self, j: usize, c: Vec1<N>) {
        self.m11 = c.x;
    }
}

impl<N: Scalar> ScalarAdd<N> for Mat1<N> {
    open spec fn scalar_add_fits(v: Mat1<int>, n: int) -> bool {
        Self::scalar_add_model(v, n).fits::<N>()
    }

    open spec fn scalar_add_model(v: Mat1<int>, n: int) -> Mat1<int> {
        Mat1 {
            m11: v.m11 + n,
        }
    }

    fn scalar_add(&self, n: &N) -> (r: Self) {
        Mat1 {
            m11: self.m11.plus(*n),
        }
    }

    fn scalar_add_inplace(&mut self, n: &N) {
        *self = self.scalar_add(n);
    }
}

impl<N: Scalar> ScalarSub<N> for Mat1<N> {
    open spec fn scalar_sub_fits(v: Mat1<int>, n: int) -> bool {
        Self::scalar_sub_model(v, n).fits::<N>()
    }

    open spec fn scalar_sub_model(v: Mat1<int>, n: int) -> Mat1<int> {
        Mat1 {
            m11: v.m11 - n,
        }
    }

    fn scalar_sub(&self, n: &N) -> (r: Self) {
        Mat1 {
            m11: self.m11.minus(*n),
        }
    }

    fn scalar_sub_inplace(&mut self, n: &N) {
        *self = self.scalar_sub(n);
    }
}

impl<N: Scalar> Iterable<N> for Mat1<N> {
    open spec fn components_model(v: Mat1<int>) -> Seq<int> {
        seq![
            v.m11,
        ]
    }

    fn components(&self) -> (r: Vec<N>) {
        let mut res: Vec<N> = Vec::new();
        res.push(self.m11);
        res
    }
}

impl<N: Scalar> IterableMut<N> for Mat1<N> {
    fn set_components(&mut self, c: &Vec<N>) {
        self.m11 = c[0];
    }
}

impl<N: Scalar> Indexable<(usize, usize), N> for Mat2<N> {
    open spec fn index_in_range(i: (usize, usize)) -> bool {
        i.0 < 2 && i.1 < 2
    }

    open spec fn at_model(v: Mat2<int>, i: (usize, usize)) -> int {
        if i.0 == 0 {
            if i.1 == 0 {
                v.m11
            } else {
                v.m12
            }
        } else {
            if i.1 == 0 {
                v.m21
            } else {
                v.m22
            }
        }
    }

    open spec fn set_model(v: Mat2<int>, i: (usize, usize), x: int) -> Mat2<int> {
        if i.0 == 0 {
            if i.1 == 0 {
                Mat2 { m11: x, ..v }
            } else {
                Mat2 { m12: x, ..v }
            }
        } else {
            if i.1 == 0 {
                Mat2 { m21: x, ..v }
            } else {
                Mat2 { m22: x, ..v }
            }
        }
    }

    proof fn lemma_at_set(v: Mat2<int>, i: (usize, usize), x: int) {
    }

    fn at(&self, i: (usize, usize)) -> (r: N) {
        if i.0 == 0 {
            if i.1 == 0 {
                self.m11
            } else {
                self.m12
            }
        } else {
            if i.1 == 0 {
                self.m21
            } else {
                self.m22
            }
        }
    }

    fn set(&mut self, i: (usize, usize), x: N) {
        if i.0 == 0 {
            if i.1 == 0 {
                self.m11 = x;
            } else {
                self.m12 = x;
            }
        } else {
            if i.1 == 0 {
                self.m21 = x;
            } else {
                self.m22 = x;
            }
        }
    }

    fn swap(&mut self, i: (usize, usize), j: (usize, usize)) {
        let a = self.at(i);
        let b = self.at(j);
        self.set(i, b);
        self.set(j, a);
    }
}

impl<N: Scalar> Row<Vec2<N>> for Mat2<N> {
    open spec fn num_rows_model() -> nat {
        2
    }

    open spec fn row_model(m: Mat2<int>, i: int) -> Vec2<int> {
        if i == 0 {
            Vec2 { x: m.m11, y: m.m12 }
        } else {
            Vec2 { x: m.m21, y: m.m22 }
        }
    }

    open spec fn set_row_model(m: Mat2<int>, i: int, r: Vec2<int>) -> Mat2<int> {
        if i == 0 {
            Mat2 { m11: r.x, m12: r.y, ..m }
        } else {
            Mat2 { m21: r.x, m22: r.y, ..m }
        }
    }

    fn num_rows(&self) -> (n: usize) {
        2
    }

    fn row(&self, i: usize) -> (r: Vec2<N>) {
        if i == 0 {
            Vec2 { x: self.m11, y: self.m12 }
        } else {
            Vec2 { x: self.m21, y: self.m22 }
        }
    }

    fn set_row(&mut self, i: usize, r: Vec2<N>) {
        if i == 0 {
            self.m11 = r.x; self.m12 = r.y;
        } else {
            self.m21 = r.x; self.m22 = r.y;
        }
    }
}

impl<N: Scalar> Col<Vec2<N>> for Mat2<N> {
    open spec fn num_cols_model() -> nat {
        2
    }

    open spec fn col_model(m: Mat2<int>, j: int) -> Vec2<int> {
        if j == 0 {
            Vec2 { x: m.m11, y: m.m21 }
        } else {
            Vec2 { x: m.m12, y: m.m22 }
        }
    }

    open spec fn set_col_model(m: Mat2<int>, j: int, c: Vec2<int>) -> Mat2<int> {
        if j == 0 {
            Mat2 { m11: c.x, m21: c.y, ..m }
        } else {
            Mat2 { m12: c.x, m22: c.y, ..m }
        }
    }

    fn num_cols(&self) -> (n: usize) {
        2
    }

    fn col(&self, j: usize) -> (c: Vec2<N>) {
        if j == 0 {
            Vec2 { x: self.m11, y: self.m21 }
        } else {
            Vec2 { x: self.m12, y: self.m22 }
        }
    }

    fn set_col(&mut self, j: usize, c: Vec2<N>) {
        if j == 0 {
            self.m11 = c.x; self.m21 = c.y;
        } else {
            self.m12 = c.x; self.m22 = c.y;
        }
    }
}

impl<N: Scalar> ScalarAdd<N> for Mat2<N> {
    open spec fn scalar_add_fits(v: Mat2<int>, n: int) -> bool {
        Self::scalar_add_model(v, n).fits::<N>()
    }

    open spec fn scalar_add_model(v: Mat2<int>, n: int) -> Mat2<int> {
        Mat2 {
            m11: v.m11 + n, m12: v.m12 + n,
            m21: v.m21 + n, m22: v.m22 + n,
        }
    }

    fn scalar_add(&self, n: &N) -> (r: Self) {
        Mat2 {
            m11: self.m11.plus(*n),
            m12: self.m12.plus(*n),
            m21: self.m21.plus(*n),
            m22: self.m22.plus(*n),
        }
    }

    fn scalar_add_inplace(&mut self, n: &N) {
        *self = self.scalar_add(n);
    }
}

impl<N: Scalar> ScalarSub<N> for Mat2<N> {
    open spec fn scalar_sub_fits(v: Mat2<int>, n: int) -> bool {
        Self::scalar_sub_model(v, n).fits::<N>()
    }

    open spec fn scalar_sub_model(v: Mat2<int>, n: int) -> Mat2<int> {
        Mat2 {
            m11: v.m11 - n, m12: v.m12 - n,
            m21: v.m21 - n, m22: v.m22 - n,
        }
    }

    fn scalar_sub(&self, n: &N) -> (r: Self) {
        Mat2 {
            m11: self.m11.minus(*n),
            m12: self.m12.minus(*n),
            m21: self.m21.minus(*n),
            m22: self.m22.minus(*n),
        }
    }

    fn scalar_sub_inplace(&mut self, n: &N) {
        *self = self.scalar_sub(n);
    }
}

impl<N: Scalar> Iterable<N> for Mat2<N> {
    open spec fn components_model(v: Mat2<int>) -> Seq<int> {
        seq![
            v.m11, v.m12,
            v.m21, v.m22,
        ]
    }

    fn components(&self) -> (r: Vec<N>) {
        let mut res: Vec<N> = Vec::new();
        res.push(self.m11);
        res.push(self.m12);
        res.push(self.m21);
        res.push(self.m22);
        res
    }
}

impl<N: Scalar> IterableMut<N> for Mat2<N> {
    fn set_components(&mut self, c: &Vec<N>) {
        self.m11 = c[0];
        self.m12 = c[1];
        self.m21 = c[2];
        self.m22 = c[3];
    }
}

impl<N: Scalar> Indexable<(usize, usize), N> for Mat3<N> {
    open spec fn index_in_range(i: (usize, usize)) -> bool {
        i.0 < 3 && i.1 < 3
    }

    open spec fn at_model(v: Mat3<int>, i: (usize, usize)) -> int {
        if i.0 == 0 {
            if i.1 == 0 {
                v.m11
            } else if i.1 == 1 {
                v.m12
            } else {
                v.m13
            }
        } else if i.0 == 1 {
            if i.1 == 0 {
                v.m21
            } else if i.1 == 1 {
                v.m22
            } else {
                v.m23
            }
        } else {
            if i.1 == 0 {
                v.m31
            } else if i.1 == 1 {
                v.m32
            } else {
                v.m33
            }
        }
    }

    open spec fn set_model(v: Mat3<int>, i: (usize, usize), x: int) -> Mat3<int> {
        if i.0 == 0 {
            if i.1 == 0 {
                Mat3 { m11: x, ..v }
            } else if i.1 == 1 {
                Mat3 { m12: x, ..v }
            } else {
                Mat3 { m13: x, ..v }
            }
        } else if i.0 == 1 {
            if i.1 == 0 {
                Mat3 { m21: x, ..v }
            } else if i.1 == 1 {
                Mat3 { m22: x, ..v }
            } else {
                Mat3 { m23: x, ..v }
            }
        } else {
            if i.1 == 0 {
                Mat3 { m31: x, ..v }
            } else if i.1 == 1 {
                Mat3 { m32: x, ..v }
            } else {
                Mat3 { m33: x, ..v }
            }
        }
    }

    proof fn lemma_at_set(v: Mat3<int>, i: (usize, usize), x: int) {
    }

    fn at(&self, i: (usize, usize)) -> (r: N) {
        if i.0 == 0 {
            if i.1 == 0 {
                self.m11
            } else if i.1 == 1 {
                self.m12
            } else {
                self.m13
            }
        } else if i.0 == 1 {
            if i.1 == 0 {
                self.m21
            } else if i.1 == 1 {
                self.m22
            } else {
                self.m23
            }
        } else {
            if i.1 == 0 {
                self.m31
            } else if i.1 == 1 {
                self.m32
            } else {
                self.m33
            }
        }
    }

    fn set(&mut self, i: (usize, usize), x: N) {
        if i.0 == 0 {
            if i.1 == 0 {
                self.m11 = x;
            } else if i.1 == 1 {
                self.m12 = x;
            } else {
                self.m13 = x;
            }
        } else if i.0 == 1 {
            if i.1 == 0 {
                self.m21 = x;
            } else if i.1 == 1 {
                self.m22 = x;
            } else {
                self.m23 = x;
            }
        } else {
            if i.1 == 0 {
                self.m31 = x;
            } else if i.1 == 1 {
                self.m32 = x;
            } else {
                self.m33 = x;
            }
        }
    }

    fn swap(&mut self, i: (usize, usize), j: (usize, usize)) {
        let a = self.at(i);
        let b = self.at(j);
        self.set(i, b);
        self.set(j, a);
    }
}

impl<N: Scalar> Row<Vec3<N>> for Mat3<N> {
    open spec fn num_rows_model() -> nat {
        3
    }

    open spec fn row_model(m: Mat3<int>, i: int) -> Vec3<int> {
        if i == 0 {
            Vec3 { x: m.m11, y: m.m12, z: m.m13 }
        } else if i == 1 {
            Vec3 { x: m.m21, y: m.m22, z: m.m23 }
        } else {
            Vec3 { x: m.m31, y: m.m32, z: m.m33 }
        }
    }

    open spec fn set_row_model(m: Mat3<int>, i: int, r: Vec3<int>) -> Mat3<int> {
        if i == 0 {
            Mat3 { m11: r.x, m12: r.y, m13: r.z, ..m }
        } else if i == 1 {
            Mat3 { m21: r.x, m22: r.y, m23: r.z, ..m }
        } else {
            Mat3 { m31: r.x, m32: r.y, m33: r.z, ..m }
        }
    }

    fn num_rows(&self) -> (n: usize) {
        3
    }

    fn row(&self, i: usize) -> (r: Vec3<N>) {
        if i == 0 {
            Vec3 { x: self.m11, y: self.m12, z: self.m13 }
        } else if i == 1 {
            Vec3 { x: self.m21, y: self.m22, z: self.m23 }
        } else {
            Vec3 { x: self.m31, y: self.m32, z: self.m33 }
        }
    }

    fn set_row(&mut self, i: usize, r: Vec3<N>) {
        if i == 0 {
            self.m11 = r.x; self.m12 = r.y; self.m13 = r.z;
        } else if i == 1 {
            self.m21 = r.x; self.m22 = r.y; self.m23 = r.z;
        } else {
            self.m31 = r.x; self.m32 = r.y; self.m33 = r.z;
        }
    }
}

impl<N: Scalar> Col<Vec3<N>> for Mat3<N> {
    open spec fn num_cols_model() -> nat {
        3
    }

    open spec fn col_model(m: Mat3<int>, j: int) -> Vec3<int> {
        if j == 0 {
            Vec3 { x: m.m11, y: m.m21, z: m.m31 }
        } else if j == 1 {
            Vec3 { x: m.m12, y: m.m22, z: m.m32 }
        } else {
            Vec3 { x: m.m13, y: m.m23, z: m.m33 }
        }
    }

    open spec fn set_col_model(m: Mat3<int>, j: int, c: Vec3<int>) -> Mat3<int> {
        if j == 0 {
            Mat3 { m11: c.x, m21: c.y, m31: c.z, ..m }
        } else if j == 1 {
            Mat3 { m12: c.x, m22: c.y, m32: c.z, ..m }
        } else {
            Mat3 { m13: c.x, m23: c.y, m33: c.z, ..m }
        }
    }

    fn num_cols(&self) -> (n: usize) {
        3
    }

    fn col(&self, j: usize) -> (c: Vec3<N>) {
        if j == 0 {
            Vec3 { x: self.m11, y: self.m21, z: self.m31 }
        } else if j == 1 {
            Vec3 { x: self.m12, y: self.m22, z: self.m32 }
        } else {
            Vec3 { x: self.m13, y: self.m23, z: self.m33 }
        }
    }

    fn set_col(&mut self, j: usize, c: Vec3<N>) {
        if j == 0 {
            self.m11 = c.x; self.m21 = c.y; self.m31 = c.z;
        } else if j == 1 {
            self.m12 = c.x; self.m22 = c.y; self.m32 = c.z;
        } else {
            self.m13 = c.x; self.m23 = c.y; self.m33 = c.z;
        }
    }
}

impl<N: Scalar> ScalarAdd<N> for Mat3<N> {
    open spec fn scalar_add_fits(v: Mat3<int>, n: int) -> bool {
        Self::scalar_add_model(v, n).fits::<N>()
    }

    open spec fn scalar_add_model(v: Mat3<int>, n: int) -> Mat3<int> {
        Mat3 {
            m11: v.m11 + n, m12: v.m12 + n, m13: v.m13 + n,
            m21: v.m21 + n, m22: v.m22 + n, m23: v.m23 + n,
            m31: v.m31 + n, m32: v.m32 + n, m33: v.m33 + n,
        }
    }

    fn scalar_add(&self, n: &N) -> (r: Self) {
        Mat3 {
            m11: self.m11.plus(*n),
            m12: self.m12.plus(*n),
            m13: self.m13.plus(*n),
            m21: self.m21.plus(*n),
            m22: self.m22.plus(*n),
            m23: self.m23.plus(*n),
            m31: self.m31.plus(*n),
            m32: self.m32.plus(*n),
            m33: self.m33.plus(*n),
        }
    }

    fn scalar_add_inplace(&mut self, n: &N) {
        *self = self.scalar_add(n);
    }
}

impl<N: Scalar> ScalarSub<N> for Mat3<N> {
    open spec fn scalar_sub_fits(v: Mat3<int>, n: int) -> bool {
        Self::scalar_sub_model(v, n).fits::<N>()
    }

    open spec fn scalar_sub_model(v: Mat3<int>, n: int) -> Mat3<int> {
        Mat3 {
            m11: v.m11 - n, m12: v.m12 - n, m13: v.m13 - n,
            m21: v.m21 - n, m22: v.m22 - n, m23: v.m23 - n,
            m31: v.m31 - n, m32: v.m32 - n, m33: v.m33 - n,
        }
    }

    fn scalar_sub(&self, n: &N) -> (r: Self) {
        Mat3 {
            m11: self.m11.minus(*n),
            m12: self.m12.minus(*n),
            m13: self.m13.minus(*n),
            m21: self.m21.minus(*n),
            m22: self.m22.minus(*n),
            m23: self.m23.minus(*n),
            m31: self.m31.minus(*n),
            m32: self.m32.minus(*n),
            m33: self.m33.minus(*n),
        }
    }

    fn scalar_sub_inplace(&mut self, n: &N) {
        *self = self.scalar_sub(n);
    }
}

impl<N: Scalar> Iterable<N> for Mat3<N> {
    open spec fn components_model(v: Mat3<int>) -> Seq<int> {
        seq![
            v.m11, v.m12, v.m13,
            v.m21, v.m22, v.m23,
            v.m31, v.m32, v.m33,
        ]
    }

    fn components(&self) -> (r: Vec<N>) {
        let mut res: Vec<N> = Vec::new();
        res.push(self.m11);
        res.push(self.m12);
        res.push(self.m13);
        res.push(self.m21);
        res.push(self.m22);
        res.push(self.m23);
        res.push(self.m31);
        res.push(self.m32);
        res.push(self.m33);
        res
    }
}

impl<N: Scalar> IterableMut<N> for Mat3<N> {
    fn set_components(&mut self, c: &Vec<N>) {
        self.m11 = c[0];
        self.m12 = c[1];
        self.m13 = c[2];
        self.m21 = c[3];
        self.m22 = c[4];
        self.m23 = c[5];
        self.m31 = c[6];
        self.m32 = c[7];
        self.m33 = c[8];
    }
}

impl<N: Scalar> Indexable<(usize, usize), N> for Mat4<N> {
    open spec fn index_in_range(i: (usize, usize)) -> bool {
        i.0 < 4 && i.1 < 4
    }

    open spec fn at_model(v: Mat4<int>, i: (usize, usize)) -> int {
        if i.0 == 0 {
            if i.1 == 0 {
                v.m11
            } else if i.1 == 1 {
                v.m12
            } else if i.1 == 2 {
                v.m13
            } else {
                v.m14
            }
        } else if i.0 == 1 {
            if i.1 == 0 {
                v.m21
            } else if i.1 == 1 {
                v.m22
            } else if i.1 == 2 {
                v.m23
            } else {
                v.m24
            }
        } else if i.0 == 2 {
            if i.1 == 0 {
                v.m31
            } else if i.1 == 1 {
                v.m32
            } else if i.1 == 2 {
                v.m33
            } else {
                v.m34
            }
        } else {
            if i.1 == 0 {
                v.m41
            } else if i.1 == 1 {
                v.m42
            } else if i.1 == 2 {
                v.m43
            } else {
                v.m44
            }
        }
    }

    open spec fn set_model(v: Mat4<int>, i: (usize, usize), x: int) -> Mat4<int> {
        if i.0 == 0 {
            if i.1 == 0 {
                Mat4 { m11: x, ..v }
            } else if i.1 == 1 {
                Mat4 { m12: x, ..v }
            } else if i.1 == 2 {
                Mat4 { m13: x, ..v }
            } else {
                Mat4 { m14: x, ..v }
            }
        } else if i.0 == 1 {
            if i.1 == 0 {
                Mat4 { m21: x, ..v }
            } else if i.1 == 1 {
                Mat4 { m22: x, ..v }
            } else if i.1 == 2 {
                Mat4 { m23: x, ..v }
            } else {
                Mat4 { m24: x, ..v }
            }
        } else if i.0 == 2 {
            if i.1 == 0 {
                Mat4 { m31: x, ..v }
            } else if i.1 == 1 {
                Mat4 { m32: x, ..v }
            } else if i.1 == 2 {
                Mat4 { m33: x, ..v }
            } else {
                Mat4 { m34: x, ..v }
            }
        } else {
            if i.1 == 0 {
                Mat4 { m41: x, ..v }
            } else if i.1 == 1 {
                Mat4 { m42: x, ..v }
            } else if i.1 == 2 {
                Mat4 { m43: x, ..v }
            } else {
                Mat4 { m44: x, ..v }
            }
        }
    }

    proof fn lemma_at_set(v: Mat4<int>, i: (usize, usize), x: int) {
    }

    fn at(&self, i: (usize, usize)) -> (r: N) {
        if i.0 == 0 {
            if i.1 == 0 {
                self.m11
            } else if i.1 == 1 {
                self.m12
            } else if i.1 == 2 {
                self.m13
            } else {
                self.m14
            }
        } else if i.0 == 1 {
            if i.1 == 0 {
                self.m21
            } else if i.1 == 1 {
                self.m22
            } else if i.1 == 2 {
                self.m23
            } else {
                self.m24
            }
        } else if i.0 == 2 {
            if i.1 == 0 {
                self.m31
            } else if i.1 == 1 {
                self.m32
            } else if i.1 == 2 {
                self.m33
            } else {
                self.m34
            }
        } else {
            if i.1 == 0 {
                self.m41
            } else if i.1 == 1 {
                self.m42
            } else if i.1 == 2 {
                self.m43
            } else {
                self.m44
            }
        }
    }

    fn set(&mut self, i: (usize, usize), x: N) {
        if i.0 == 0 {
            if i.1 == 0 {
                self.m11 = x;
            } else if i.1 == 1 {
                self.m12 = x;
            } else if i.1 == 2 {
                self.m13 = x;
            } else {
                self.m14 = x;
            }
        } else if i.0 == 1 {
            if i.1 == 0 {
                self.m21 = x;
            } else if i.1 == 1 {
                self.m22 = x;
            } else if i.1 == 2 {
                self.m23 = x;
            } else {
                self.m24 = x;
            }
        } else if i.0 == 2 {
            if i.1 == 0 {
                self.m31 = x;
            } else if i.1 == 1 {
                self.m32 = x;
            } else if i.1 == 2 {
                self.m33 = x;
            } else {
                self.m34 = x;
            }
        } else {
            if i.1 == 0 {
                self.m41 = x;
            } else if i.1 == 1 {
                self.m42 = x;
            } else if i.1 == 2 {
                self.m43 = x;
            } else {
                self.m44 = x;
            }
        }
    }

    fn swap(&mut self, i: (usize, usize), j: (usize, usize)) {
        let a = self.at(i);
        let b = self.at(j);
        self.set(i, b);
        self.set(j, a);
    }
}

impl<N: Scalar> Row<Vec4<N>> for Mat4<N> {
    open spec fn num_rows_model() -> nat {
        4
    }

    open spec fn row_model(m: Mat4<int>, i: int) -> Vec4<int> {
        if i == 0 {
            Vec4 { x: m.m11, y: m.m12, z: m.m13, w: m.m14 }
        } else if i == 1 {
            Vec4 { x: m.m21, y: m.m22, z: m.m23, w: m.m24 }
        } else if i == 2 {
            Vec4 { x: m.m31, y: m.m32, z: m.m33, w: m.m34 }
        } else {
            Vec4 { x: m.m41, y: m.m42, z: m.m43, w: m.m44 }
        }
    }

    open spec fn set_row_model(m: Mat4<int>, i: int, r: Vec4<int>) -> Mat4<int> {
        if i == 0 {
            Mat4 { m11: r.x, m12: r.y, m13: r.z, m14: r.w, ..m }
        } else if i == 1 {
            Mat4 { m21: r.x, m22: r.y, m23: r.z, m24: r.w, ..m }
        } else if i == 2 {
            Mat4 { m31: r.x, m32: r.y, m33: r.z, m34: r.w, ..m }
        } else {
            Mat4 { m41: r.x, m42: r.y, m43: r.z, m44: r.w, ..m }
        }
    }

    fn num_rows(&self) -> (n: usize) {
        4
    }

    fn row(&self, i: usize) -> (r: Vec4<N>) {
        if i == 0 {
            Vec4 { x: self.m11, y: self.m12, z: self.m13, w: self.m14 }
        } else if i == 1 {
            Vec4 { x: self.m21, y: self.m22, z: self.m23, w: self.m24 }
        } else if i == 2 {
            Vec4 { x: self.m31, y: self.m32, z: self.m33, w: self.m34 }
        } else {
            Vec4 { x: self.m41, y: self.m42, z: self.m43, w: self.m44 }
        }
    }

    fn set_row(&mut self, i: usize, r: Vec4<N>) {
        if i == 0 {
            self.m11 = r.x; self.m12 = r.y; self.m13 = r.z; self.m14 = r.w;
        } else if i == 1 {
            self.m21 = r.x; self.m22 = r.y; self.m23 = r.z; self.m24 = r.w;
        } else if i == 2 {
            self.m31 = r.x; self.m32 = r.y; self.m33 = r.z; self.m34 = r.w;
        } else {
            self.m41 = r.x; self.m42 = r.y; self.m43 = r.z; self.m44 = r.w;
        }
    }
}

impl<N: Scalar> Col<Vec4<N>> for Mat4<N> {
    open spec fn num_cols_model() -> nat {
        4
    }

    open spec fn col_model(m: Mat4<int>, j: int) -> Vec4<int> {
        if j == 0 {
            Vec4 { x: m.m11, y: m.m21, z: m.m31, w: m.m41 }
        } else if j == 1 {
            Vec4 { x: m.m12, y: m.m22, z: m.m32, w: m.m42 }
        } else if j == 2 {
            Vec4 { x: m.m13, y: m.m23, z: m.m33, w: m.m43 }
        } else {
            Vec4 { x: m.m14, y: m.m24, z: m.m34, w: m.m44 }
        }
    }

    open spec fn set_col_model(m: Mat4<int>, j: int, c: Vec4<int>) -> Mat4<int> {
        if j == 0 {
            Mat4 { m11: c.x, m21: c.y, m31: c.z, m41: c.w, ..m }
        } else if j == 1 {
            Mat4 { m12: c.x, m22: c.y, m32: c.z, m42: c.w, ..m }
        } else if j == 2 {
            Mat4 { m13: c.x, m23: c.y, m33: c.z, m43: c.w, ..m }
        } else {
            Mat4 { m14: c.x, m24: c.y, m34: c.z, m44: c.w, ..m }
        }
    }

    fn num_cols(&self) -> (n: usize) {
        4
    }

    fn col(&self, j: usize) -> (c: Vec4<N>) {
        if j == 0 {
            Vec4 { x: self.m11, y: self.m21, z: self.m31, w: self.m41 }
        } else if j == 1 {
            Vec4 { x: self.m12, y: self.m22, z: self.m32, w: self.m42 }
        } else if j == 2 {
            Vec4 { x: self.m13, y: self.m23, z: self.m33, w: self.m43 }
        } else {
            Vec4 { x: self.m14, y: self.m24, z: self.m34, w: self.m44 }
        }
    }

    fn set_col(&mut self, j: usize, c: Vec4<N>) {
        if j == 0 {
            self.m11 = c.x; self.m21 = c.y; self.m31 = c.z; self.m41 = c.w;
        } else if j == 1 {
            self.m12 = c.x; self.m22 = c.y; self.m32 = c.z; self.m42 = c.w;
        } else if j == 2 {
            self.m13 = c.x; self.m23 = c.y; self.m33 = c.z; self.m43 = c.w;
        } else {
            self.m14 = c.x; self.m24 = c.y; self.m34 = c.z; self.m44 = c.w;
        }
    }
}

impl<N: Scalar> ScalarAdd<N> for Mat4<N> {
    open spec fn scalar_add_fits(v: Mat4<int>, n: int) -> bool {
        Self::scalar_add_model(v, n).fits::<N>()
    }

    open spec fn scalar_add_model(v: Mat4<int>, n: int) -> Mat4<int> {
        Mat4 {
            m11: v.m11 + n, m12: v.m12 + n, m13: v.m13 + n, m14: v.m14 + n,
            m21: v.m21 + n, m22: v.m22 + n, m23: v.m23 + n, m24: v.m24 + n,
            m31: v.m31 + n, m32: v.m32 + n, m33: v.m33 + n, m34: v.m34 + n,
            m41: v.m41 + n, m42: v.m42 + n, m43: v.m43 + n, m44: v.m44 + n,
        }
    }

    fn scalar_add(&self, n: &N) -> (r: Self) {
        Mat4 {
            m11: self.m11.plus(*n),
            m12: self.m12.plus(*n),
            m13: self.m13.plus(*n),
            m14: self.m14.plus(*n),
            m21: self.m21.plus(*n),
            m22: self.m22.plus(*n),
            m23: self.m23.plus(*n),
            m24: self.m24.plus(*n),
            m31: self.m31.plus(*n),
            m32: self.m32.plus(*n),
            m33: self.m33.plus(*n),
            m34: self.m34.plus(*n),
            m41: self.m41.plus(*n),
            m42: self.m42.plus(*n),
            m43: self.m43.plus(*n),
            m44: self.m44.plus(*n),
        }
    }

    fn scalar_add_inplace(&mut self, n: &N) {
        *self = self.scalar_add(n);
    }
}

impl<N: Scalar> ScalarSub<N> for Mat4<N> {
    open spec fn scalar_sub_fits(v: Mat4<int>, n: int) -> bool {
        Self::scalar_sub_model(v, n).fits::<N>()
    }

    open spec fn scalar_sub_model(v: Mat4<int>, n: int) -> Mat4<int> {
        Mat4 {
            m11: v.m11 - n, m12: v.m12 - n, m13: v.m13 - n, m14: v.m14 - n,
            m21: v.m21 - n, m22: v.m22 - n, m23: v.m23 - n, m24: v.m24 - n,
            m31: v.m31 - n, m32: v.m32 - n, m33: v.m33 - n, m34: v.m34 - n,
            m41: v.m41 - n, m42: v.m42 - n, m43: v.m43 - n, m44: v.m44 - n,
        }
    }

    fn scalar_sub(&self, n: &N) -> (r: Self) {
        Mat4 {
            m11: self.m11.minus(*n),
            m12: self.m12.minus(*n),
            m13: self.m13.minus(*n),
            m14: self.m14.minus(*n),
            m21: self.m21.minus(*n),
            m22: self.m22.minus(*n),
            m23: self.m23.minus(*n),
            m24: self.m24.minus(*n),
            m31: self.m31.minus(*n),
            m32: self.m32.minus(*n),
            m33: self.m33.minus(*n),
            m34: self.m34.minus(*n),
            m41: self.m41.minus(*n),
            m42: self.m42.minus(*n),
            m43: self.m43.minus(*n),
            m44: self.m44.minus(*n),
        }
    }

    fn scalar_sub_inplace(&mut self, n: &N) {
        *self = self.scalar_sub(n);
    }
}

impl<N: Scalar> Iterable<N> for Mat4<N> {
    open spec fn components_model(v: Mat4<int>) -> Seq<int> {
        seq![
            v.m11, v.m12, v.m13, v.m14,
            v.m21, v.m22, v.m23, v.m24,
            v.m31, v.m32, v.m33, v.m34,
            v.m41, v.m42, v.m43, v.m44,
        ]
    }

    fn components(&self) -> (r: Vec<N>) {
        let mut res: Vec<N> = Vec::new();
        res.push(self.m11);
        res.push(self.m12);
        res.push(self.m13);
        res.push(self.m14);
        res.push(self.m21);
        res.push(self.m22);
        res.push(self.m23);
        res.push(self.m24);
        res.push(self.m31);
        res.push(self.m32);
        res.push(self.m33);
        res.push(self.m34);
        res.push(self.m41);
        res.push(self.m42);
        res.push(self.m43);
        res.push(self.m44);
        res
    }
}

impl<N: Scalar> IterableMut<N> for Mat4<N> {
    fn set_components(&mut self, c: &Vec<N>) {
        self.m11 = c[0];
        self.m12 = c[1];
        self.m13 = c[2];
        self.m14 = c[3];
        self.m21 = c[4];
        self.m22 = c[5];
        self.m23 = c[6];
        self.m24 = c[7];
        self.m31 = c[8];
        self.m32 = c[9];
        self.m33 = c[10];
        self.m34 = c[11];
        self.m41 = c[12];
        self.m42 = c[13];
        self.m43 = c[14];
        self.m44 = c[15];
    }
}

impl<N: Scalar> Indexable<(usize, usize), N> for Mat5<N> {
    open spec fn index_in_range(i: (usize, usize)) -> bool {
        i.0 < 5 && i.1 < 5
    }

    open spec fn at_model(v: Mat5<int>, i: (usize, usize)) -> int {
        if i.0 == 0 {
            if i.1 == 0 {
                v.m11
            } else if i.1 == 1 {
                v.m12
            } else if i.1 == 2 {
                v.m13
            } else if i.1 == 3 {
                v.m14
            } else {
                v.m15
            }
        } else if i.0 == 1 {
            if i.1 == 0 {
                v.m21
            } else if i.1 == 1 {
                v.m22
            } else if i.1 == 2 {
                v.m23
            } else if i.1 == 3 {
                v.m24
            } else {
                v.m25
            }
        } else if i.0 == 2 {
            if i.1 == 0 {
                v.m31
            } else if i.1 == 1 {
                v.m32
            } else if i.1 == 2 {
                v.m33
            } else if i.1 == 3 {
                v.m34
            } else {
                v.m35
            }
        } else if i.0 == 3 {
            if i.1 == 0 {
                v.m41
            } else if i.1 == 1 {
                v.m42
            } else if i.1 == 2 {
                v.m43
            } else if i.1 == 3 {
                v.m44
            } else {
                v.m45
            }
        } else {
            if i.1 == 0 {
                v.m51
            } else if i.1 == 1 {
                v.m52
            } else if i.1 == 2 {
                v.m53
            } else if i.1 == 3 {
                v.m54
            } else {
                v.m55
            }
        }
    }

    open spec fn set_model(v: Mat5<int>, i: (usize, usize), x: int) -> Mat5<int> {
        if i.0 == 0 {
            if i.1 == 0 {
                Mat5 { m11: x, ..v }
            } else if i.1 == 1 {
                Mat5 { m12: x, ..v }
            } else if i.1 == 2 {
                Mat5 { m13: x, ..v }
            } else if i.1 == 3 {
                Mat5 { m14: x, ..v }
            } else {
                Mat5 { m15: x, ..v }
            }
        } else if i.0 == 1 {
            if i.1 == 0 {
                Mat5 { m21: x, ..v }
            } else if i.1 == 1 {
                Mat5 { m22: x, ..v }
            } else if i.1 == 2 {
                Mat5 { m23: x, ..v }
            } else if i.1 == 3 {
                Mat5 { m24: x, ..v }
            } else {
                Mat5 { m25: x, ..v }
            }
        } else if i.0 == 2 {
            if i.1 == 0 {
                Mat5 { m31: x, ..v }
            } else if i.1 == 1 {
                Mat5 { m32: x, ..v }
            } else if i.1 == 2 {
                Mat5 { m33: x, ..v }
            } else if i.1 == 3 {
                Mat5 { m34: x, ..v }
            } else {
                Mat5 { m35: x, ..v }
            }
        } else if i.0 == 3 {
            if i.1 == 0 {
                Mat5 { m41: x, ..v }
            } else if i.1 == 1 {
                Mat5 { m42: x, ..v }
            } else if i.1 == 2 {
                Mat5 { m43: x, ..v }
            } else if i.1 == 3 {
                Mat5 { m44: x, ..v }
            } else {
                Mat5 { m45: x, ..v }
            }
        } else {
            if i.1 == 0 {
                Mat5 { m51: x, ..v }
            } else if i.1 == 1 {
                Mat5 { m52: x, ..v }
            } else if i.1 == 2 {
                Mat5 { m53: x, ..v }
            } else if i.1 == 3 {
                Mat5 { m54: x, ..v }
            } else {
                Mat5 { m55: x, ..v }
            }
        }
    }

    proof fn lemma_at_set(v: Mat5<int>, i: (usize, usize), x: int) {
    }

    fn at(&self, i: (usize, usize)) -> (r: N) {
        if i.0 == 0 {
            if i.1 == 0 {
                self.m11
            } else if i.1 == 1 {
                self.m12
            } else if i.1 == 2 {
                self.m13
            } else if i.1 == 3 {
                self.m14
            } else {
                self.m15
            }
        } else if i.0 == 1 {
            if i.1 == 0 {
                self.m21
            } else if i.1 == 1 {
                self.m22
            } else if i.1 == 2 {
                self.m23
            } else if i.1 == 3 {
                self.m24
            } else {
                self.m25
            }
        } else if i.0 == 2 {
            if i.1 == 0 {
                self.m31
            } else if i.1 == 1 {
                self.m32
            } else if i.1 == 2 {
                self.m33
            } else if i.1 == 3 {
                self.m34
            } else {
                self.m35
            }
        } else if i.0 == 3 {
            if i.1 == 0 {
                self.m41
            } else if i.1 == 1 {
                self.m42
            } else if i.1 == 2 {
                self.m43
            } else if i.1 == 3 {
                self.m44
            } else {
                self.m45
            }
        } else {
            if i.1 == 0 {
                self.m51
            } else if i.1 == 1 {
                self.m52
            } else if i.1 == 2 {
                self.m53
            } else if i.1 == 3 {
                self.m54
            } else {
                self.m55
            }
        }
    }

    fn set(&mut self, i: (usize, usize), x: N) {
        if i.0 == 0 {
            if i.1 == 0 {
                self.m11 = x;
            } else if i.1 == 1 {
                self.m12 = x;
            } else if i.1 == 2 {
                self.m13 = x;
            } else if i.1 == 3 {
                self.m14 = x;
            } else {
                self.m15 = x;
            }
        } else if i.0 == 1 {
            if i.1 == 0 {
                self.m21 = x;
            } else if i.1 == 1 {
                self.m22 = x;
            } else if i.1 == 2 {
                self.m23 = x;
            } else if i.1 == 3 {
                self.m24 = x;
            } else {
                self.m25 = x;
            }
        } else if i.0 == 2 {
            if i.1 == 0 {
                self.m31 = x;
            } else if i.1 == 1 {
                self.m32 = x;
            } else if i.1 == 2 {
                self.m33 = x;
            } else if i.1 == 3 {
                self.m34 = x;
            } else {
                self.m35 = x;
            }
        } else if i.0 == 3 {
            if i.1 == 0 {
                self.m41 = x;
            } else if i.1 == 1 {
                self.m42 = x;
            } else if i.1 == 2 {
                self.m43 = x;
            } else if i.1 == 3 {
                self.m44 = x;
            } else {
                self.m45 = x;
            }
        } else {
            if i.1 == 0 {
                self.m51 = x;
            } else if i.1 == 1 {
                self.m52 = x;
            } else if i.1 == 2 {
                self.m53 = x;
            } else if i.1 == 3 {
                self.m54 = x;
            } else {
                self.m55 = x;
            }
        }
    }

    fn swap(&mut self, i: (usize, usize), j: (usize, usize)) {
        let a = self.at(i);
        let b = self.at(j);
        self.set(i, b);
        self.set(j, a);
    }
}

impl<N: Scalar> Row<Vec5<N>> for Mat5<N> {
    open spec fn num_rows_model() -> nat {
        5
    }

    open spec fn row_model(m: Mat5<int>, i: int) -> Vec5<int> {
        if i == 0 {
            Vec5 { x: m.m11, y: m.m12, z: m.m13, w: m.m14, a: m.m15 }
        } else if i == 1 {
            Vec5 { x: m.m21, y: m.m22, z: m.m23, w: m.m24, a: m.m25 }
        } else if i == 2 {
            Vec5 { x: m.m31, y: m.m32, z: m.m33, w: m.m34, a: m.m35 }
        } else if i == 3 {
            Vec5 { x: m.m41, y: m.m42, z: m.m43, w: m.m44, a: m.m45 }
        } else {
            Vec5 { x: m.m51, y: m.m52, z: m.m53, w: m.m54, a: m.m55 }
        }
    }

    open spec fn set_row_model(m: Mat5<int>, i: int, r: Vec5<int>) -> Mat5<int> {
        if i == 0 {
            Mat5 { m11: r.x, m12: r.y, m13: r.z, m14: r.w, m15: r.a, ..m }
        } else if i == 1 {
            Mat5 { m21: r.x, m22: r.y, m23: r.z, m24: r.w, m25: r.a, ..m }
        } else if i == 2 {
            Mat5 { m31: r.x, m32: r.y, m33: r.z, m34: r.w, m35: r.a, ..m }
        } else if i == 3 {
            Mat5 { m41: r.x, m42: r.y, m43: r.z, m44: r.w, m45: r.a, ..m }
        } else {
            Mat5 { m51: r.x, m52: r.y, m53: r.z, m54: r.w, m55: r.a, ..m }
        }
    }

    fn num_rows(&self) -> (n: usize) {
        5
    }

    fn row(&self, i: usize) -> (r: Vec5<N>) {
        if i == 0 {
            Vec5 { x: self.m11, y: self.m12, z: self.m13, w: self.m14, a: self.m15 }
        } else if i == 1 {
            Vec5 { x: self.m21, y: self.m22, z: self.m23, w: self.m24, a: self.m25 }
        } else if i == 2 {
            Vec5 { x: self.m31, y: self.m32, z: self.m33, w: self.m34, a: self.m35 }
        } else if i == 3 {
            Vec5 { x: self.m41, y: self.m42, z: self.m43, w: self.m44, a: self.m45 }
        } else {
            Vec5 { x: self.m51, y: self.m52, z: self.m53, w: self.m54, a: self.m55 }
        }
    }

    fn set_row(&mut self, i: usize, r: Vec5<N>) {
        if i == 0 {
            self.m11 = r.x; self.m12 = r.y; self.m13 = r.z; self.m14 = r.w; self.m15 = r.a;
        } else if i == 1 {
            self.m21 = r.x; self.m22 = r.y; self.m23 = r.z; self.m24 = r.w; self.m25 = r.a;
        } else if i == 2 {
            self.m31 = r.x; self.m32 = r.y; self.m33 = r.z; self.m34 = r.w; self.m35 = r.a;
        } else if i == 3 {
            self.m41 = r.x; self.m42 = r.y; self.m43 = r.z; self.m44 = r.w; self.m45 = r.a;
        } else {
            self.m51 = r.x; self.m52 = r.y; self.m53 = r.z; self.m54 = r.w; self.m55 = r.a;
        }
    }
}

impl<N: Scalar> Col<Vec5<N>> for Mat5<N> {
    open spec fn num_cols_model() -> nat {
        5
    }

    open spec fn col_model(m: Mat5<int>, j: int) -> Vec5<int> {
        if j == 0 {
            Vec5 { x: m.m11, y: m.m21, z: m.m31, w: m.m41, a: m.m51 }
        } else if j == 1 {
            Vec5 { x: m.m12, y: m.m22, z: m.m32, w: m.m42, a: m.m52 }
        } else if j == 2 {
            Vec5 { x: m.m13, y: m.m23, z: m.m33, w: m.m43, a: m.m53 }
        } else if j == 3 {
            Vec5 { x: m.m14, y: m.m24, z: m.m34, w: m.m44, a: m.m54 }
        } else {
            Vec5 { x: m.m15, y: m.m25, z: m.m35, w: m.m45, a: m.m55 }
        }
    }

    open spec fn set_col_model(m: Mat5<int>, j: int, c: Vec5<int>) -> Mat5<int> {
        if j == 0 {
            Mat5 { m11: c.x, m21: c.y, m31: c.z, m41: c.w, m51: c.a, ..m }
        } else if j == 1 {
            Mat5 { m12: c.x, m22: c.y, m32: c.z, m42: c.w, m52: c.a, ..m }
        } else if j == 2 {
            Mat5 { m13: c.x, m23: c.y, m33: c.z, m43: c.w, m53: c.a, ..m }
        } else if j == 3 {
            Mat5 { m14: c.x, m24: c.y, m34: c.z, m44: c.w, m54: c.a, ..m }
        } else {
            Mat5 { m15: c.x, m25: c.y, m35: c.z, m45: c.w, m55: c.a, ..m }
        }
    }

    fn num_cols(&self) -> (n: usize) {
        5
    }

    fn col(&self, j: usize) -> (c: Vec5<N>) {
        if j == 0 {
            Vec5 { x: self.m11, y: self.m21, z: self.m31, w: self.m41, a: self.m51 }
        } else if j == 1 {
            Vec5 { x: self.m12, y: self.m22, z: self.m32, w: self.m42, a: self.m52 }
        } else if j == 2 {
            Vec5 { x: self.m13, y: self.m23, z: self.m33, w: self.m43, a: self.m53 }
        } else if j == 3 {
            Vec5 { x: self.m14, y: self.m24, z: self.m34, w: self.m44, a: self.m54 }
        } else {
            Vec5 { x: self.m15, y: self.m25, z: self.m35, w: self.m45, a: self.m55 }
        }
    }

    fn set_col(&mut self, j: usize, c: Vec5<N>) {
        if j == 0 {
            self.m11 = c.x; self.m21 = c.y; self.m31 = c.z; self.m41 = c.w; self.m51 = c.a;
        } else if j == 1 {
            self.m12 = c.x; self.m22 = c.y; self.m32 = c.z; self.m42 = c.w; self.m52 = c.a;
        } else if j == 2 {
            self.m13 = c.x; self.m23 = c.y; self.m33 = c.z; self.m43 = c.w; self.m53 = c.a;
        } else if j == 3 {
            self.m14 = c.x; self.m24 = c.y; self.m34 = c.z; self.m44 = c.w; self.m54 = c.a;
        } else {
            self.m15 = c.x; self.m25 = c.y; self.m35 = c.z; self.m45 = c.w; self.m55 = c.a;
        }
    }
}

impl<N: Scalar> ScalarAdd<N> for Mat5<N> {
    open spec fn scalar_add_fits(v: Mat5<int>, n: int) -> bool {
        Self::scalar_add_model(v, n).fits::<N>()
    }

    open spec fn scalar_add_model(v: Mat5<int>, n: int) -> Mat5<int> {
        Mat5 {
            m11: v.m11 + n, m12: v.m12 + n, m13: v.m13 + n, m14: v.m14 + n, m15: v.m15 + n,
            m21: v.m21 + n, m22: v.m22 + n, m23: v.m23 + n, m24: v.m24 + n, m25: v.m25 + n,
            m31: v.m31 + n, m32: v.m32 + n, m33: v.m33 + n, m34: v.m34 + n, m35: v.m35 + n,
            m41: v.m41 + n, m42: v.m42 + n, m43: v.m43 + n, m44: v.m44 + n, m45: v.m45 + n,
            m51: v.m51 + n, m52: v.m52 + n, m53: v.m53 + n, m54: v.m54 + n, m55: v.m55 + n,
        }
    }

    fn scalar_add(&self, n: &N) -> (r: Self) {
        Mat5 {
            m11: self.m11.plus(*n),
            m12: self.m12.plus(*n),
            m13: self.m13.plus(*n),
            m14: self.m14.plus(*n),
            m15: self.m15.plus(*n),
            m21: self.m21.plus(*n),
            m22: self.m22.plus(*n),
            m23: self.m23.plus(*n),
            m24: self.m24.plus(*n),
            m25: self.m25.plus(*n),
            m31: self.m31.plus(*n),
            m32: self.m32.plus(*n),
            m33: self.m33.plus(*n),
            m34: self.m34.plus(*n),
            m35: self.m35.plus(*n),
            m41: self.m41.plus(*n),
            m42: self.m42.plus(*n),
            m43: self.m43.plus(*n),
            m44: self.m44.plus(*n),
            m45: self.m45.plus(*n),
            m51: self.m51.plus(*n),
            m52: self.m52.plus(*n),
            m53: self.m53.plus(*n),
            m54: self.m54.plus(*n),
            m55: self.m55.plus(*n),
        }
    }

    fn scalar_add_inplace(&mut self, n: &N) {
        *self = self.scalar_add(n);
    }
}

impl<N: Scalar> ScalarSub<N> for Mat5<N> {
    open spec fn scalar_sub_fits(v: Mat5<int>, n: int) -> bool {
        Self::scalar_sub_model(v, n).fits::<N>()
    }

    open spec fn scalar_sub_model(v: Mat5<int>, n: int) -> Mat5<int> {
        Mat5 {
            m11: v.m11 - n, m12: v.m12 - n, m13: v.m13 - n, m14: v.m14 - n, m15: v.m15 - n,
            m21: v.m21 - n, m22: v.m22 - n, m23: v.m23 - n, m24: v.m24 - n, m25: v.m25 - n,
            m31: v.m31 - n, m32: v.m32 - n, m33: v.m33 - n, m34: v.m34 - n, m35: v.m35 - n,
            m41: v.m41 - n, m42: v.m42 - n, m43: v.m43 - n, m44: v.m44 - n, m45: v.m45 - n,
            m51: v.m51 - n, m52: v.m52 - n, m53: v.m53 - n, m54: v.m54 - n, m55: v.m55 - n,
        }
    }

    fn scalar_sub(&self, n: &N) -> (r: Self) {
        Mat5 {
            m11: self.m11.minus(*n),
            m12: self.m12.minus(*n),
            m13: self.m13.minus(*n),
            m14: self.m14.minus(*n),
            m15: self.m15.minus(*n),
            m21: self.m21.minus(*n),
            m22: self.m22.minus(*n),
            m23: self.m23.minus(*n),
            m24: self.m24.minus(*n),
            m25: self.m25.minus(*n),
            m31: self.m31.minus(*n),
            m32: self.m32.minus(*n),
            m33: self.m33.minus(*n),
            m34: self.m34.minus(*n),
            m35: self.m35.minus(*n),
            m41: self.m41.minus(*n),
            m42: self.m42.minus(*n),
            m43: self.m43.minus(*n),
            m44: self.m44.minus(*n),
            m45: self.m45.minus(*n),
            m51: self.m51.minus(*n),
            m52: self.m52.minus(*n),
            m53: self.m53.minus(*n),
            m54: self.m54.minus(*n),
            m55: self.m55.minus(*n),
        }
    }

    fn scalar_sub_inplace(&mut self, n: &N) {
        *self = self.scalar_sub(n);
    }
}

impl<N: Scalar> Iterable<N> for Mat5<N> {
    open spec fn components_model(v: Mat5<int>) -> Seq<int> {
        seq![
            v.m11, v.m12, v.m13, v.m14, v.m15,
            v.m21, v.m22, v.m23, v.m24, v.m25,
            v.m31, v.m32, v.m33, v.m34, v.m35,
            v.m41, v.m42, v.m43, v.m44, v.m45,
            v.m51, v.m52, v.m53, v.m54, v.m55,
        ]
    }

    fn components(&self) -> (r: Vec<N>) {
        let mut res: Vec<N> = Vec::new();
        res.push(self.m11);
        res.push(self.m12);
        res.push(self.m13);
        res.push(self.m14);
        res.push(self.m15);
        res.push(self.m21);
        res.push(self.m22);
        res.push(self.m23);
        res.push(self.m24);
        res.push(self.m25);
        res.push(self.m31);
        res.push(self.m32);
        res.push(self.m33);
        res.push(self.m34);
        res.push(self.m35);
        res.push(self.m41);
        res.push(self.m42);
        res.push(self.m43);
        res.push(self.m44);
        res.push(self.m45);
        res.push(self.m51);
        res.push(self.m52);
        res.push(self.m53);
        res.push(self.m54);
        res.push(self.m55);
        res
    }
}

impl<N: Scalar> IterableMut<N> for Mat5<N> {
    fn set_components(&mut self, c: &Vec<N>) {
        self.m11 = c[0];
        self.m12 = c[1];
        self.m13 = c[2];
        self.m14 = c[3];
        self.m15 = c[4];
        self.m21 = c[5];
        self.m22 = c[6];
        self.m23 = c[7];
        self.m24 = c[8];
        self.m25 = c[9];
        self.m31 = c[10];
        self.m32 = c[11];
        self.m33 = c[12];
        self.m34 = c[13];
        self.m35 = c[14];
        self.m41 = c[15];
        self.m42 = c[16];
        self.m43 = c[17];
        self.m44 = c[18];
        self.m45 = c[19];
        self.m51 = c[20];
        self.m52 = c[21];
        self.m53 = c[22];
        self.m54 = c[23];
        self.m55 = c[24];
    }
}

impl<N: Scalar> Indexable<(usize, usize), N> for Mat6<N> {
    open spec fn index_in_range(i: (usize, usize)) -> bool {
        i.0 < 6 && i.1 < 6
    }

    open spec fn at_model(v: Mat6<int>, i: (usize, usize)) -> int {
        if i.0 == 0 {
            if i.1 == 0 {
                v.m11
            } else if i.1 == 1 {
                v.m12
            } else if i.1 == 2 {
                v.m13
            } else if i.1 == 3 {
                v.m14
            } else if i.1 == 4 {
                v.m15
            } else {
                v.m16
            }
        } else if i.0 == 1 {
            if i.1 == 0 {
                v.m21
            } else if i.1 == 1 {
                v.m22
            } else if i.1 == 2 {
                v.m23
            } else if i.1 == 3 {
                v.m24
            } else if i.1 == 4 {
                v.m25
            } else {
                v.m26
            }
        } else if i.0 == 2 {
            if i.1 == 0 {
                v.m31
            } else if i.1 == 1 {
                v.m32
            } else if i.1 == 2 {
                v.m33
            } else if i.1 == 3 {
                v.m34
            } else if i.1 == 4 {
                v.m35
            } else {
                v.m36
            }
        } else if i.0 == 3 {
            if i.1 == 0 {
                v.m41
            } else if i.1 == 1 {
                v.m42
            } else if i.1 == 2 {
                v.m43
            } else if i.1 == 3 {
                v.m44
            } else if i.1 == 4 {
                v.m45
            } else {
                v.m46
            }
        } else if i.0 == 4 {
            if i.1 == 0 {
                v.m51
            } else if i.1 == 1 {
                v.m52
            } else if i.1 == 2 {
                v.m53
            } else if i.1 == 3 {
                v.m54
            } else if i.1 == 4 {
                v.m55
            } else {
                v.m56
            }
        } else {
            if i.1 == 0 {
                v.m61
            } else if i.1 == 1 {
                v.m62
            } else if i.1 == 2 {
                v.m63
            } else if i.1 == 3 {
                v.m64
            } else if i.1 == 4 {
                v.m65
            } else {
                v.m66
            }
        }
    }

    open spec fn set_model(v: Mat6<int>, i: (usize, usize), x: int) -> Mat6<int> {
        if i.0 == 0 {
            if i.1 == 0 {
                Mat6 { m11: x, ..v }
            } else if i.1 == 1 {
                Mat6 { m12: x, ..v }
            } else if i.1 == 2 {
                Mat6 { m13: x, ..v }
            } else if i.1 == 3 {
                Mat6 { m14: x, ..v }
            } else if i.1 == 4 {
                Mat6 { m15: x, ..v }
            } else {
                Mat6 { m16: x, ..v }
            }
        } else if i.0 == 1 {
            if i.1 == 0 {
                Mat6 { m21: x, ..v }
            } else if i.1 == 1 {
                Mat6 { m22: x, ..v }
            } else if i.1 == 2 {
                Mat6 { m23: x, ..v }
            } else if i.1 == 3 {
                Mat6 { m24: x, ..v }
            } else if i.1 == 4 {
                Mat6 { m25: x, ..v }
            } else {
                Mat6 { m26: x, ..v }
            }
        } else if i.0 == 2 {
            if i.1 == 0 {
                Mat6 { m31: x, ..v }
            } else if i.1 == 1 {
                Mat6 { m32: x, ..v }
            } else if i.1 == 2 {
                Mat6 { m33: x, ..v }
            } else if i.1 == 3 {
                Mat6 { m34: x, ..v }
            } else if i.1 == 4 {
                Mat6 { m35: x, ..v }
            } else {
                Mat6 { m36: x, ..v }
            }
        } else if i.0 == 3 {
            if i.1 == 0 {
                Mat6 { m41: x, ..v }
            } else if i.1 == 1 {
                Mat6 { m42: x, ..v }
            } else if i.1 == 2 {
                Mat6 { m43: x, ..v }
            } else if i.1 == 3 {
                Mat6 { m44: x, ..v }
            } else if i.1 == 4 {
                Mat6 { m45: x, ..v }
            } else {
                Mat6 { m46: x, ..v }
            }
        } else if i.0 == 4 {
            if i.1 == 0 {
                Mat6 { m51: x, ..v }
            } else if i.1 == 1 {
                Mat6 { m52: x, ..v }
            } else if i.1 == 2 {
                Mat6 { m53: x, ..v }
            } else if i.1 == 3 {
                Mat6 { m54: x, ..v }
            } else if i.1 == 4 {
                Mat6 { m55: x, ..v }
            } else {
                Mat6 { m56: x, ..v }
            }
        } else {
            if i.1 == 0 {
                Mat6 { m61: x, ..v }
            } else if i.1 == 1 {
                Mat6 { m62: x, ..v }
            } else if i.1 == 2 {
                Mat6 { m63: x, ..v }
            } else if i.1 == 3 {
                Mat6 { m64: x, ..v }
            } else if i.1 == 4 {
                Mat6 { m65: x, ..v }
            } else {
                Mat6 { m66: x, ..v }
            }
        }
    }

    proof fn lemma_at_set(v: Mat6<int>, i: (usize, usize), x: int) {
    }

    fn at(&self, i: (usize, usize)) -> (r: N) {
        if i.0 == 0 {
            if i.1 == 0 {
                self.m11
            } else if i.1 == 1 {
                self.m12
            } else if i.1 == 2 {
                self.m13
            } else if i.1 == 3 {
                self.m14
            } else if i.1 == 4 {
                self.m15
            } else {
                self.m16
            }
        } else if i.0 == 1 {
            if i.1 == 0 {
                self.m21
            } else if i.1 == 1 {
                self.m22
            } else if i.1 == 2 {
                self.m23
            } else if i.1 == 3 {
                self.m24
            } else if i.1 == 4 {
                self.m25
            } else {
                self.m26
            }
        } else if i.0 == 2 {
            if i.1 == 0 {
                self.m31
            } else if i.1 == 1 {
                self.m32
            } else if i.1 == 2 {
                self.m33
            } else if i.1 == 3 {
                self.m34
            } else if i.1 == 4 {
                self.m35
            } else {
                self.m36
            }
        } else if i.0 == 3 {
            if i.1 == 0 {
                self.m41
            } else if i.1 == 1 {
                self.m42
            } else if i.1 == 2 {
                self.m43
            } else if i.1 == 3 {
                self.m44
            } else if i.1 == 4 {
                self.m45
            } else {
                self.m46
            }
        } else if i.0 == 4 {
            if i.1 == 0 {
                self.m51
            } else if i.1 == 1 {
                self.m52
            } else if i.1 == 2 {
                self.m53
            } else if i.1 == 3 {
                self.m54
            } else if i.1 == 4 {
                self.m55
            } else {
                self.m56
            }
        } else {
            if i.1 == 0 {
                self.m61
            } else if i.1 == 1 {
                self.m62
            } else if i.1 == 2 {
                self.m63
            } else if i.1 == 3 {
                self.m64
            } else if i.1 == 4 {
                self.m65
            } else {
                self.m66
            }
        }
    }

    fn set(&mut self, i: (usize, usize), x: N) {
        if i.0 == 0 {
            if i.1 == 0 {
                self.m11 = x;
            } else if i.1 == 1 {
                self.m12 = x;
            } else if i.1 == 2 {
                self.m13 = x;
            } else if i.1 == 3 {
                self.m14 = x;
            } else if i.1 == 4 {
                self.m15 = x;
            } else {
                self.m16 = x;
            }
        } else if i.0 == 1 {
            if i.1 == 0 {
                self.m21 = x;
            } else if i.1 == 1 {
                self.m22 = x;
            } else if i.1 == 2 {
                self.m23 = x;
            } else if i.1 == 3 {
                self.m24 = x;
            } else if i.1 == 4 {
                self.m25 = x;
            } else {
                self.m26 = x;
            }
        } else if i.0 == 2 {
            if i.1 == 0 {
                self.m31 = x;
            } else if i.1 == 1 {
                self.m32 = x;
            } else if i.1 == 2 {
                self.m33 = x;
            } else if i.1 == 3 {
                self.m34 = x;
            } else if i.1 == 4 {
                self.m35 = x;
            } else {
                self.m36 = x;
            }
        } else if i.0 == 3 {
            if i.1 == 0 {
                self.m41 = x;
            } else if i.1 == 1 {
                self.m42 = x;
            } else if i.1 == 2 {
                self.m43 = x;
            } else if i.1 == 3 {
                self.m44 = x;
            } else if i.1 == 4 {
                self.m45 = x;
            } else {
                self.m46 = x;
            }
        } else if i.0 == 4 {
            if i.1 == 0 {
                self.m51 = x;
            } else if i.1 == 1 {
                self.m52 = x;
            } else if i.1 == 2 {
                self.m53 = x;
            } else if i.1 == 3 {
                self.m54 = x;
            } else if i.1 == 4 {
                self.m55 = x;
            } else {
                self.m56 = x;
            }
        } else {
            if i.1 == 0 {
                self.m61 = x;
            } else if i.1 == 1 {
                self.m62 = x;
            } else if i.1 == 2 {
                self.m63 = x;
            } else if i.1 == 3 {
                self.m64 = x;
            } else if i.1 == 4 {
                self.m65 = x;
            } else {
                self.m66 = x;
            }
        }
    }

    fn swap(&mut self, i: (usize, usize), j: (usize, usize)) {
        let a = self.at(i);
        let b = self.at(j);
        self.set(i, b);
        self.set(j, a);
    }
}

impl<N: Scalar> Row<Vec6<N>> for Mat6<N> {
    open spec fn num_rows_model() -> nat {
        6
    }

    open spec fn row_model(m: Mat6<int>, i: int) -> Vec6<int> {
        if i == 0 {
            Vec6 { x: m.m11, y: m.m12, z: m.m13, w: m.m14, a: m.m15, b: m.m16 }
        } else if i == 1 {
            Vec6 { x: m.m21, y: m.m22, z: m.m23, w: m.m24, a: m.m25, b: m.m26 }
        } else if i == 2 {
            Vec6 { x: m.m31, y: m.m32, z: m.m33, w: m.m34, a: m.m35, b: m.m36 }
        } else if i == 3 {
            Vec6 { x: m.m41, y: m.m42, z: m.m43, w: m.m44, a: m.m45, b: m.m46 }
        } else if i == 4 {
            Vec6 { x: m.m51, y: m.m52, z: m.m53, w: m.m54, a: m.m55, b: m.m56 }
        } else {
            Vec6 { x: m.m61, y: m.m62, z: m.m63, w: m.m64, a: m.m65, b: m.m66 }
        }
    }

    open spec fn set_row_model(m: Mat6<int>, i: int, r: Vec6<int>) -> Mat6<int> {
        if i == 0 {
            Mat6 { m11: r.x, m12: r.y, m13: r.z, m14: r.w, m15: r.a, m16: r.b, ..m }
        } else if i == 1 {
            Mat6 { m21: r.x, m22: r.y, m23: r.z, m24: r.w, m25: r.a, m26: r.b, ..m }
        } else if i == 2 {
            Mat6 { m31: r.x, m32: r.y, m33: r.z, m34: r.w, m35: r.a, m36: r.b, ..m }
        } else if i == 3 {
            Mat6 { m41: r.x, m42: r.y, m43: r.z, m44: r.w, m45: r.a, m46: r.b, ..m }
        } else if i == 4 {
            Mat6 { m51: r.x, m52: r.y, m53: r.z, m54: r.w, m55: r.a, m56: r.b, ..m }
        } else {
            Mat6 { m61: r.x, m62: r.y, m63: r.z, m64: r.w, m65: r.a, m66: r.b, ..m }
        }
    }

    fn num_rows(&self) -> (n: usize) {
        6
    }

    fn row(&self, i: usize) -> (r: Vec6<N>) {
        if i == 0 {
            Vec6 { x: self.m11, y: self.m12, z: self.m13, w: self.m14, a: self.m15, b: self.m16 }
        } else if i == 1 {
            Vec6 { x: self.m21, y: self.m22, z: self.m23, w: self.m24, a: self.m25, b: self.m26 }
        } else if i == 2 {
            Vec6 { x: self.m31, y: self.m32, z: self.m33, w: self.m34, a: self.m35, b: self.m36 }
        } else if i == 3 {
            Vec6 { x: self.m41, y: self.m42, z: self.m43, w: self.m44, a: self.m45, b: self.m46 }
        } else if i == 4 {
            Vec6 { x: self.m51, y: self.m52, z: self.m53, w: self.m54, a: self.m55, b: self.m56 }
        } else {
            Vec6 { x: self.m61, y: self.m62, z: self.m63, w: self.m64, a: self.m65, b: self.m66 }
        }
    }

    fn set_row(&mut self, i: usize, r: Vec6<N>) {
        if i == 0 {
            self.m11 = r.x; self.m12 = r.y; self.m13 = r.z; self.m14 = r.w; self.m15 = r.a; self.m16 = r.b;
        } else if i == 1 {
            self.m21 = r.x; self.m22 = r.y; self.m23 = r.z; self.m24 = r.w; self.m25 = r.a; self.m26 = r.b;
        } else if i == 2 {
            self.m31 = r.x; self.m32 = r.y; self.m33 = r.z; self.m34 = r.w; self.m35 = r.a; self.m36 = r.b;
        } else if i == 3 {
            self.m41 = r.x; self.m42 = r.y; self.m43 = r.z; self.m44 = r.w; self.m45 = r.a; self.m46 = r.b;
        } else if i == 4 {
            self.m51 = r.x; self.m52 = r.y; self.m53 = r.z; self.m54 = r.w; self.m55 = r.a; self.m56 = r.b;
        } else {
            self.m61 = r.x; self.m62 = r.y; self.m63 = r.z; self.m64 = r.w; self.m65 = r.a; self.m66 = r.b;
        }
    }
}

impl<N: Scalar> Col<Vec6<N>> for Mat6<N> {
    open spec fn num_cols_model() -> nat {
        6
    }

    open spec fn col_model(m: Mat6<int>, j: int) -> Vec6<int> {
        if j == 0 {
            Vec6 { x: m.m11, y: m.m21, z: m.m31, w: m.m41, a: m.m51, b: m.m61 }
        } else if j == 1 {
            Vec6 { x: m.m12, y: m.m22, z: m.m32, w: m.m42, a: m.m52, b: m.m62 }
        } else if j == 2 {
            Vec6 { x: m.m13, y: m.m23, z: m.m33, w: m.m43, a: m.m53, b: m.m63 }
        } else if j == 3 {
            Vec6 { x: m.m14, y: m.m24, z: m.m34, w: m.m44, a: m.m54, b: m.m64 }
        } else if j == 4 {
            Vec6 { x: m.m15, y: m.m25, z: m.m35, w: m.m45, a: m.m55, b: m.m65 }
        } else {
            Vec6 { x: m.m16, y: m.m26, z: m.m36, w: m.m46, a: m.m56, b: m.m66 }
        }
    }

    open spec fn set_col_model(m: Mat6<int>, j: int, c: Vec6<int>) -> Mat6<int> {
        if j == 0 {
            Mat6 { m11: c.x, m21: c.y, m31: c.z, m41: c.w, m51: c.a, m61: c.b, ..m }
        } else if j == 1 {
            Mat6 { m12: c.x, m22: c.y, m32: c.z, m42: c.w, m52: c.a, m62: c.b, ..m }
        } else if j == 2 {
            Mat6 { m13: c.x, m23: c.y, m33: c.z, m43: c.w, m53: c.a, m63: c.b, ..m }
        } else if j == 3 {
            Mat6 { m14: c.x, m24: c.y, m34: c.z, m44: c.w, m54: c.a, m64: c.b, ..m }
        } else if j == 4 {
            Mat6 { m15: c.x, m25: c.y, m35: c.z, m45: c.w, m55: c.a, m65: c.b, ..m }
        } else {
            Mat6 { m16: c.x, m26: c.y, m36: c.z, m46: c.w, m56: c.a, m66: c.b, ..m }
        }
    }

    fn num_cols(&self) -> (n: usize) {
        6
    }

    fn col(&self, j: usize) -> (c: Vec6<N>) {
        if j == 0 {
            Vec6 { x: self.m11, y: self.m21, z: self.m31, w: self.m41, a: self.m51, b: self.m61 }
        } else if j == 1 {
            Vec6 { x: self.m12, y: self.m22, z: self.m32, w: self.m42, a: self.m52, b: self.m62 }
        } else if j == 2 {
            Vec6 { x: self.m13, y: self.m23, z: self.m33, w: self.m43, a: self.m53, b: self.m63 }
        } else if j == 3 {
            Vec6 { x: self.m14, y: self.m24, z: self.m34, w: self.m44, a: self.m54, b: self.m64 }
        } else if j == 4 {
            Vec6 { x: self.m15, y: self.m25, z: self.m35, w: self.m45, a: self.m55, b: self.m65 }
        } else {
            Vec6 { x: self.m16, y: self.m26, z: self.m36, w: self.m46, a: self.m56, b: self.m66 }
        }
    }

    fn set_col(&mut self, j: usize, c: Vec6<N>) {
        if j == 0 {
            self.m11 = c.x; self.m21 = c.y; self.m31 = c.z; self.m41 = c.w; self.m51 = c.a; self.m61 = c.b;
        } else if j == 1 {
            self.m12 = c.x; self.m22 = c.y; self.m32 = c.z; self.m42 = c.w; self.m52 = c.a; self.m62 = c.b;
        } else if j == 2 {
            self.m13 = c.x; self.m23 = c.y; self.m33 = c.z; self.m43 = c.w; self.m53 = c.a; self.m63 = c.b;
        } else if j == 3 {
            self.m14 = c.x; self.m24 = c.y; self.m34 = c.z; self.m44 = c.w; self.m54 = c.a; self.m64 = c.b;
        } else if j == 4 {
            self.m15 = c.x; self.m25 = c.y; self.m35 = c.z; self.m45 = c.w; self.m55 = c.a; self.m65 = c.b;
        } else {
            self.m16 = c.x; self.m26 = c.y; self.m36 = c.z; self.m46 = c.w; self.m56 = c.a; self.m66 = c.b;
        }
    }
}

impl<N: Scalar> ScalarAdd<N> for Mat6<N> {
    open spec fn scalar_add_fits(v: Mat6<int>, n: int) -> bool {
        Self::scalar_add_model(v, n).fits::<N>()
    }

    open spec fn scalar_add_model(v: Mat6<int>, n: int) -> Mat6<int> {
        Mat6 {
            m11: v.m11 + n, m12: v.m12 + n, m13: v.m13 + n, m14: v.m14 + n, m15: v.m15
                + n, m16: v.m16 + n,
            m21: v.m21 + n, m22: v.m22 + n, m23: v.m23 + n, m24: v.m24 + n, m25: v.m25
                + n, m26: v.m26 + n,
            m31: v.m31 + n, m32: v.m32 + n, m33: v.m33 + n, m34: v.m34 + n, m35: v.m35
                + n, m36: v.m36 + n,
            m41: v.m41 + n, m42: v.m42 + n, m43: v.m43 + n, m44: v.m44 + n, m45: v.m45
                + n, m46: v.m46 + n,
            m51: v.m51 + n, m52: v.m52 + n, m53: v.m53 + n, m54: v.m54 + n, m55: v.m55
                + n, m56: v.m56 + n,
            m61: v.m61 + n, m62: v.m62 + n, m63: v.m63 + n, m64: v.m64 + n, m65: v.m65
                + n, m66: v.m66 + n,
        }
    }

    fn scalar_add(&self, n: &N) -> (r: Self) {
        Mat6 {
            m11: self.m11.plus(*n),
            m12: self.m12.plus(*n),
            m13: self.m13.plus(*n),
            m14: self.m14.plus(*n),
            m15: self.m15.plus(*n),
            m16: self.m16.plus(*n),
            m21: self.m21.plus(*n),
            m22: self.m22.plus(*n),
            m23: self.m23.plus(*n),
            m24: self.m24.plus(*n),
            m25: self.m25.plus(*n),
            m26: self.m26.plus(*n),
            m31: self.m31.plus(*n),
            m32: self.m32.plus(*n),
            m33: self.m33.plus(*n),
            m34: self.m34.plus(*n),
            m35: self.m35.plus(*n),
            m36: self.m36.plus(*n),
            m41: self.m41.plus(*n),
            m42: self.m42.plus(*n),
            m43: self.m43.plus(*n),
            m44: self.m44.plus(*n),
            m45: self.m45.plus(*n),
            m46: self.m46.plus(*n),
            m51: self.m51.plus(*n),
            m52: self.m52.plus(*n),
            m53: self.m53.plus(*n),
            m54: self.m54.plus(*n),
            m55: self.m55.plus(*n),
            m56: self.m56.plus(*n),
            m61: self.m61.plus(*n),
            m62: self.m62.plus(*n),
            m63: self.m63.plus(*n),
            m64: self.m64.plus(*n),
            m65: self.m65.plus(*n),
            m66: self.m66.plus(*n),
        }
    }

    fn scalar_add_inplace(&mut self, n: &N) {
        *self = self.scalar_add(n);
    }
}

impl<N: Scalar> ScalarSub<N> for Mat6<N> {
    open spec fn scalar_sub_fits(v: Mat6<int>, n: int) -> bool {
        Self::scalar_sub_model(v, n).fits::<N>()
    }

    open spec fn scalar_sub_model(v: Mat6<int>, n: int) -> Mat6<int> {
        Mat6 {
            m11: v.m11 - n, m12: v.m12 - n, m13: v.m13 - n, m14: v.m14 - n, m15: v.m15
                - n, m16: v.m16 - n,
            m21: v.m21 - n, m22: v.m22 - n, m23: v.m23 - n, m24: v.m24 - n, m25: v.m25
                - n, m26: v.m26 - n,
            m31: v.m31 - n, m32: v.m32 - n, m33: v.m33 - n, m34: v.m34 - n, m35: v.m35
                - n, m36: v.m36 - n,
            m41: v.m41 - n, m42: v.m42 - n, m43: v.m43 - n, m44: v.m44 - n, m45: v.m45
                - n, m46: v.m46 - n,
            m51: v.m51 - n, m52: v.m52 - n, m53: v.m53 - n, m54: v.m54 - n, m55: v.m55
                - n, m56: v.m56 - n,
            m61: v.m61 - n, m62: v.m62 - n, m63: v.m63 - n, m64: v.m64 - n, m65: v.m65
                - n, m66: v.m66 - n,
        }
    }

    fn scalar_sub(&self, n: &N) -> (r: Self) {
        Mat6 {
            m11: self.m11.minus(*n),
            m12: self.m12.minus(*n),
            m13: self.m13.minus(*n),
            m14: self.m14.minus(*n),
            m15: self.m15.minus(*n),
            m16: self.m16.minus(*n),
            m21: self.m21.minus(*n),
            m22: self.m22.minus(*n),
            m23: self.m23.minus(*n),
            m24: self.m24.minus(*n),
            m25: self.m25.minus(*n),
            m26: self.m26.minus(*n),
            m31: self.m31.minus(*n),
            m32: self.m32.minus(*n),
            m33: self.m33.minus(*n),
            m34: self.m34.minus(*n),
            m35: self.m35.minus(*n),
            m36: self.m36.minus(*n),
            m41: self.m41.minus(*n),
            m42: self.m42.minus(*n),
            m43: self.m43.minus(*n),
            m44: self.m44.minus(*n),
            m45: self.m45.minus(*n),
            m46: self.m46.minus(*n),
            m51: self.m51.minus(*n),
            m52: self.m52.minus(*n),
            m53: self.m53.minus(*n),
            m54: self.m54.minus(*n),
            m55: self.m55.minus(*n),
            m56: self.m56.minus(*n),
            m61: self.m61.minus(*n),
            m62: self.m62.minus(*n),
            m63: self.m63.minus(*n),
            m64: self.m64.minus(*n),
            m65: self.m65.minus(*n),
            m66: self.m66.minus(*n),
        }
    }

    fn scalar_sub_inplace(&mut self, n: &N) {
        *self = self.scalar_sub(n);
    }
}

impl<N: Scalar> Iterable<N> for Mat6<N> {
    open spec fn components_model(v: Mat6<int>) -> Seq<int> {
        seq![
            v.m11, v.m12, v.m13, v.m14, v.m15, v.m16,
            v.m21, v.m22, v.m23, v.m24, v.m25, v.m26,
            v.m31, v.m32, v.m33, v.m34, v.m35, v.m36,
            v.m41, v.m42, v.m43, v.m44, v.m45, v.m46,
            v.m51, v.m52, v.m53, v.m54, v.m55, v.m56,
            v.m61, v.m62, v.m63, v.m64, v.m65, v.m66,
        ]
    }

    fn components(&self) -> (r: Vec<N>) {
        let mut res: Vec<N> = Vec::new();
        res.push(self.m11);
        res.push(self.m12);
        res.push(self.m13);
        res.push(self.m14);
        res.push(self.m15);
        res.push(self.m16);
        res.push(self.m21);
        res.push(self.m22);
        res.push(self.m23);
        res.push(self.m24);
        res.push(self.m25);
        res.push(self.m26);
        res.push(self.m31);
        res.push(self.m32);
        res.push(self.m33);
        res.push(self.m34);
        res.push(self.m35);
        res.push(self.m36);
        res.push(self.m41);
        res.push(self.m42);
        res.push(self.m43);
        res.push(self.m44);
        res.push(self.m45);
        res.push(self.m46);
        res.push(self.m51);
        res.push(self.m52);
        res.push(self.m53);
        res.push(self.m54);
        res.push(self.m55);
        res.push(self.m56);
        res.push(self.m61);
        res.push(self.m62);
        res.push(self.m63);
        res.push(self.m64);
        res.push(self.m65);
        res.push(self.m66);
        res
    }
}

impl<N: Scalar> IterableMut<N> for Mat6<N> {
    fn set_components(&mut self, c: &Vec<N>) {
        self.m11 = c[0];
        self.m12 = c[1];
        self.m13 = c[2];
        self.m14 = c[3];
        self.m15 = c[4];
        self.m16 = c[5];
        self.m21 = c[6];
        self.m22 = c[7];
        self.m23 = c[8];
        self.m24 = c[9];
        self.m25 = c[10];
        self.m26 = c[11];
        self.m31 = c[12];
        self.m32 = c[13];
        self.m33 = c[14];
        self.m34 = c[15];
        self.m35 = c[16];
        self.m36 = c[17];
        self.m41 = c[18];
        self.m42 = c[19];
        self.m43 = c[20];
        self.m44 = c[21];
        self.m45 = c[22];
        self.m46 = c[23];
        self.m51 = c[24];
        self.m52 = c[25];
        self.m53 = c[26];
        self.m54 = c[27];
        self.m55 = c[28];
        self.m56 = c[29];
        self.m61 = c[30];
        self.m62 = c[31];
        self.m63 = c[32];
        self.m64 = c[33];
        self.m65 = c[34];
        self.m66 = c[35];
    }
}

} // verus!
