use nalgebra::na;
use nalgebra::na::{
    Col, Dim, Indexable, Iterable, IterableMut, Mat5, Mat6, Row, ScalarAdd, ScalarSub, Vec0, Vec5,
    Vec6,
};

#[test]
fn components_by_index() {
    let mut v = na::vec3(10i64, 20, 30);
    assert_eq!(v.at(0), 10);
    assert_eq!(v.at(2), 30);
    v.set(1, -5);
    assert_eq!(v, na::vec3(10, -5, 30));
    v.swap(0, 2);
    assert_eq!(v, na::vec3(30, -5, 10));
    let mut m = na::mat2(1i64, 2, 3, 4);
    assert_eq!(m.at((0, 1)), 2);
    assert_eq!(m.at((1, 0)), 3);
    m.set((1, 1), 9);
    assert_eq!(m, na::mat2(1, 2, 3, 9));
    m.swap((0, 0), (1, 1));
    assert_eq!(m, na::mat2(9, 2, 3, 1));
}

#[test]
fn rows_and_columns() {
    let mut m = na::mat3(1i64, 2, 3, 4, 5, 6, 7, 8, 9);
    assert_eq!(m.num_rows(), 3);
    assert_eq!(m.num_cols(), 3);
    assert_eq!(Row::row(&m, 1), na::vec3(4, 5, 6));
    assert_eq!(m.col(2), na::vec3(3, 6, 9));
    m.set_row(0, na::vec3(0, 0, 0));
    assert_eq!(m, na::mat3(0, 0, 0, 4, 5, 6, 7, 8, 9));
    m.set_col(1, na::vec3(-1, -2, -3));
    assert_eq!(m, na::mat3(0, -1, 0, 4, -2, 6, 7, -3, 9));
}

#[test]
fn scalars_added_to_every_component() {
    let v = na::vec2(1i64, -2);
    assert_eq!(v.scalar_add(&10), na::vec2(11, 8));
    assert_eq!(v.scalar_sub(&10), na::vec2(-9, -12));
    let mut m = na::mat2(1i64, 2, 3, 4);
    m.scalar_add_inplace(&1);
    assert_eq!(m, na::mat2(2, 3, 4, 5));
    m.scalar_sub_inplace(&2);
    assert_eq!(m, na::mat2(0, 1, 2, 3));
}

#[test]
fn components_in_order() {
    let m = na::mat2(1i64, 2, 3, 4);
    assert_eq!(m.components(), vec![1, 2, 3, 4]);
    let mut v = na::vec4(0i32, 0, 0, 0);
    v.set_components(&vec![4, 3, 2, 1]);
    assert_eq!(v, na::vec4(4, 3, 2, 1));
    assert_eq!(v.components(), vec![4, 3, 2, 1]);
}

#[test]
fn vectors_of_five_and_six_components() {
    let v = Vec5::new(1i64, 2, 3, 4, 5);
    let w = Vec5::new(5i64, 4, 3, 2, 1);
    assert_eq!(na::dot(&v, &w), 35);
    assert_eq!(v.plus(&w), Vec5::new(6, 6, 6, 6, 6));
    assert_eq!(na::norm(&Vec6::new(0i64, 0, 0, 0, 0, -7)), 7);
    assert_eq!(na::normalized(&Vec6::new(0i64, 0, 0, 0, 0, -7)), Vec6::new(0, 0, 0, 0, 0, -1));
    let h: Vec6<i64> = na::to_homogeneous(&v);
    assert_eq!(h, Vec6::new(1, 2, 3, 4, 5, 1));
    let back: Vec5<i64> = na::from_homogeneous(&h);
    assert_eq!(back, v);
    assert_eq!(<Vec6<i64> as Dim>::dim(), 6);
    assert_eq!(v.at(4), 5);
    let z: Vec5<i64> = na::zero();
    assert_eq!(z, Vec5::new(0, 0, 0, 0, 0));
}

#[test]
fn matrices_of_dimension_five_and_six() {
    let id: Mat5<i64> = na::one();
    let mut m: Mat5<i64> = na::zero();
    m.set((0, 4), 3);
    m.set((4, 0), -2);
    assert_eq!(m.times(&id), m);
    assert_eq!(id.times(&m), m);
    let t = na::transposed(&m);
    assert_eq!(t.at((4, 0)), 3);
    assert_eq!(t.at((0, 4)), -2);
    assert_eq!(na::transposed(&t), m);
    let p = m.times(&m);
    assert_eq!(p.at((0, 0)), -6);
    assert_eq!(p.at((4, 4)), -6);
    let six: Mat6<i64> = na::one();
    let v = Vec6::new(1i64, 2, 3, 4, 5, 6);
    assert_eq!(na::RMul::rmul(&six, &v), v);
    assert_eq!(na::LMul::lmul(&six, &v), v);
    let o: Mat6<i64> = na::outer(&v, &v);
    assert_eq!(o.at((5, 4)), 30);
    assert_eq!(o.at((1, 2)), 6);
    let h: Mat6<i64> = na::to_homogeneous(&m);
    assert_eq!(h.at((5, 5)), 1);
    assert_eq!(h.at((0, 4)), 3);
    let low: Mat5<i64> = na::from_homogeneous(&h);
    assert_eq!(low, m);
}

#[test]
fn vector_of_no_component() {
    let v: Vec0<i64> = Vec0::new();
    let z: Vec0<i64> = na::zero();
    assert_eq!(v, z);
    assert_eq!(na::dot(&v, &z), 0);
    assert_eq!(na::norm(&v), 0);
    assert_eq!(<Vec0<i64> as Dim>::dim(), 0);
    assert_eq!(v.components(), Vec::<i64>::new());
    let h: na::Vec1<i64> = na::to_homogeneous(&v);
    assert_eq!(h, na::vec1(1));
}
