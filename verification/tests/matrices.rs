use nalgebra::na;
use nalgebra::na::{DMat, DVec, Mat1, Mat2, Mat3, Mat4, Vec3};

#[test]
fn transpose_swaps_rows_and_columns() {
    let m = na::mat3(1i64, 2, 3, 4, 5, 6, 7, 8, 9);
    assert_eq!(na::transposed(&m), na::mat3(1, 4, 7, 2, 5, 8, 3, 6, 9));
    let mut n = na::mat2(1i64, 2, 3, 4);
    na::transpose(&mut n);
    assert_eq!(n, na::mat2(1, 3, 2, 4));
}

#[test]
fn transpose_is_an_involution() {
    let m = na::mat4(1i64, 2, 3, 4, 5, 6, 7, 8, 9, 10, 11, 12, 13, 14, 15, 16);
    assert_eq!(na::transposed(&na::transposed(&m)), m);
    let mut n = m;
    na::transpose(&mut n);
    assert_ne!(n, m);
    na::transpose(&mut n);
    assert_eq!(n, m);
}

#[test]
fn matrix_product() {
    let a = na::mat2(1i64, 2, 3, 4);
    let b = na::mat2(5i64, 6, 7, 8);
    assert_eq!(a.times(&b), na::mat2(19, 22, 43, 50));
    let id: Mat2<i64> = na::one();
    assert_eq!(a.times(&id), a);
    let c = na::mat3(1i64, 2, 3, 4, 5, 6, 7, 8, 9);
    let d = na::mat3(1i64, 0, 2, 0, 1, 0, 3, 0, 1);
    assert_eq!(c.times(&d), na::mat3(10, 2, 5, 22, 5, 14, 34, 8, 23));
}

#[test]
fn matrix_vector_products() {
    let m = na::mat3(1i64, 2, 3, 4, 5, 6, 7, 8, 9);
    let v = na::vec3(1i64, 0, -1);
    assert_eq!(na::RMul::rmul(&m, &v), na::vec3(-2, -2, -2));
    assert_eq!(na::LMul::lmul(&m, &v), na::vec3(-6, -6, -6));
}

#[test]
fn inverted_of_unimodular_matrix() {
    let m = na::mat2(2i64, 1, 1, 1);
    let inv = na::inverted(&m).unwrap();
    assert_eq!(inv, na::mat2(1, -1, -1, 2));
    let id: Mat2<i64> = na::one();
    assert_eq!(m.times(&inv), id);
    assert_eq!(inv.times(&m), id);
    let n = na::mat3(1i64, 2, 3, 0, 1, 4, 0, 0, 1);
    let ninv = na::inverted(&n).unwrap();
    assert_eq!(ninv, na::mat3(1, -2, 5, 0, 1, -4, 0, 0, 1));
    let id3: Mat3<i64> = na::one();
    assert_eq!(n.times(&ninv), id3);
    assert_eq!(ninv.times(&n), id3);
    let f = na::mat1(-1i64);
    assert_eq!(na::inverted(&f), Some(na::mat1(-1)));
}

#[test]
fn inverted_with_determinant_minus_one() {
    let m = na::mat2(0i64, 1, 1, 0);
    assert_eq!(na::inverted(&m), Some(m));
    let n = na::mat3(0i64, 1, 0, 1, 0, 0, 0, 0, 1);
    assert_eq!(na::inverted(&n), Some(n));
    let p = na::mat3(1i64, 2, 0, 0, -1, 0, 3, 0, 1);
    let pinv = na::inverted(&p).unwrap();
    let id3: Mat3<i64> = na::one();
    assert_eq!(p.times(&pinv), id3);
    assert_eq!(pinv.times(&p), id3);
}

#[test]
fn inverted_twice_gives_the_matrix_back() {
    let m = na::mat3(2i64, 3, 1, 1, 2, 1, 1, 1, 1);
    let once = na::inverted(&m).unwrap();
    let twice = na::inverted(&once).unwrap();
    assert_eq!(twice, m);
    let k = na::mat2(3i64, 2, 4, 3);
    assert_eq!(na::inverted(&na::inverted(&k).unwrap()).unwrap(), k);
}

#[test]
fn invert_of_singular_matrix_fails_and_keeps_matrix() {
    let mut m = na::mat2(1i64, 2, 2, 4);
    let before = m;
    assert!(!na::invert(&mut m));
    assert_eq!(m, before);
    assert_eq!(na::inverted(&m), None);
    let mut n = na::mat3(1i64, 2, 3, 4, 5, 6, 7, 8, 9);
    let nbefore = n;
    assert!(!na::invert(&mut n));
    assert_eq!(n, nbefore);
    assert_eq!(na::inverted(&n), None);
    let mut z: Mat1<i64> = na::zero();
    assert!(!na::invert(&mut z));
    assert_eq!(z, na::mat1(0));
}

#[test]
fn inverted_matrix_of_fractions() {
    let m = na::QMat2::whole(na::mat2(2i64, 0, 0, 4));
    let inv = na::inverted(&m).unwrap();
    assert_eq!(inv, na::QMat2::new(na::mat2(4, 0, 0, 2), 8));
    assert_eq!(m.num.times(&inv.num), na::mat2(8, 0, 0, 8));
    assert_eq!(inv.num.times(&m.num), na::mat2(8, 0, 0, 8));
    let mut n = m;
    assert!(na::invert(&mut n));
    assert_eq!(n, inv);
    let neg = na::QMat2::new(na::mat2(0i64, 3, 2, 0), 5);
    let neg_inv = na::inverted(&neg).unwrap();
    assert_eq!(neg_inv, na::QMat2::new(na::mat2(0, 15, 10, 0), 6));
    assert_eq!(neg.num.times(&neg_inv.num), na::mat2(30, 0, 0, 30));
    let mut singular = na::QMat2::whole(na::mat2(1i64, 2, 2, 4));
    assert!(!na::invert(&mut singular));
    assert_eq!(singular, na::QMat2::whole(na::mat2(1, 2, 2, 4)));
    assert_eq!(na::inverted(&singular), None);
    let three = na::QMat3::new(na::mat3(2i64, 0, 0, 0, 4, 0, 0, 0, 5), 3);
    let three_inv = na::inverted(&three).unwrap();
    assert_eq!(three_inv, na::QMat3::new(na::mat3(60, 0, 0, 0, 30, 0, 0, 0, 24), 40));
    assert_eq!(three.num.times(&three_inv.num), na::mat3(120, 0, 0, 0, 120, 0, 0, 0, 120));
    let one = na::QMat1::whole(na::mat1(-5i64));
    assert_eq!(na::inverted(&one), Some(na::QMat1::new(na::mat1(-1), 5)));
    let four = na::QMat4::whole(na::mat4(2i64, 0, 0, 0, 0, 1, 0, 0, 0, 0, 1, 0, 0, 0, 0, 1));
    let four_inv = na::inverted(&four).unwrap();
    assert_eq!(four_inv, na::QMat4::new(na::mat4(1, 0, 0, 0, 0, 2, 0, 0, 0, 0, 2, 0, 0, 0, 0, 2),
        2));
}

#[test]
fn covariance_does_not_change_under_a_shift() {
    let m: DMat<i64> = DMat::from_rows(1, vec![vec![0], vec![0], vec![1]]).unwrap();
    let s: DMat<i64> = DMat::from_rows(1, vec![vec![-1], vec![-1], vec![0]]).unwrap();
    let cm: DMat<i64> = na::cov(&m);
    let cs: DMat<i64> = na::cov(&s);
    assert_eq!(cm.at(0, 0), 0);
    assert_eq!(cs.at(0, 0), 0);
    assert_eq!(cm, cs);
    let a: DMat<i64> = DMat::from_rows(2, vec![vec![1, 2], vec![5, -4], vec![9, 7]]).unwrap();
    let b: DMat<i64> =
        DMat::from_rows(2, vec![vec![101, -48], vec![105, -54], vec![109, -43]]).unwrap();
    let ca: DMat<i64> = na::cov(&a);
    let cb: DMat<i64> = na::cov(&b);
    assert_eq!(ca, cb);
    assert_eq!(ca.at(0, 0), 16);
    assert_eq!(ca.at(0, 1), 10);
    assert_eq!(ca.at(1, 0), 10);
    assert_eq!(ca.at(1, 1), 30);
}

#[test]
fn invert_in_place() {
    let mut m = na::mat2(2i64, 1, 1, 1);
    assert!(na::invert(&mut m));
    assert_eq!(m, na::mat2(1, -1, -1, 2));
}

#[test]
fn homogeneous_matrix_round_trip() {
    let m = na::mat2(1i64, 2, 3, 4);
    let h: Mat3<i64> = na::to_homogeneous(&m);
    assert_eq!(h, na::mat3(1, 2, 0, 3, 4, 0, 0, 0, 1));
    let back: Mat2<i64> = na::from_homogeneous(&h);
    assert_eq!(back, m);
    let m3 = na::mat3(1i64, 2, 3, 4, 5, 6, 7, 8, 9);
    let h4: Mat4<i64> = na::to_homogeneous(&m3);
    assert_eq!(h4, na::mat4(1, 2, 3, 0, 4, 5, 6, 0, 7, 8, 9, 0, 0, 0, 0, 1));
}

#[test]
fn cast_mat_keeps_values() {
    let m = na::mat2(1i32, -2, 3, -4);
    let w: Mat2<i64> = na::cast_mat(m);
    assert_eq!(w, na::mat2(1i64, -2, 3, -4));
}

#[test]
fn mean_of_observations() {
    let m: DMat<i64> = DMat::from_rows(2, vec![vec![1, 10], vec![3, 20], vec![8, 31]]).unwrap();
    let mean: DVec<i64> = na::mean(&m);
    assert_eq!(mean.at, vec![4, 20]);
    let neg: DMat<i64> = DMat::from_rows(1, vec![vec![-3], vec![-4]]).unwrap();
    let nmean: DVec<i64> = na::mean(&neg);
    assert_eq!(nmean.at, vec![-3]);
}

#[test]
fn covariance_of_observations() {
    let m: DMat<i64> = DMat::from_rows(2, vec![vec![1, 10], vec![3, 20], vec![8, 30]]).unwrap();
    let c: DMat<i64> = na::cov(&m);
    assert_eq!(c.nrows(), 2);
    assert_eq!(c.ncols(), 2);
    assert_eq!(c.at(0, 0), 13);
    assert_eq!(c.at(0, 1), 35);
    assert_eq!(c.at(1, 0), 35);
    assert_eq!(c.at(1, 1), 100);
}

#[test]
fn single_observation_has_itself_as_mean_and_zero_covariance() {
    let m: DMat<i64> = DMat::from_rows(3, vec![vec![5, -7, 9]]).unwrap();
    let mean: DVec<i64> = na::mean(&m);
    assert_eq!(mean.at, vec![5, -7, 9]);
    let c: DMat<i64> = na::cov(&m);
    assert_eq!(c, DMat::new_zeros(3, 3));
    for i in 0..3 {
        for j in 0..3 {
            assert_eq!(c.at(i, j), 0);
        }
    }
}

#[test]
fn no_observation_has_zero_mean() {
    let m: DMat<i64> = DMat::from_rows(2, Vec::new()).unwrap();
    let mean: DVec<i64> = na::mean(&m);
    assert_eq!(mean.at, vec![0, 0]);
    let c: DMat<i64> = na::cov(&m);
    assert_eq!(c, DMat::new_zeros(2, 2));
}

#[test]
fn from_rows_refuses_ragged_rows() {
    let m: Option<DMat<i64>> = DMat::from_rows(2, vec![vec![1, 2], vec![3]]);
    assert!(m.is_none());
    let z: DVec<i32> = DVec::new_zeros(3);
    assert_eq!(z.at, vec![0, 0, 0]);
    assert_eq!(z.len(), 3);
    assert_eq!(DVec::new(vec![1i64, 2]).at, vec![1, 2]);
}

#[test]
fn outer_product_acts_by_inner_product() {
    let a = na::vec3(1i64, 2, 3);
    let b = na::vec3(4i64, 5, 6);
    let w = na::vec3(1i64, -1, 2);
    let m: Mat3<i64> = na::outer(&a, &b);
    let expected: Vec3<i64> = a.scaled(na::dot(&b, &w));
    assert_eq!(na::RMul::rmul(&m, &w), expected);
}

#[test]
fn dynamic_vector_dot_and_norm() {
    let a = DVec::new(vec![1i64, 2, 3, 4, 5]);
    let b = DVec::new(vec![5i64, 4, 3, 2, 1]);
    assert_eq!(na::dot(&a, &b), 35);
    assert_eq!(na::dot(&b, &a), 35);
    assert_eq!(na::sub_dot(&a, &b, &a), 20);
    assert_eq!(na::sqnorm(&a), 55);
    assert_eq!(na::norm(&a), 7);
    let axis = DVec::new(vec![0i64, 0, -9, 0, 0, 0, 0]);
    assert_eq!(na::normalized(&axis).at, vec![0, 0, -1, 0, 0, 0, 0]);
    assert_eq!(na::norm(&na::normalized(&axis)), 1);
    let mut z: DVec<i64> = DVec::new_zeros(3);
    assert_eq!(na::normalize(&mut z), 0);
    assert_eq!(z.at, vec![0, 0, 0]);
    let mut w = DVec::new(vec![10i64, 0, 0]);
    assert_eq!(na::normalize(&mut w), 10);
    assert_eq!(w.at, vec![1, 0, 0]);
    let empty: DVec<i64> = DVec::new(Vec::new());
    assert_eq!(na::dot(&empty, &empty), 0);
    assert_eq!(a.duplicate(), a);
    assert_eq!(a.shrunk(2).at, vec![0, 1, 1, 2, 2]);
}

#[test]
fn dynamic_matrix_transpose() {
    let m: DMat<i64> = DMat::from_rows(3, vec![vec![1, 2, 3], vec![4, 5, 6]]).unwrap();
    let t = na::transposed(&m);
    assert_eq!(t.nrows(), 3);
    assert_eq!(t.ncols(), 2);
    assert_eq!(t, DMat::from_rows(2, vec![vec![1, 4], vec![2, 5], vec![3, 6]]).unwrap());
    assert_eq!(na::transposed(&t), m);
    let mut n: DMat<i64> = DMat::from_rows(3, Vec::new()).unwrap();
    na::transpose(&mut n);
    assert_eq!(n.nrows(), 3);
    assert_eq!(n.ncols(), 0);
    na::transpose(&mut n);
    assert_eq!(n, DMat::from_rows(3, Vec::new()).unwrap());
}
