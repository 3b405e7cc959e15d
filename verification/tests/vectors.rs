use nalgebra::na;
use nalgebra::na::{Algebraic, Cast, Mat2, Mat3, Scalar, Vec1, Vec2, Vec3, Vec4};
use std::cell::RefCell;

#[test]
fn constructors_keep_components() {
    let v = na::vec4(1i64, 2, 3, 4);
    assert_eq!(v, Vec4 { x: 1, y: 2, z: 3, w: 4 });
    assert_eq!(na::vec1(7i32), Vec1 { x: 7 });
    assert_eq!(na::vec2(7i32, 8), Vec2 { x: 7, y: 8 });
    assert_eq!(na::vec3(7i32, 8, 9), Vec3 { x: 7, y: 8, z: 9 });
    let m = na::mat2(1i64, 2, 3, 4);
    assert_eq!(m, Mat2 { m11: 1, m12: 2, m21: 3, m22: 4 });
}

#[test]
fn zero_and_one_are_identities() {
    let z: i64 = na::zero();
    let u: i64 = na::one();
    assert_eq!(z, 0);
    assert_eq!(u, 1);
    let v: Vec3<i64> = na::zero();
    assert_eq!(v, na::vec3(0, 0, 0));
    let m: Mat3<i64> = na::one();
    assert_eq!(m, na::mat3(1, 0, 0, 0, 1, 0, 0, 0, 1));
    let n: Mat2<i32> = na::zero();
    assert_eq!(n, na::mat2(0, 0, 0, 0));
}

#[test]
fn dot_is_sum_of_products() {
    let a = na::vec3(1i64, 2, 3);
    let b = na::vec3(4i64, -5, 6);
    assert_eq!(na::dot(&a, &b), 12);
    assert_eq!(na::dot(&na::vec4(1i64, 2, 3, 4), &na::vec4(5i64, 6, 7, 8)), 70);
    assert_eq!(na::dot(&na::vec1(-3i64), &na::vec1(5i64)), -15);
}

#[test]
fn dot_is_symmetric() {
    let a = na::vec3(7i64, -2, 3);
    let b = na::vec3(4i64, 5, -6);
    assert_eq!(na::dot(&a, &b), na::dot(&b, &a));
    assert_eq!(na::dot(&a, &b), 0);
}

#[test]
fn sub_dot_is_dot_of_difference() {
    let a = na::vec3(5i64, 7, 9);
    let b = na::vec3(1i64, 2, 3);
    let c = na::vec3(2i64, -1, 4);
    assert_eq!(na::sub_dot(&a, &b, &c), 27);
    assert_eq!(na::sub_dot(&a, &b, &c), na::dot(&a.minus(&b), &c));
}

#[test]
fn sqnorm_is_dot_with_itself() {
    let v = na::vec3(2i64, 3, 6);
    assert_eq!(na::sqnorm(&v), 49);
    assert_eq!(na::sqnorm(&v), na::dot(&v, &v));
}

#[test]
fn norm_is_root_rounded_down() {
    assert_eq!(na::norm(&na::vec3(2i64, 3, 6)), 7);
    assert_eq!(na::norm(&na::vec2(3i64, 4)), 5);
    assert_eq!(na::norm(&na::vec2(1i64, 1)), 1);
    assert_eq!(na::norm(&na::vec2(3i64, 3)), 4);
    assert_eq!(na::norm(&na::vec3(0i64, 0, 0)), 0);
    assert_eq!(na::norm(&na::vec1(-9i32)), 9);
    assert_eq!(na::norm(&na::vec2(2_000_000_000i64, 2_000_000_000)), 2_828_427_124);
}

#[test]
fn normalized_axis_vector_has_norm_one() {
    let v = na::vec3(0i64, -5, 0);
    let u = na::normalized(&v);
    assert_eq!(u, na::vec3(0, -1, 0));
    assert_eq!(na::norm(&u), 1);
    assert_eq!(v, na::vec3(0, -5, 0));
}

#[test]
fn normalized_scales_to_norm_one() {
    assert_eq!(na::normalized(&na::vec2(6i64, 0)), na::vec2(1, 0));
    assert_eq!(na::normalized(&na::vec2(0i64, -7)), na::vec2(0, -1));
    assert_eq!(na::normalized(&na::vec3(0i64, 0, 12)), na::vec3(0, 0, 1));
    assert_eq!(na::normalized(&na::vec4(0i64, -3, 0, 0)), na::vec4(0, -1, 0, 0));
    assert_eq!(na::norm(&na::normalized(&na::vec3(-9i64, 0, 0))), 1);
}

#[test]
fn normalized_fraction_vector_has_norm_one_within_precision() {
    let v = na::QVec3::whole(na::vec3(3i64, 4, 0));
    let u = na::normalized(&v);
    assert_eq!(u, na::QVec3::new(na::vec3(3072, 4096, 0), 5120));
    let n: na::Ratio<i64> = na::norm(&u);
    assert_eq!(n, na::Ratio { num: 5242880, den: 5242880 });
    let w = na::QVec3::whole(na::vec3(1i64, 1, 0));
    let unit = na::normalized(&w);
    assert_eq!(unit, na::QVec3::new(na::vec3(1024, 1024, 0), 1448));
    let len: na::Ratio<i64> = na::norm(&unit);
    assert_eq!(len, na::Ratio { num: 1482910, den: 1482752 });
    assert!(len.num >= len.den && len.num < len.den + 1024);
    let sq: na::Ratio<i64> = na::sqnorm(&unit);
    assert_eq!(sq, na::Ratio { num: 2097152, den: 2096704 });
    let half = na::QVec2::new(na::vec2(1i64, -1), 2);
    let hn: na::Ratio<i64> = na::norm(&half);
    assert_eq!(hn, na::Ratio { num: 1448, den: 2048 });
    let mut z = na::QVec2::whole(na::vec2(0i64, 0));
    let zn: na::Ratio<i64> = na::normalize(&mut z);
    assert_eq!(zn, na::Ratio { num: 0, den: 1024 });
    assert_eq!(z, na::QVec2::whole(na::vec2(0, 0)));
    let mut m = na::QVec1::whole(na::vec1(-5i32));
    let before: na::Ratio<i32> = na::normalize(&mut m);
    assert_eq!(before, na::Ratio { num: 160, den: 32 });
    assert_eq!(m, na::QVec1::new(na::vec1(-160), 160));
}

#[test]
fn normalize_of_zero_vector_leaves_zero() {
    let mut v = na::vec3(0i64, 0, 0);
    let n = na::normalize(&mut v);
    assert_eq!(n, 0);
    assert_eq!(v, na::vec3(0, 0, 0));
}

#[test]
fn normalize_returns_prior_norm() {
    let mut v = na::vec4(0i64, 0, 0, 12);
    let n = na::normalize(&mut v);
    assert_eq!(n, 12);
    assert_eq!(v, na::vec4(0, 0, 0, 1));
}

#[test]
fn cross_of_axes() {
    let x = na::vec3(1i64, 0, 0);
    let y = na::vec3(0i64, 1, 0);
    let z: Vec3<i64> = na::cross(&x, &y);
    assert_eq!(z, na::vec3(0, 0, 1));
    let c: Vec3<i64> = na::cross(&na::vec3(1i64, 2, 3), &na::vec3(4i64, 5, 6));
    assert_eq!(c, na::vec3(-3, 6, -3));
}

#[test]
fn cross_is_anticommutative() {
    let a = na::vec3(1i64, -2, 3);
    let b = na::vec3(4i64, 5, -6);
    let ab: Vec3<i64> = na::cross(&a, &b);
    let ba: Vec3<i64> = na::cross(&b, &a);
    assert_eq!(ab, na::vec3(-3, 18, 13));
    assert_eq!(ab, na::Negate::negated(&ba));
    let aa: Vec3<i64> = na::cross(&a, &a);
    assert_eq!(aa, na::zero());
}

#[test]
fn cross_in_the_plane_is_signed_area() {
    let a = na::vec2(2i64, 0);
    let b = na::vec2(1i64, 3);
    let c: Vec1<i64> = na::cross(&a, &b);
    assert_eq!(c, na::vec1(6));
    let d: Vec1<i64> = na::cross(&b, &a);
    assert_eq!(d, na::vec1(-6));
}

#[test]
fn cross_matrix_acts_as_cross_product() {
    let v = na::vec3(1i64, 2, 3);
    let w = na::vec3(-4i64, 5, 7);
    let m: Mat3<i64> = na::cross_matrix(&v);
    assert_eq!(m, na::mat3(0, -3, 2, 3, 0, -1, -2, 1, 0));
    let c: Vec3<i64> = na::cross(&v, &w);
    assert_eq!(na::RMul::rmul(&m, &w), c);
    assert_eq!(na::transposed(&m), na::mat3(0, 3, -2, -3, 0, 1, 2, -1, 0));
    let p: Vec2<i64> = na::cross_matrix(&na::vec2(3i64, 4));
    assert_eq!(p, na::vec2(-4, 3));
}

#[test]
fn outer_is_matrix_of_products() {
    let a = na::vec2(2i64, 3);
    let b = na::vec2(5i64, 7);
    let m: Mat2<i64> = na::outer(&a, &b);
    assert_eq!(m, na::mat2(10, 14, 15, 21));
    let n: Mat3<i64> = na::outer(&na::vec3(1i64, 2, 3), &na::vec3(4i64, 5, 6));
    assert_eq!(n, na::mat3(4, 5, 6, 8, 10, 12, 12, 15, 18));
}

#[test]
fn absolute_is_component_wise() {
    let v: Vec3<i64> = na::absolute(&na::vec3(-1i64, 2, -3));
    assert_eq!(v, na::vec3(1, 2, 3));
    let m: Mat2<i64> = na::absolute(&na::mat2(-1i64, 2, 3, -4));
    assert_eq!(m, na::mat2(1, 2, 3, 4));
}

#[test]
fn vector_arithmetic() {
    let a = na::vec3(1i64, 2, 3);
    let b = na::vec3(10i64, 20, 30);
    assert_eq!(a.plus(&b), na::vec3(11, 22, 33));
    assert_eq!(a.minus(&b), na::vec3(-9, -18, -27));
    assert_eq!(a.scaled(-2), na::vec3(-2, -4, -6));
    assert_eq!(na::Negate::negated(&a), na::vec3(-1, -2, -3));
}

#[test]
fn homogeneous_vector_round_trip() {
    let v = na::vec3(4i64, -5, 6);
    let h: Vec4<i64> = na::to_homogeneous(&v);
    assert_eq!(h, na::vec4(4, -5, 6, 1));
    let back: Vec3<i64> = na::from_homogeneous(&h);
    assert_eq!(back, v);
    let h2: Vec2<i32> = na::to_homogeneous(&na::vec1(9i32));
    assert_eq!(h2, na::vec2(9, 1));
}

#[test]
fn cast_vec_keeps_values() {
    let v = na::vec3(1i32, -2, 3);
    let w: Vec3<i64> = na::cast_vec(v);
    assert_eq!(w, na::vec3(1i64, -2, 3));
    let back: Vec3<i32> = na::cast_vec(w);
    assert_eq!(back, v);
}

#[test]
fn canonical_basis_in_order_of_axes() {
    let seen: RefCell<Vec<Vec3<i64>>> = RefCell::new(Vec::new());
    let n = na::canonical_basis(|v: Vec3<i64>| {
        seen.borrow_mut().push(v);
        true
    });
    assert_eq!(n, 3);
    assert_eq!(*seen.borrow(), vec![na::vec3(1, 0, 0), na::vec3(0, 1, 0), na::vec3(0, 0, 1)]);
}

#[test]
fn canonical_basis_stops_early() {
    let seen: RefCell<Vec<Vec4<i64>>> = RefCell::new(Vec::new());
    let n = na::canonical_basis(|v: Vec4<i64>| {
        seen.borrow_mut().push(v);
        seen.borrow().len() < 2
    });
    assert_eq!(n, 2);
    assert_eq!(*seen.borrow(), vec![na::vec4(1, 0, 0, 0), na::vec4(0, 1, 0, 0)]);
}

#[test]
fn orthonormal_subspace_basis_of_axis_is_orthonormal() {
    let v = na::vec3(1i64, 0, 0);
    let seen: RefCell<Vec<Vec3<i64>>> = RefCell::new(Vec::new());
    let n = na::orthonormal_subspace_basis(&v, |w: Vec3<i64>| {
        seen.borrow_mut().push(w);
        true
    });
    assert_eq!(n, 2);
    let basis = seen.borrow();
    assert_eq!(*basis, vec![na::vec3(0, -1, 0), na::vec3(0, 0, -1)]);
    for w in basis.iter() {
        assert_eq!(na::dot(w, &v), 0);
        assert_eq!(na::sqnorm(w), 1);
        assert_eq!(na::norm(w), 1);
    }
    assert_eq!(na::dot(&basis[0], &basis[1]), 0);
}

#[test]
fn orthonormal_subspace_basis_has_unit_vectors() {
    let v = na::vec3(0i64, 0, 2);
    let seen: RefCell<Vec<Vec3<i64>>> = RefCell::new(Vec::new());
    let n3 = na::orthonormal_subspace_basis(&v, |w: Vec3<i64>| {
        seen.borrow_mut().push(w);
        true
    });
    assert_eq!(n3, 2);
    let basis = seen.borrow();
    assert_eq!(*basis, vec![na::vec3(-1, 0, 0), na::vec3(0, -1, 0)]);
    for w in basis.iter() {
        assert_eq!(na::dot(w, &v), 0);
        assert_eq!(na::norm(w), 1);
    }
    assert_eq!(na::dot(&basis[0], &basis[1]), 0);
    let p = na::vec2(0i64, 7);
    let seen2: RefCell<Vec<Vec2<i64>>> = RefCell::new(Vec::new());
    let n = na::orthonormal_subspace_basis(&p, |w: Vec2<i64>| {
        seen2.borrow_mut().push(w);
        false
    });
    assert_eq!(n, 1);
    assert_eq!(*seen2.borrow(), vec![na::vec2(-1, 0)]);
    let q = na::vec4(0i64, 0, 3, 0);
    let seen4: RefCell<Vec<Vec4<i64>>> = RefCell::new(Vec::new());
    let n4 = na::orthonormal_subspace_basis(&q, |w: Vec4<i64>| {
        seen4.borrow_mut().push(w);
        true
    });
    assert_eq!(n4, 3);
    assert_eq!(*seen4.borrow(), vec![na::vec4(0, 0, 0, 1), na::vec4(-1, 0, 0, 0), na::vec4(0, -1,
        0, 0)]);
    let none = na::orthonormal_subspace_basis(&na::vec1(5i64), |_w: Vec1<i64>| true);
    assert_eq!(none, 0);
}

#[test]
fn orthonormal_subspace_basis_of_fraction_vectors() {
    let v = na::QVec3::whole(na::vec3(1i64, 1, 0));
    let seen: RefCell<Vec<na::QVec3<i64>>> = RefCell::new(Vec::new());
    let n = na::orthonormal_subspace_basis(&v, |w: na::QVec3<i64>| {
        seen.borrow_mut().push(w);
        true
    });
    assert_eq!(n, 2);
    let basis = seen.borrow();
    assert_eq!(basis[0], na::QVec3::new(na::vec3(-1024, 1024, 0), 1448));
    assert_eq!(basis[1], na::QVec3::new(na::vec3(0, 0, 1024), 1024));
    for u in basis.iter() {
        assert_eq!(na::dot(&u.num, &v.num), 0);
        let sq = na::dot(&u.num, &u.num);
        assert!(u.den * u.den <= sq && sq < (u.den + 1) * (u.den + 1));
        assert!(u.den >= 1024);
    }
    assert_eq!(na::dot(&basis[0].num, &basis[1].num), 0);
    let axis = na::QVec3::new(na::vec3(0i64, 0, 2), 7);
    let seen_axis: RefCell<Vec<na::QVec3<i64>>> = RefCell::new(Vec::new());
    na::orthonormal_subspace_basis(&axis, |w: na::QVec3<i64>| {
        seen_axis.borrow_mut().push(w);
        true
    });
    assert_eq!(*seen_axis.borrow(), vec![na::QVec3::new(na::vec3(-4096, 0, 0), 4096),
        na::QVec3::new(na::vec3(0, -2048, 0), 2048)]);
    let plane = na::QVec2::whole(na::vec2(3i64, 4));
    let seen2: RefCell<Vec<na::QVec2<i64>>> = RefCell::new(Vec::new());
    na::orthonormal_subspace_basis(&plane, |w: na::QVec2<i64>| {
        seen2.borrow_mut().push(w);
        true
    });
    assert_eq!(*seen2.borrow(), vec![na::QVec2::new(na::vec2(-4096, 3072), 5120)]);
    let count = na::canonical_basis(|_w: na::QVec4<i64>| true);
    assert_eq!(count, 4);
}

#[test]
fn sample_sphere_gives_axis_directions() {
    let seen: RefCell<Vec<Vec2<i64>>> = RefCell::new(Vec::new());
    na::sample_sphere(|v: Vec2<i64>| {
        seen.borrow_mut().push(v);
    });
    assert_eq!(*seen.borrow(), vec![na::vec2(1, 0), na::vec2(-1, 0), na::vec2(0, 1), na::vec2(0,
        -1)]);
    for v in seen.borrow().iter() {
        assert_eq!(na::norm(v), 1);
    }
}

#[test]
fn scalar_operations() {
    assert_eq!(7i64.plus(5), 12);
    assert_eq!(7i64.minus(9), -2);
    assert_eq!(7i64.times(-3), -21);
    assert_eq!(7i64.neg(), -7);
    assert_eq!((-7i64).quot(2), -3);
    assert_eq!(7i64.quot(-2), -3);
    assert_eq!((-7i32).abs(), 7);
    assert!(3i32.lt(4));
    assert!(!4i32.lt(4));
    assert!(4i32.same(4));
    assert_eq!(Algebraic::sqrt(0i64), 0);
    assert_eq!(Algebraic::sqrt(15i64), 3);
    assert_eq!(Algebraic::sqrt(16i64), 4);
    assert_eq!(Algebraic::sqrt(i64::MAX), 3037000499);
    assert_eq!(Algebraic::sqrt(i32::MAX), 46340);
    let wide: i64 = Cast::cast(-5i32);
    assert_eq!(wide, -5);
    let narrow: i32 = Cast::cast(123i64);
    assert_eq!(narrow, 123);
}
