use nalgebra::na;
use nalgebra::na::{Dim, Iso2, Iso4, Mat4, Rot2, Rot3, Rot4, Vec3, Vec4};

#[test]
fn matrix_product_of_dimension_four() {
    let a = na::mat4(1i64, 2, 3, 4, 5, 6, 7, 8, 9, 10, 11, 12, 13, 14, 15, 16);
    let id: Mat4<i64> = na::one();
    assert_eq!(a.times(&id), a);
    assert_eq!(id.times(&a), a);
    let s = na::mat4(0i64, 1, 0, 0, 1, 0, 0, 0, 0, 0, 0, 1, 0, 0, 1, 0);
    assert_eq!(a.times(&s), na::mat4(2, 1, 4, 3, 6, 5, 8, 7, 10, 9, 12, 11, 14, 13, 16, 15));
    assert_eq!(s.times(&a), na::mat4(5, 6, 7, 8, 1, 2, 3, 4, 13, 14, 15, 16, 9, 10, 11, 12));
    let v = na::vec4(1i64, -1, 2, -2);
    assert_eq!(na::RMul::rmul(&a, &v), na::vec4(-3, -3, -3, -3));
    assert_eq!(na::LMul::lmul(&a, &v), na::vec4(-12, -12, -12, -12));
}

#[test]
fn product_is_associative() {
    let a = na::mat3(1i64, 2, 0, -1, 3, 1, 0, 2, 1);
    let b = na::mat3(2i64, 0, 1, 1, 1, 0, 0, -2, 3);
    let c = na::mat3(1i64, 1, 1, 0, 2, -1, 3, 0, 1);
    assert_eq!(a.times(&b).times(&c), a.times(&b.times(&c)));
    let v = na::vec3(1i64, -2, 3);
    assert_eq!(na::RMul::rmul(&a.times(&b), &v), na::RMul::rmul(&a, &na::RMul::rmul(&b, &v)));
    assert_eq!(na::transposed(&a.times(&b)), na::transposed(&b).times(&na::transposed(&a)));
}

#[test]
fn rotation_of_dimension_four() {
    let swap: Rot4<i64> =
        Rot4::from_mat(na::mat4(0, -1, 0, 0, 1, 0, 0, 0, 0, 0, 0, -1, 0, 0, 1, 0)).unwrap();
    let v = na::vec4(1i64, 2, 3, 4);
    let w = na::rotate(&swap, &v);
    assert_eq!(w, na::vec4(-2, 1, -4, 3));
    assert_eq!(na::sqnorm(&w), na::sqnorm(&v));
    assert_eq!(na::inv_rotate(&swap, &w), v);
    let back: Rot4<i64> = na::inv_rotation(&swap);
    assert_eq!(back, na::transposed(&swap));
    let id: Rot4<i64> = na::one();
    assert_eq!(swap.times(&back), id);
    assert_eq!(na::absolute_rotate(&swap, &v), na::vec4(2, 1, 4, 3));
}

#[test]
fn isometry_of_dimension_four() {
    let r: Rot4<i64> =
        Rot4::from_mat(na::mat4(0, 0, 0, 1, 1, 0, 0, 0, 0, 1, 0, 0, 0, 0, 1, 0)).unwrap();
    let t = Iso4::new(na::vec4(10i64, 20, 30, 40), r);
    let p = na::vec4(1i64, 2, 3, 4);
    let q = na::transform(&t, &p);
    assert_eq!(q, na::vec4(14, 21, 32, 43));
    assert_eq!(na::inv_transform(&t, &q), p);
    let inv: Iso4<i64> = na::inv_transformation(&t);
    assert_eq!(na::transform(&inv, &q), p);
    let a: Vec4<i64> = na::translation(&t);
    let b: Vec4<i64> = na::inv_translation(&t);
    assert_eq!(a.plus(&b), na::zero());
    let turned = na::rotated_wrt_center(&t, &r);
    assert_eq!(na::translation(&turned), a);
}

#[test]
fn rotation_keeps_inner_products() {
    let r: Rot3<i64> = Rot3::quarter_turn_x().times(&Rot3::quarter_turn_y());
    let v = na::vec3(1i64, 2, 3);
    let w = na::vec3(-4i64, 5, 6);
    assert_eq!(na::dot(&na::rotate(&r, &v), &na::rotate(&r, &w)), na::dot(&v, &w));
    assert_eq!(na::norm(&na::rotate(&r, &v)), na::norm(&v));
    let a: Vec3<i64> = na::absolute(&na::rotate(&r, &v));
    let bound = na::absolute_rotate(&r, &na::absolute(&v));
    assert!(a.x <= bound.x && a.y <= bound.y && a.z <= bound.z);
}

#[test]
fn dimensions() {
    assert_eq!(<Vec3<i64> as Dim>::dim(), 3);
    assert_eq!(<Vec4<i32> as Dim>::dim(), 4);
    assert_eq!(<Mat4<i64> as Dim>::dim(), 4);
    assert_eq!(<Rot2<i64> as Dim>::dim(), 2);
    assert_eq!(<Iso2<i64> as Dim>::dim(), 2);
}

#[test]
fn narrow_scalars() {
    let a = na::vec2(46340i32, 0);
    assert_eq!(na::sqnorm(&a), 2147395600);
    assert_eq!(na::norm(&a), 46340);
    let m = na::mat2(1i32, 1, 0, 1);
    assert_eq!(na::inverted(&m), Some(na::mat2(1, -1, 0, 1)));
    let r: Rot2<i32> = Rot2::quarter_turn();
    assert_eq!(na::rotate(&r, &na::vec2(i32::MAX, 1)), na::vec2(-1, i32::MAX));
    let c = na::vec3(i32::MAX, -i32::MAX, 0);
    assert_eq!(na::normalized(&na::vec3(0i32, 0, -46340)), na::vec3(0, 0, -1));
    let n: Vec3<i32> = na::Negate::negated(&c);
    assert_eq!(n, na::vec3(-i32::MAX, i32::MAX, 0));
}

#[test]
fn inverse_of_dimension_four() {
    let m = na::mat4(1i64, 2, 0, 1, 0, 1, 3, 0, 0, 0, 1, 2, 0, 0, 0, 1);
    let inv = na::inverted(&m).unwrap();
    assert_eq!(inv, na::mat4(1, -2, 6, -13, 0, 1, -3, 6, 0, 0, 1, -2, 0, 0, 0, 1));
    let id: Mat4<i64> = na::one();
    assert_eq!(m.times(&inv), id);
    assert_eq!(inv.times(&m), id);
    assert_eq!(na::inverted(&inv), Some(m));
    let swap = na::mat4(0i64, 1, 0, 0, 1, 0, 0, 0, 0, 0, 1, 0, 0, 0, 0, 1);
    assert_eq!(na::inverted(&swap), Some(swap));
    let mixed = na::mat4(2i64, 1, 0, 0, 1, 1, 0, 0, 0, 0, 0, 1, 0, 0, 1, 0);
    let mixed_inv = na::inverted(&mixed).unwrap();
    assert_eq!(mixed_inv, na::mat4(1, -1, 0, 0, -1, 2, 0, 0, 0, 0, 0, 1, 0, 0, 1, 0));
    assert_eq!(mixed.times(&mixed_inv), id);
    let mut singular = na::mat4(1i64, 2, 3, 4, 2, 4, 6, 8, 0, 1, 0, 1, 1, 0, 1, 0);
    let before = singular;
    assert!(!na::invert(&mut singular));
    assert_eq!(singular, before);
    assert_eq!(na::inverted(&singular), None);
}

#[test]
fn cross_product_of_three_vectors() {
    let b = na::vec4(1i64, 0, 0, 0);
    let c = na::vec4(0i64, 1, 0, 0);
    let d = na::vec4(0i64, 0, 1, 0);
    assert_eq!(b.cross3(&c, &d), na::vec4(0, 0, 0, -1));
    let p = na::vec4(1i64, 2, 3, 4);
    let q = na::vec4(-2i64, 0, 1, 5);
    let r = na::vec4(3i64, -1, 2, 0);
    let x = p.cross3(&q, &r);
    assert_eq!(na::dot(&x, &p), 0);
    assert_eq!(na::dot(&x, &q), 0);
    assert_eq!(na::dot(&x, &r), 0);
    assert_eq!(p.cross3(&r, &q), na::Negate::negated(&x));
}

#[test]
fn scalars_of_every_width() {
    assert_eq!(na::norm(&na::vec2(3i8, 4)), 5);
    assert_eq!(na::norm(&na::vec2(-11i8, 0)), 11);
    assert_eq!(na::norm(&na::vec2(181i16, 0)), 181);
    assert_eq!(na::dot(&na::vec2(100i16, 100), &na::vec2(100i16, 100)), 20000);
    assert_eq!(
        na::norm(&na::vec2(13043817825332782212i128, 0)),
        13043817825332782212
    );
    assert_eq!(
        na::dot(&na::vec2(1i128 << 62, 1), &na::vec2(1i128 << 62, 1)),
        (1i128 << 124) + 1
    );
    let wide: na::Vec3<i128> = na::cast_vec(na::vec3(1i8, -2, 3));
    assert_eq!(wide, na::vec3(1i128, -2, 3));
    let narrow: na::Vec3<i8> = na::cast_vec(na::vec3(100i64, -100, 0));
    assert_eq!(narrow, na::vec3(100i8, -100, 0));
    let m: na::Mat2<i16> = na::cast_mat(na::mat2(1i32, 2, 3, 4));
    assert_eq!(m, na::mat2(1i16, 2, 3, 4));
    let r: Rot2<i8> = Rot2::quarter_turn();
    assert_eq!(na::rotate(&r, &na::vec2(127i8, -127)), na::vec2(127, 127));
}
