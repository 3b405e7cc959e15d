use nalgebra::na;
use nalgebra::na::{Iso2, Iso3, Mat2, Mat3, Mat4, Rot2, Rot3, Rot4, Vec2, Vec3};

#[test]
fn translation_of_a_pure_translation() {
    let t = Iso3::new(na::vec3(1i64, 1, 1), na::one());
    assert_eq!(na::translation(&t), na::vec3(1, 1, 1));
    assert_eq!(na::inv_translation(&t), na::vec3(-1, -1, -1));
}

#[test]
fn translation_and_inverse_translation_add_to_zero() {
    let t = Iso3::new(na::vec3(4i64, -7, 9), Rot3::quarter_turn_x());
    let a: Vec3<i64> = na::translation(&t);
    let b: Vec3<i64> = na::inv_translation(&t);
    assert_eq!(a.plus(&b), na::zero());
}

#[test]
fn translate_by_adds_and_set_translation_replaces() {
    let mut t = Iso2::new(na::vec2(1i64, 2), na::one());
    na::translate_by(&mut t, &na::vec2(10i64, 20));
    assert_eq!(na::translation(&t), na::vec2(11, 22));
    let u = na::translated(&t, &na::vec2(1i64, 1));
    assert_eq!(na::translation(&u), na::vec2(12, 23));
    assert_eq!(na::translation(&t), na::vec2(11, 22));
    na::set_translation(&mut t, na::vec2(5i64, 6));
    assert_eq!(na::translation(&t), na::vec2(5, 6));
}

#[test]
fn translate_moves_points() {
    let t = Iso2::new(na::vec2(3i64, -4), Rot2::quarter_turn());
    assert_eq!(na::translate(&t, &na::vec2(1i64, 1)), na::vec2(4, -3));
    assert_eq!(na::inv_translate(&t, &na::vec2(1i64, 1)), na::vec2(-2, 5));
}

#[test]
fn quarter_turn_takes_first_axis_to_second() {
    let r: Rot3<i64> = Rot3::quarter_turn_z();
    let v = na::vec3(1i64, 0, 0);
    let w = na::rotate(&r, &v);
    assert_eq!(w, na::vec3(0, 1, 0));
    assert_eq!(na::norm(&w), 1);
    assert_eq!(na::dot(&w, &v), 0);
    let back: Rot3<i64> = na::inv_rotation(&r);
    assert_eq!(na::rotate(&back, &w), v);
    let x: Rot3<i64> = Rot3::quarter_turn_x();
    assert_eq!(na::rotate(&x, &na::vec3(0i64, 1, 0)), na::vec3(0, 0, 1));
    let y: Rot3<i64> = Rot3::quarter_turn_y();
    assert_eq!(na::rotate(&y, &na::vec3(0i64, 0, 1)), na::vec3(1, 0, 0));
    let q: Rot2<i64> = Rot2::quarter_turn();
    assert_eq!(na::rotate(&q, &na::vec2(1i64, 0)), na::vec2(0, 1));
}

#[test]
fn inverse_rotation_is_the_transpose() {
    let r: Rot3<i64> = Rot3::quarter_turn_x().times(&Rot3::quarter_turn_z());
    let inv: Rot3<i64> = na::inv_rotation(&r);
    assert_eq!(inv, na::transposed(&r));
    assert_eq!(inv.submat(), na::transposed(&r.submat()));
    assert_eq!(na::inverted(&r), Some(inv));
    let v = na::vec3(3i64, -5, 7);
    assert_eq!(na::rotate(&r, &na::rotate(&inv, &v)), v);
    assert_eq!(na::rotate(&inv, &na::rotate(&r, &v)), v);
    assert_eq!(na::inv_rotate(&r, &na::rotate(&r, &v)), v);
}

#[test]
fn rotate_by_composes_and_set_rotation_replaces() {
    let mut r: Rot2<i64> = na::one();
    let q: Rot2<i64> = Rot2::quarter_turn();
    na::rotate_by(&mut r, &q);
    na::rotate_by(&mut r, &q);
    assert_eq!(r.submat(), na::mat2(-1, 0, 0, -1));
    let s = na::rotated(&r, &q);
    assert_eq!(s.submat(), na::mat2(0, 1, -1, 0));
    assert_eq!(na::rotation(&s), s);
    na::set_rotation(&mut r, q);
    assert_eq!(r, q);
    let four = q.times(&q).times(&q).times(&q);
    let id: Rot2<i64> = na::one();
    assert_eq!(four, id);
}

#[test]
fn rotation_from_matrix_asks_for_orthogonality() {
    let good: Option<Rot2<i64>> = Rot2::from_mat(na::mat2(0, 1, 1, 0));
    assert!(good.is_some());
    let bad: Option<Rot2<i64>> = Rot2::from_mat(na::mat2(1, 1, 0, 1));
    assert!(bad.is_none());
    let big: Option<Rot2<i64>> = Rot2::from_mat(na::mat2(i64::MAX, 0, 0, 1));
    assert!(big.is_none());
    let zero: Option<Rot3<i64>> = Rot3::from_mat(na::zero());
    assert!(zero.is_none());
    let id4: Option<Rot4<i64>> = Rot4::from_mat(na::one());
    assert_eq!(id4, Some(na::one()));
    let cyc: Option<Rot3<i64>> = Rot3::from_mat(na::mat3(0, 0, 1, 1, 0, 0, 0, 1, 0));
    assert_eq!(na::rotate(&cyc.unwrap(), &na::vec3(1i64, 2, 3)), na::vec3(3, 1, 2));
}

#[test]
fn to_rot_mat_gives_the_rotation() {
    let r: Rot3<i64> = Rot3::quarter_turn_y();
    let m: Rot3<i64> = na::to_rot_mat(&r);
    assert_eq!(m, r);
    let t = Iso3::new(na::vec3(1i64, 2, 3), r);
    let n: Rot3<i64> = na::to_rot_mat(&t);
    assert_eq!(n, r);
}

#[test]
fn absolute_rotate_bounds_extents() {
    let r: Rot3<i64> = Rot3::quarter_turn_z();
    let extents = na::vec3(1i64, 2, 3);
    assert_eq!(na::absolute_rotate(&r, &extents), na::vec3(2, 1, 3));
    assert_eq!(na::rotate(&r, &extents), na::vec3(-2, 1, 3));
    let a: Mat3<i64> = na::absolute(&r);
    assert_eq!(a, na::mat3(0, 1, 0, 1, 0, 0, 0, 0, 1));
}

#[test]
fn transform_rotates_then_translates() {
    let t = Iso3::new(na::vec3(10i64, 20, 30), Rot3::quarter_turn_z());
    let p = na::vec3(1i64, 2, 3);
    assert_eq!(na::transform(&t, &p), na::vec3(8, 21, 33));
    assert_eq!(na::inv_transform(&t, &na::vec3(8i64, 21, 33)), p);
    assert_eq!(na::rotate(&t, &p), na::vec3(-2, 1, 3));
    assert_eq!(na::inv_rotate(&t, &na::vec3(-2i64, 1, 3)), p);
}

#[test]
fn inverse_transformation_undoes_the_transformation() {
    let t = Iso3::new(na::vec3(10i64, 20, 30), Rot3::quarter_turn_x());
    let inv: Iso3<i64> = na::inv_transformation(&t);
    assert_eq!(na::translation(&inv), na::vec3(-10, -30, 20));
    let p = na::vec3(-4i64, 5, 6);
    assert_eq!(na::transform(&inv, &na::transform(&t, &p)), p);
    assert_eq!(na::transform(&inv, &p), na::inv_transform(&t, &p));
    assert_eq!(na::inverted(&t), Some(inv));
    let mut u = t;
    assert!(na::invert(&mut u));
    assert_eq!(u, inv);
    let id: Iso3<i64> = na::one();
    assert_eq!(na::transformed(&t, &inv), id);
}

#[test]
fn transform_by_composes_and_set_transformation_replaces() {
    let first = Iso2::new(na::vec2(1i64, 0), Rot2::quarter_turn());
    let second = Iso2::new(na::vec2(0i64, 5), Rot2::quarter_turn());
    let both = na::transformed(&first, &second);
    let p = na::vec2(2i64, 3);
    assert_eq!(na::transform(&both, &p), na::transform(&second, &na::transform(&first, &p)));
    assert_eq!(na::transform(&both, &p), na::vec2(-2, 3));
    let mut m = first;
    na::transform_by(&mut m, &second);
    assert_eq!(m, both);
    assert_eq!(na::transformation(&m), both);
    na::set_transformation(&mut m, first);
    assert_eq!(m, first);
    assert_eq!(second.times(&first), both);
}

#[test]
fn rotated_wrt_point_is_translate_rotate_translate() {
    let m = Iso2::new(na::vec2(3i64, 1), na::one());
    let amount: Rot2<i64> = Rot2::quarter_turn();
    let center = na::vec2(1i64, 1);
    let r = na::rotated_wrt_point(&m, &amount, &center);
    let mut steps = na::translated(&m, &na::vec2(-1i64, -1));
    na::rotate_by(&mut steps, &amount);
    na::translate_by(&mut steps, &center);
    assert_eq!(r, steps);
    assert_eq!(na::translation(&r), na::vec2(1, 3));
    assert_eq!(na::rotation(&r), amount);
    let mut in_place = m;
    na::rotate_wrt_point(&mut in_place, &amount, &center);
    assert_eq!(in_place, r);
}

#[test]
fn rotated_wrt_center_keeps_position() {
    let m = Iso3::new(na::vec3(7i64, -8, 9), Rot3::quarter_turn_x());
    let amount: Rot3<i64> = Rot3::quarter_turn_z();
    let r = na::rotated_wrt_center(&m, &amount);
    assert_eq!(na::translation(&r), na::vec3(7, -8, 9));
    assert_eq!(na::rotation(&r), amount.times(&Rot3::quarter_turn_x()));
    assert_eq!(r, na::rotated_wrt_point(&m, &amount, &na::translation(&m)));
    let mut in_place = m;
    na::rotate_wrt_center(&mut in_place, &amount);
    assert_eq!(in_place, r);
}

#[test]
fn isometry_rotate_by_turns_translation_too() {
    let mut m = Iso2::new(na::vec2(2i64, 0), na::one());
    na::rotate_by(&mut m, &Rot2::quarter_turn());
    assert_eq!(na::translation(&m), na::vec2(0, 2));
    let mut n = Iso2::new(na::vec2(2i64, 0), na::one());
    na::set_rotation(&mut n, Rot2::quarter_turn());
    assert_eq!(na::translation(&n), na::vec2(2, 0));
    assert_eq!(na::rotation(&n), Rot2::quarter_turn());
    let i: Rot2<i64> = na::inv_rotation(&n);
    assert_eq!(i.submat(), na::mat2(0, 1, -1, 0));
}

#[test]
fn homogeneous_isometry_round_trip() {
    let t = Iso3::new(na::vec3(1i64, 2, 3), Rot3::quarter_turn_z());
    let h: Mat4<i64> = na::to_homogeneous(&t);
    assert_eq!(h, na::mat4(0, -1, 0, 1, 1, 0, 0, 2, 0, 0, 1, 3, 0, 0, 0, 1));
    let back: Iso3<i64> = na::from_homogeneous(&h);
    assert_eq!(back, t);
    let p = na::vec3(4i64, 5, 6);
    let hp: na::Vec4<i64> = na::to_homogeneous(&p);
    let moved: na::Vec4<i64> = na::to_homogeneous(&na::transform(&t, &p));
    assert_eq!(na::RMul::rmul(&h, &hp), moved);
    let t2 = Iso2::new(na::vec2(5i64, 6), Rot2::quarter_turn());
    let h2: Mat3<i64> = na::to_homogeneous(&t2);
    assert_eq!(h2, na::mat3(0, -1, 5, 1, 0, 6, 0, 0, 1));
    let r: Rot2<i64> = na::from_homogeneous(&h2);
    assert_eq!(r, Rot2::quarter_turn());
    let rh: Mat3<i64> = na::to_homogeneous(&r);
    assert_eq!(rh, na::mat3(0, -1, 0, 1, 0, 0, 0, 0, 1));
}

#[test]
fn rotation_as_transform_and_matrix() {
    let r: Rot2<i64> = Rot2::quarter_turn();
    let v: Vec2<i64> = na::vec2(3, 4);
    assert_eq!(na::transform(&r, &v), na::vec2(-4, 3));
    assert_eq!(na::inv_transform(&r, &v), na::vec2(4, -3));
    assert_eq!(na::RMul::rmul(&r, &v), na::vec2(-4, 3));
    assert_eq!(na::LMul::lmul(&r, &v), na::vec2(4, -3));
    let m: Mat2<i64> = r.submat();
    assert_eq!(Rot2::from_orthogonal(m), r);
    let mut t = r;
    na::transpose(&mut t);
    assert_eq!(t.submat(), na::mat2(0, 1, -1, 0));
    assert!(na::invert(&mut t));
    assert_eq!(t, r);
}
