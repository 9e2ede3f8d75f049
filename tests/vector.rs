use approx::{AbsDiffEq, RelativeEq, UlpsEq};
use vecmat::quat::Quat;
use vecmat::vector::{Vec2, Vec3, Vec4};

fn abs_eq32(a: f32, b: f32) -> bool {
    a.abs_diff_eq(&b, f32::default_epsilon())
}

#[test]
fn new_stores_components() {
    let v = Vec4::new(1.0f32, 2.0, 3.0, 4.0);
    assert_eq!((v.x, v.y, v.z, v.w), (1.0, 2.0, 3.0, 4.0));
    let d = Vec2::new(-1.5f64, 2.5);
    assert_eq!((d.x, d.y), (-1.5, 2.5));
}

#[test]
fn zero_is_all_zero() {
    assert_eq!(Vec2::<f32>::zero(), Vec2::new(0.0, 0.0));
    assert_eq!(Vec3::<f64>::zero(), Vec3::new(0.0, 0.0, 0.0));
    assert_eq!(Vec4::<f32>::zero(), Vec4::new(0.0, 0.0, 0.0, 0.0));
}

#[test]
fn broadcast_construction() {
    assert_eq!(Vec3::from(5.0), Vec3::new(5.0, 5.0, 5.0));
    assert_eq!(Vec2::from(-2.0f32), Vec2::new(-2.0, -2.0));
    assert_eq!(Vec4::from(0.5f64), Vec4::new(0.5, 0.5, 0.5, 0.5));
}

#[test]
fn broadcast_with_narrowing() {
    let v: Vec3<f32> = Vec3::from(0.1f64 as f32);
    assert_eq!(v, Vec3::new(0.1f32, 0.1f32, 0.1f32));
}

#[test]
fn precision_conversions() {
    let d = Vec3::new(1.5f64, -2.25, 1.0e40);
    let s = d.map(|c| c as f32);
    assert_eq!(s.x, 1.5f32);
    assert_eq!(s.y, -2.25f32);
    assert!(s.z.is_infinite());
    let w = Vec2::new(0.1f32, 3.0).map(|c| c as f64);
    assert_eq!(w, Vec2::new(0.1f32 as f64, 3.0));
}

#[test]
fn widen_then_narrow_is_exact() {
    let v = Vec4::new(0.1f32, -7.3, 1.0e-30, 3.4e38);
    let back = v.map(|c| c as f64).map(|c| c as f32);
    assert_eq!(back, v);
    assert!(back.eq_by(&v, &abs_eq32));
}

#[test]
fn dimension_lifting() {
    let v2 = Vec2::new(1.0f32, 2.0);
    assert_eq!(Vec3::from((v2, 3.0)), Vec3::new(1.0, 2.0, 3.0));
    assert_eq!(Vec4::from((v2, 3.0, 4.0)), Vec4::new(1.0, 2.0, 3.0, 4.0));
    let v3 = Vec3::new(1.0f64, 2.0, 3.0);
    assert_eq!(Vec4::from((v3, 9.0)), Vec4::new(1.0, 2.0, 3.0, 9.0));
}

#[test]
fn array_round_trip() {
    let v = Vec3::new(1.0f32, -0.0, f32::MAX);
    let a = v.to_array();
    assert_eq!(a, [1.0, -0.0, f32::MAX]);
    let back = Vec3::<f32>::from(a);
    assert_eq!(back.x.to_bits(), v.x.to_bits());
    assert_eq!(back.y.to_bits(), v.y.to_bits());
    assert_eq!(back.z.to_bits(), v.z.to_bits());
    assert_eq!(Vec2::<f64>::from([3.0, 4.0]).to_array(), [3.0, 4.0]);
    assert_eq!(Vec4::<f32>::from([1.0, 2.0, 3.0, 4.0]), Vec4::new(1.0, 2.0, 3.0, 4.0));
}

#[test]
fn add_sub_scale_values() {
    let a = Vec3::new(1.0f32, 2.0, 3.0);
    let b = Vec3::new(4.0f32, 5.0, 6.0);
    assert_eq!(a + b, Vec3::new(5.0, 7.0, 9.0));
    assert_eq!(b - a, Vec3::new(3.0, 3.0, 3.0));
    assert_eq!(a * 2.0, Vec3::new(2.0, 4.0, 6.0));
    assert_eq!(Vec2::new(1.0f64, 2.0) + Vec2::new(0.5, 0.25), Vec2::new(1.5, 2.25));
    assert_eq!(Vec4::new(1.0f64, 2.0, 3.0, 4.0) - Vec4::from(1.0), Vec4::new(0.0, 1.0, 2.0, 3.0));
    assert_eq!(Vec4::new(1.0f32, -2.0, 3.0, 0.0) * -1.0, Vec4::new(-1.0, 2.0, -3.0, -0.0));
}

#[test]
fn add_commutative_and_associative() {
    let a = Vec3::new(0.1f32, 1.0e6, -3.5);
    let b = Vec3::new(0.2f32, -7.0, 2.25);
    let c = Vec3::new(0.3f32, 3.0e-3, 8.0);
    assert_eq!(a + b, b + a);
    let l = (a + b) + c;
    let r = a + (b + c);
    assert!(l.eq_by(&r, &|p: f32, q: f32| p.abs_diff_eq(&q, 1.0e-4)));
    let ia = Vec2::new(1i64, 2);
    let ib = Vec2::new(10i64, 20);
    let ic = Vec2::new(100i64, 200);
    assert_eq!((ia + ib) + ic, ia + (ib + ic));
}

#[test]
fn dot_values_and_symmetry() {
    let a = Vec3::new(1.0f32, 2.0, 3.0);
    let b = Vec3::new(4.0f32, 5.0, 6.0);
    assert_eq!(a.dot(b), 32.0);
    let p = Vec4::new(0.1f64, 0.7, -1.3, 2.9);
    let q = Vec4::new(3.3f64, -0.01, 5.5, 0.125);
    assert_eq!(p.dot(q).to_bits(), q.dot(p).to_bits());
    assert_eq!(Vec2::new(3.0f64, 4.0).dot(Vec2::new(3.0, 4.0)), 25.0);
}

#[test]
fn dot_sums_left_to_right() {
    let a = Vec3::new(1.0e8f32, -1.0e8, 1.0);
    let b = Vec3::new(1.0f32, 1.0, 1.0);
    assert_eq!(a.dot(b), 1.0);
    let c = Vec3::new(1.0e8f32, 1.0, -1.0e8);
    assert_eq!(c.dot(b), 0.0);
}

#[test]
fn cross_values() {
    let x = Vec3::new(1.0f64, 0.0, 0.0);
    let y = Vec3::new(0.0f64, 1.0, 0.0);
    assert_eq!(x.cross(y), Vec3::new(0.0, 0.0, 1.0));
    let a = Vec3::new(1.0f32, 2.0, 3.0);
    let b = Vec3::new(4.0f32, 5.0, 6.0);
    assert_eq!(a.cross(b), Vec3::new(-3.0, 6.0, -3.0));
}

#[test]
fn cross_orthogonal() {
    let a = Vec3::new(0.3f32, -1.7, 2.2);
    let b = Vec3::new(-4.1f32, 0.9, 0.05);
    let c = a.cross(b);
    assert!(c.dot(a).abs_diff_eq(&0.0, 1.0e-5));
    assert!(c.dot(b).abs_diff_eq(&0.0, 1.0e-5));
    let ia = Vec3::new(3i64, -7, 11);
    let ib = Vec3::new(-2i64, 5, 13);
    assert_eq!(ia.cross(ib).dot(ia), 0);
    assert_eq!(ia.cross(ib).dot(ib), 0);
}

#[test]
fn equality_tiers() {
    let a = Vec3::new(1.0f32, 2.0, 3.0);
    let b = Vec3::new(1.0f32, 2.0 + f32::EPSILON * 2.0, 3.0);
    let abs = |p: f32, q: f32| p.abs_diff_eq(&q, f32::EPSILON);
    let rel = |p: f32, q: f32| p.relative_eq(&q, f32::EPSILON, f32::default_max_relative());
    let ulps = |p: f32, q: f32| p.ulps_eq(&q, f32::EPSILON, 4);
    assert!(!a.eq_by(&b, &abs));
    assert!(a.eq_by(&b, &rel));
    assert!(a.eq_by(&b, &ulps));
    assert!(a.eq_by(&a, &abs));
    let far = Vec3::new(1.0f32, 2.5, 3.0);
    assert!(!a.eq_by(&far, &rel));
    assert!(!a.eq_by(&far, &ulps));
}

#[test]
fn absolute_equality_implies_relative() {
    let a = Vec2::new(100.0f64, -3.0);
    let b = Vec2::new(100.0f64 + 1.0e-9, -3.0 - 1.0e-9);
    let eps = 1.0e-8;
    assert!(a.eq_by(&b, &|p: f64, q: f64| p.abs_diff_eq(&q, eps)));
    assert!(a.eq_by(&b, &|p: f64, q: f64| p.relative_eq(&q, eps, 1.0e-12)));
}

#[test]
fn quat_new_and_identity() {
    let q = Quat::new(0.5f32, 0.1, 0.2, 0.3);
    assert_eq!((q.s, q.x, q.y, q.z), (0.5, 0.1, 0.2, 0.3));
    assert_eq!(Quat::<f64>::identity(), Quat::new(1.0, 0.0, 0.0, 0.0));
    let near = Quat::new(1.0f64 + 1.0e-12, 0.0, 0.0, 0.0);
    assert!(near.eq_by(&Quat::identity(), &|p: f64, q: f64| p.abs_diff_eq(&q, 1.0e-9)));
    assert!(!near.eq_by(&Quat::identity(), &|p: f64, q: f64| p == q));
}
