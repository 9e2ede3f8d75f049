use approx::AbsDiffEq;
use vecmat::quat::Quat;
use vecmat::trs::Trs;
use vecmat::vector::Vec3;

#[test]
fn trs_new_stores_parts() {
    let t = Vec3::new(1.0f32, 2.0, 3.0);
    let r = Quat::new(0.0f32, 0.0, 0.0, 1.0);
    let s = Vec3::new(0.0f32, 2.0, 2.0);
    let x = Trs::new(t, r, s);
    assert_eq!(x.t, t);
    assert_eq!(x.r, r);
    assert_eq!(x.s, s);
}

#[test]
fn trs_identity_parts() {
    let i = Trs::<f32>::identity();
    assert_eq!(i.t, Vec3::new(0.0, 0.0, 0.0));
    assert_eq!(i.r, Quat::new(1.0, 0.0, 0.0, 0.0));
    assert_eq!(i.s, Vec3::new(1.0, 1.0, 1.0));
    assert_eq!(Trs::<f64>::default(), Trs::<f64>::identity());
}

#[test]
fn trs_equality_uses_one_tolerance_for_all_parts() {
    let a = Trs::<f64>::identity();
    let mut b = a;
    b.s = Vec3::new(1.0, 1.0, 1.0 + 1.0e-6);
    assert!(a.eq_by(&b, &|p: f64, q: f64| p.abs_diff_eq(&q, 1.0e-5)));
    assert!(!a.eq_by(&b, &|p: f64, q: f64| p.abs_diff_eq(&q, 1.0e-7)));
    let mut c = a;
    c.r = Quat::new(1.0, 0.0, 1.0e-6, 0.0);
    assert!(!a.eq_by(&c, &|p: f64, q: f64| p.abs_diff_eq(&q, 1.0e-7)));
    c.t = Vec3::new(1.0e-6, 0.0, 0.0);
    assert!(a.eq_by(&c, &|p: f64, q: f64| p.abs_diff_eq(&q, 1.0e-5)));
}
