use std::f64::consts::{FRAC_PI_2, PI, TAU};

use game_math::affine::Matrix3x4;
use game_math::euler::EulerAngles;
use game_math::matrix::{Axis, RotationMatrix};
use game_math::quaternion::{slerp_weights, Quaternion};
use game_math::scalar::{safe_acos, wrap_pi};
use game_math::vector::V3;

const GIMBAL: f64 = 0.9999;
const MATRIX_GIMBAL: f64 = 0.99999;
const LOCK: f64 = FRAC_PI_2 - 1e-4;

fn sc(a: f64) -> (f64, f64) {
    a.sin_cos()
}

fn asin(a: f64) -> f64 {
    a.asin()
}

fn atan2(y: f64, x: f64) -> f64 {
    y.atan2(x)
}

fn wrap(a: f64) -> f64 {
    wrap_pi(a, PI, TAU, f64::floor)
}

fn near(a: f64, b: f64, tol: f64) -> bool {
    (a - b).abs() < tol
}

fn same_angles(a: EulerAngles<f64>, b: EulerAngles<f64>) -> bool {
    near(a.heading, b.heading, 1e-9) && near(a.pitch, b.pitch, 1e-9) && near(a.bank, b.bank, 1e-9)
}

fn same_quat(a: Quaternion<f64>, b: Quaternion<f64>, tol: f64) -> bool {
    near(a.w, b.w, tol) && near(a.x, b.x, tol) && near(a.y, b.y, tol) && near(a.z, b.z, tol)
}

fn euler(heading: f64, pitch: f64, bank: f64) -> EulerAngles<f64> {
    EulerAngles { heading, pitch, bank }
}

fn slerp(a: &Quaternion<f64>, b: &Quaternion<f64>, t: f64) -> Quaternion<f64> {
    a.slerp(b, t, 0.9999, f64::sqrt, atan2, f64::sin)
}

fn orthonormal(m: &RotationMatrix<f64>) -> bool {
    let e = [m.m11, m.m12, m.m13, m.m21, m.m22, m.m23, m.m31, m.m32, m.m33];
    (0..3).all(|i| {
        (0..3).all(|j| {
            let d: f64 = (0..3).map(|k| e[k * 3 + i] * e[k * 3 + j]).sum();
            near(d, if i == j { 1.0 } else { 0.0 }, 1e-12)
        })
    })
}

#[test]
fn wrap_three_half_turns_lands_on_pi() {
    assert!(near(wrap(3.0 * PI), PI, 1e-12));
    assert!(near(wrap(-3.0 * PI), PI, 1e-12));
}

#[test]
fn wrap_keeps_angles_in_range() {
    assert_eq!(wrap(0.5), 0.5);
    assert_eq!(wrap(-2.0), -2.0);
    assert_eq!(wrap(PI), PI);
    assert!(near(wrap(7.0), 7.0 - TAU, 1e-12));
    assert!(near(wrap(-PI), PI, 1e-12));
}

#[test]
fn safe_acos_clamps_outside_unit_interval() {
    assert_eq!(safe_acos(1.0000001, PI, f64::acos), 0.0);
    assert_eq!(safe_acos(-1.0000001, PI, f64::acos), PI);
    assert_eq!(safe_acos(0.5, PI, f64::acos), 0.5f64.acos());
}

#[test]
fn round_trip_through_matrix() {
    for &(h, p, b) in &[(0.4, -0.3, 1.1), (-2.9, 1.2, -0.2), (3.0, -1.5, 2.5)] {
        let e = euler(h, p, b);
        let m = RotationMatrix::from_orientation(e, sc);
        let r = EulerAngles::from_rotation_matrix(m, FRAC_PI_2, MATRIX_GIMBAL, asin, atan2);
        assert!(same_angles(r, e));
        let w2o = Matrix3x4::from_parent_to_local_euler(V3::new(1.0, 2.0, 3.0), e, sc);
        assert!(same_angles(
            EulerAngles::from_world_to_obj_matrix(w2o, FRAC_PI_2, MATRIX_GIMBAL, asin, atan2),
            e
        ));
        let o2w = Matrix3x4::from_local_to_parent_euler(V3::new(1.0, 2.0, 3.0), e, sc);
        assert!(same_angles(
            EulerAngles::from_obj_to_world_matrix(o2w, FRAC_PI_2, MATRIX_GIMBAL, asin, atan2),
            e
        ));
    }
}

#[test]
fn round_trip_through_quaternion() {
    for &(h, p, b) in &[(0.4, -0.3, 1.1), (-2.9, 1.2, -0.2), (3.0, -1.5, 2.5)] {
        let e = euler(h, p, b);
        let q = Quaternion::inertial_to_obj_from_euler(e, sc);
        let r = EulerAngles::from_inertial_to_obj_quaternion(q, FRAC_PI_2, GIMBAL, asin, atan2);
        assert!(same_angles(r, e));
        let q = Quaternion::obj_to_inertial_from_euler(e, sc);
        let r = EulerAngles::from_obj_to_inertial_quaternion(q, FRAC_PI_2, GIMBAL, asin, atan2);
        assert!(same_angles(r, e));
    }
}

#[test]
fn gimbal_lock_forces_zero_bank() {
    let e = euler(0.3, FRAC_PI_2, 0.7);
    let m = RotationMatrix::from_orientation(e, sc);
    let r = EulerAngles::from_rotation_matrix(m, FRAC_PI_2, MATRIX_GIMBAL, asin, atan2);
    assert_eq!(r.bank, 0.0);
    assert!(near(r.pitch, FRAC_PI_2, 1e-9));
    let q = Quaternion::inertial_to_obj_from_euler(e, sc);
    let r = EulerAngles::from_inertial_to_obj_quaternion(q, FRAC_PI_2, GIMBAL, asin, atan2);
    assert_eq!(r.bank, 0.0);
    assert!(near(r.pitch, FRAC_PI_2, 1e-6));
}

#[test]
fn negated_quaternion_gives_same_angles() {
    let q = Quaternion::inertial_to_obj_from_euler(euler(0.4, -0.3, 1.1), sc);
    let n = Quaternion { w: -q.w, x: -q.x, y: -q.y, z: -q.z };
    let a = EulerAngles::from_inertial_to_obj_quaternion(q, FRAC_PI_2, GIMBAL, asin, atan2);
    let b = EulerAngles::from_inertial_to_obj_quaternion(n, FRAC_PI_2, GIMBAL, asin, atan2);
    assert_eq!(a, b);
    let a = EulerAngles::from_obj_to_inertial_quaternion(q, FRAC_PI_2, GIMBAL, asin, atan2);
    let b = EulerAngles::from_obj_to_inertial_quaternion(n, FRAC_PI_2, GIMBAL, asin, atan2);
    assert_eq!(a, b);
}

#[test]
fn matrices_are_orthonormal() {
    for &(h, p, b) in &[(0.3, 0.2, -0.7), (2.5, 1.5707, 1.0), (-3.0, -1.5707963, 3.1), (0.0, FRAC_PI_2, 0.0)] {
        let e = euler(h, p, b);
        assert!(orthonormal(&RotationMatrix::from_orientation(e, sc)));
        let q = Quaternion::inertial_to_obj_from_euler(e, sc);
        assert!(orthonormal(&RotationMatrix::from_inertial_to_obj_quaternion(q)));
        assert!(orthonormal(&RotationMatrix::from_obj_to_inertial_quaternion(q)));
    }
}

#[test]
fn canonize_gimbal_lock_folds_bank_into_heading() {
    let mut e = euler(0.3, FRAC_PI_2, 0.7);
    e.canonize(PI, FRAC_PI_2, LOCK, wrap);
    assert_eq!(e.bank, 0.0);
    assert!(near(e.heading, 1.0, 1e-12));
    assert_eq!(e.pitch, FRAC_PI_2);
}

#[test]
fn canonize_reflects_pitch_over_the_pole() {
    let mut e = euler(0.25, 2.0, -0.5);
    e.canonize(PI, FRAC_PI_2, LOCK, wrap);
    assert!(near(e.pitch, PI - 2.0, 1e-12));
    assert!(near(e.heading, 0.25 + PI - TAU, 1e-12));
    assert!(near(e.bank, -0.5 + PI, 1e-12));
}

#[test]
fn canonize_wraps_every_angle() {
    let mut e = euler(7.0, -0.5, -4.0);
    e.canonize(PI, FRAC_PI_2, LOCK, wrap);
    assert!(near(e.heading, 7.0 - TAU, 1e-12));
    assert_eq!(e.pitch, -0.5);
    assert!(near(e.bank, -4.0 + TAU, 1e-12));
}

#[test]
fn canonical_form_is_unique_for_a_rotation() {
    let mut a = euler(0.4, 0.3, -1.0);
    let mut b = euler(0.4 + PI, PI - 0.3, -1.0 + PI);
    a.canonize(PI, FRAC_PI_2, LOCK, wrap);
    b.canonize(PI, FRAC_PI_2, LOCK, wrap);
    assert!(same_angles(a, b));
}

#[test]
fn slerp_endpoints_are_exact() {
    let a = Quaternion::from_axis_angle(V3::new(0.0, 1.0, 0.0), 0.3, sc);
    let b = Quaternion::from_axis_angle(V3::new(1.0, 0.0, 0.0), 1.7, sc);
    assert_eq!(slerp(&a, &b, 0.0), a);
    assert_eq!(slerp(&a, &b, 1.0), b);
    assert_eq!(slerp(&a, &b, -0.5), a);
    assert_eq!(slerp(&a, &b, 1.5), b);
}

#[test]
fn slerp_angle_grows_with_t() {
    let a = Quaternion::from_axis_angle(V3::new(0.0, 0.0, 1.0), 0.2, sc);
    let b = Quaternion::from_axis_angle(V3::new(0.0, 0.6, 0.8), 2.4, sc);
    let mut last = 0.0;
    for i in 0..=20 {
        let t = i as f64 / 20.0;
        let s = slerp(&a, &b, t);
        let angle = 2.0 * safe_acos(a.dot(&s).abs(), PI, f64::acos);
        assert!(angle + 1e-12 >= last);
        last = angle;
    }
}

#[test]
fn slerp_takes_the_shorter_arc() {
    let a = Quaternion::<f64>::identity();
    let b = Quaternion::from_axis_angle(V3::new(0.0, 0.0, 1.0), 1.0, sc);
    let n = Quaternion { w: -b.w, x: -b.x, y: -b.y, z: -b.z };
    let half = slerp(&a, &n, 0.5);
    let want = Quaternion::from_axis_angle(V3::new(0.0, 0.0, 1.0), 0.5, sc);
    assert!(same_quat(half, want, 1e-12));
}

#[test]
fn pow_one_and_zero() {
    let q = Quaternion::from_axis_angle(V3::new(0.0, 0.6, 0.8), 1.2, sc);
    let one = q.pow(1.0, 0.9999, f64::acos, f64::sin, f64::cos);
    assert!(same_quat(one, q, 1e-12));
    let zero = q.pow(0.0, 0.9999, f64::acos, f64::sin, f64::cos);
    assert!(same_quat(zero, Quaternion::identity(), 1e-12));
    let half = q.pow(0.5, 0.9999, f64::acos, f64::sin, f64::cos);
    let want = Quaternion::from_axis_angle(V3::new(0.0, 0.6, 0.8), 0.6, sc);
    assert!(same_quat(half, want, 1e-12));
}

#[test]
fn pow_near_identity_is_unchanged() {
    let q = Quaternion::from_axis_angle(V3::new(1.0, 0.0, 0.0), 0.001, sc);
    assert_eq!(q.pow(3.0, 0.9999, f64::acos, f64::sin, f64::cos), q);
}

#[test]
fn rotation_angle_and_axis() {
    let q = Quaternion::from_axis_angle(V3::new(0.0, 0.6, 0.8), 1.2, sc);
    assert!(near(q.get_rotation_angle(PI, f64::acos), 1.2, 1e-12));
    let axis = q.get_rotation_axis(f64::sqrt);
    assert!(near(axis.x, 0.0, 1e-12) && near(axis.y, 0.6, 1e-12) && near(axis.z, 0.8, 1e-12));
    let id = Quaternion::<f64>::identity();
    assert_eq!(id.get_rotation_axis(f64::sqrt), V3::new(1.0, 0.0, 0.0));
    assert_eq!(id.get_rotation_angle(PI, f64::acos), 0.0);
}

#[test]
fn normalize_rescales_to_unit() {
    let mut q = Quaternion { w: 2.0, x: 0.0, y: 0.0, z: 0.0 };
    q.normalize(f64::sqrt);
    assert_eq!(q, Quaternion::identity());
    let mut q = Quaternion { w: 1.0, x: 1.0, y: 1.0, z: 1.0 };
    q.normalize(f64::sqrt);
    assert_eq!(q, Quaternion { w: 0.5, x: 0.5, y: 0.5, z: 0.5 });
}

#[test]
fn normalize_leaves_zero_unchanged() {
    let mut q = Quaternion { w: 0.0, x: 0.0, y: 0.0, z: 0.0 };
    q.normalize(f64::sqrt);
    assert_eq!(q, Quaternion { w: 0.0, x: 0.0, y: 0.0, z: 0.0 });
}

#[test]
fn coordinate_axis_rotations() {
    let (s, c) = (0.35f64).sin_cos();
    assert_eq!(Quaternion::from_coordinate_axis(Axis::X, 0.7, sc), Quaternion { w: c, x: s, y: 0.0, z: 0.0 });
    assert_eq!(Quaternion::from_coordinate_axis(Axis::Y, 0.7, sc), Quaternion { w: c, x: 0.0, y: s, z: 0.0 });
    assert_eq!(Quaternion::from_coordinate_axis(Axis::Z, 0.7, sc), Quaternion { w: c, x: 0.0, y: 0.0, z: s });
    assert_eq!(Quaternion::about_axis(Axis::Y, s, c), Quaternion { w: c, x: 0.0, y: s, z: 0.0 });
}

#[test]
fn euler_identity_is_zero() {
    assert_eq!(EulerAngles::<f64>::identity(), euler(0.0, 0.0, 0.0));
}

fn weights(c: f64, t: f64) -> (f64, f64) {
    slerp_weights(c, t, 0.9999, f64::sqrt, atan2, f64::sin)
}

#[test]
fn slerp_weights_linear_near_parallel() {
    assert_eq!(weights(0.99995, 0.25), (0.75, 0.25));
    assert_eq!(weights(1.0, 0.6), (1.0 - 0.6, 0.6));
}

#[test]
fn slerp_weights_spherical() {
    let c = 0.5f64;
    let omega = (1.0 - c * c).sqrt().atan2(c);
    let (k0, k1) = weights(c, 0.25);
    assert!(near(omega, PI / 3.0, 1e-12));
    assert!(near(k0, (0.75 * omega).sin() / omega.sin(), 1e-12));
    assert!(near(k1, (0.25 * omega).sin() / omega.sin(), 1e-12));
    let (h0, h1) = weights(c, 0.5);
    assert!(near(h0, h1, 1e-15));
}

#[test]
fn slerp_is_symmetric_in_t() {
    let a = Quaternion::from_axis_angle(V3::new(0.0, 1.0, 0.0), 0.3, sc);
    let b = Quaternion::from_axis_angle(V3::new(1.0, 0.0, 0.0), 1.7, sc);
    for i in 0..=10 {
        let t = i as f64 / 10.0;
        assert!(same_quat(slerp(&a, &b, t), slerp(&b, &a, 1.0 - t), 1e-12));
    }
}

#[test]
fn slerp_linear_fallback_is_not_renormalized() {
    let a = Quaternion::<f64>::identity();
    let b = Quaternion::from_axis_angle(V3::new(0.0, 0.0, 1.0), 0.001, sc);
    let r = slerp(&a, &b, 0.5);
    let want = a.blend(&b, 0.5, 0.5);
    assert_eq!(r, want);
}
