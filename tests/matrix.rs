use game_math::matrix::{Axis, RotationMatrix};
use game_math::quaternion::Quaternion;
use game_math::vector::V3;

fn close(a: f64, b: f64) -> bool {
    (a - b).abs() < 1e-12
}

fn close_v(a: V3<f64>, b: V3<f64>) -> bool {
    close(a.x, b.x) && close(a.y, b.y) && close(a.z, b.z)
}

fn entries(m: &RotationMatrix<f64>) -> [f64; 9] {
    [m.m11, m.m12, m.m13, m.m21, m.m22, m.m23, m.m31, m.m32, m.m33]
}

#[test]
fn identity_matrix() {
    let m = RotationMatrix::<f64>::identity();
    assert_eq!(entries(&m), [1.0, 0.0, 0.0, 0.0, 1.0, 0.0, 0.0, 0.0, 1.0]);
}

#[test]
fn identity_quaternion_gives_identity_matrix() {
    let q = Quaternion::<f64>::identity();
    let id = RotationMatrix::<f64>::identity();
    assert_eq!(RotationMatrix::from_inertial_to_obj_quaternion(q), id);
    assert_eq!(RotationMatrix::from_obj_to_inertial_quaternion(q), id);
}

#[test]
fn quaternion_matrix_exact_integers() {
    let q: Quaternion<i64> = Quaternion { w: 1, x: 2, y: 3, z: 4 };
    let m = RotationMatrix::from_inertial_to_obj_quaternion(q);
    let t = RotationMatrix::from_obj_to_inertial_quaternion(q);
    assert_eq!((m.m11, m.m12, m.m13), (-49, 20, 10));
    assert_eq!((m.m21, m.m22, m.m23), (4, -39, 28));
    assert_eq!((m.m31, m.m32, m.m33), (22, 20, -25));
    assert_eq!((t.m12, t.m21, t.m13, t.m31, t.m23, t.m32), (4, 20, 22, 10, 20, 28));
}

#[test]
fn quarter_turn_about_y() {
    let h = std::f64::consts::FRAC_PI_4;
    let q = Quaternion::from_axis_half_angle(V3::new(0.0, 1.0, 0.0), h.sin(), h.cos());
    let m = RotationMatrix::from_obj_to_inertial_quaternion(q);
    let v = m.obj_to_inertial(V3::new(0.0, 0.0, 1.0));
    assert!(close_v(v, V3::new(1.0, 0.0, 0.0)));
    let back = m.inertial_to_obj(v);
    assert!(close_v(back, V3::new(0.0, 0.0, 1.0)));
}

#[test]
fn negated_quaternion_gives_same_matrix() {
    let q = Quaternion { w: 0.5f64, x: -0.5, y: 0.5, z: 0.5 };
    let n = Quaternion { w: -0.5f64, x: 0.5, y: -0.5, z: -0.5 };
    assert_eq!(
        RotationMatrix::from_inertial_to_obj_quaternion(q),
        RotationMatrix::from_inertial_to_obj_quaternion(n)
    );
    assert_eq!(
        RotationMatrix::from_obj_to_inertial_quaternion(q),
        RotationMatrix::from_obj_to_inertial_quaternion(n)
    );
}

#[test]
fn euler_matrix_is_orthonormal() {
    for &(h, p, b) in &[(0.3f64, 0.2f64, -0.7f64), (2.5, 1.5707, 1.0), (-3.0, -1.2, 3.1)] {
        let (sh, ch) = h.sin_cos();
        let (sp, cp) = p.sin_cos();
        let (sb, cb) = b.sin_cos();
        let m = RotationMatrix::from_orientation_sin_cos(sh, ch, sp, cp, sb, cb);
        let e = entries(&m);
        for i in 0..3 {
            for j in 0..3 {
                let d: f64 = (0..3).map(|k| e[k * 3 + i] * e[k * 3 + j]).sum();
                let want = if i == j { 1.0 } else { 0.0 };
                assert!((d - want).abs() < 1e-12);
            }
        }
    }
}

#[test]
fn euler_matrix_matches_quaternion_matrix() {
    let (h, p, b) = (0.4f64, -0.3f64, 1.1f64);
    let (sh, ch) = (h * 0.5).sin_cos();
    let (sp, cp) = (p * 0.5).sin_cos();
    let (sb, cb) = (b * 0.5).sin_cos();
    let q = Quaternion::inertial_to_obj_from_half_angles(sh, ch, sp, cp, sb, cb);
    let from_q = RotationMatrix::from_inertial_to_obj_quaternion(q);
    let (sh, ch) = h.sin_cos();
    let (sp, cp) = p.sin_cos();
    let (sb, cb) = b.sin_cos();
    let from_e = RotationMatrix::from_orientation_sin_cos(sh, ch, sp, cp, sb, cb);
    for (a, b) in entries(&from_q).iter().zip(entries(&from_e).iter()) {
        assert!((a - b).abs() < 1e-12);
    }
}

#[test]
fn axes_are_distinct() {
    assert_ne!(Axis::X, Axis::Y);
    assert_ne!(Axis::Y, Axis::Z);
    assert_eq!(Axis::Z, Axis::Z);
}
