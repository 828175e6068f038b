use game_math::quaternion::Quaternion;
use game_math::vector::V3;

fn close(a: f64, b: f64) -> bool {
    (a - b).abs() < 1e-12
}

fn quat(w: f64, x: f64, y: f64, z: f64) -> Quaternion<f64> {
    Quaternion { w, x, y, z }
}

#[test]
fn identity_is_one() {
    assert_eq!(Quaternion::<f64>::identity(), quat(1.0, 0.0, 0.0, 0.0));
}

#[test]
fn hamilton_product_of_units() {
    let i = quat(0.0, 1.0, 0.0, 0.0);
    let j = quat(0.0, 0.0, 1.0, 0.0);
    let k = quat(0.0, 0.0, 0.0, 1.0);
    assert_eq!(i * j, k);
    assert_eq!(j * i, quat(0.0, 0.0, 0.0, -1.0));
    assert_eq!(i * i, quat(-1.0, 0.0, 0.0, 0.0));
}

#[test]
fn hamilton_product_integers() {
    let a: Quaternion<i64> = Quaternion { w: 1, x: 2, y: 3, z: 4 };
    let b: Quaternion<i64> = Quaternion { w: 5, x: 6, y: 7, z: 8 };
    assert_eq!(a * b, Quaternion { w: -60, x: 12, y: 30, z: 24 });
}

#[test]
fn mul_assign_composes() {
    let mut a = quat(0.0, 1.0, 0.0, 0.0);
    a *= quat(0.0, 0.0, 1.0, 0.0);
    assert_eq!(a, quat(0.0, 0.0, 0.0, 1.0));
}

#[test]
fn identity_is_neutral() {
    let q = quat(0.5, 0.5, -0.5, 0.5);
    let one = Quaternion::identity();
    assert_eq!(one * q, q);
    assert_eq!(q * one, q);
}

#[test]
fn conjugate_negates_vector_part() {
    let q = quat(0.5, 0.5, -0.5, 0.5);
    assert_eq!(q.conjugate(), quat(0.5, -0.5, 0.5, -0.5));
    assert_eq!(q * q.conjugate(), quat(1.0, 0.0, 0.0, 0.0));
}

#[test]
fn dot_of_four_vectors() {
    let a = quat(1.0, 2.0, 3.0, 4.0);
    let b = quat(5.0, 6.0, 7.0, 8.0);
    assert_eq!(a.dot(&b), 70.0);
}

#[test]
fn blend_weights_each_operand() {
    let a = quat(1.0, 0.0, 0.0, 0.0);
    let b = quat(0.0, 1.0, 0.0, 0.0);
    assert_eq!(a.blend(&b, 0.25, 0.75), quat(0.25, 0.75, 0.0, 0.0));
    assert_eq!(a.blend(&b, 1.0, 0.0), a);
    assert_eq!(a.blend(&b, 0.0, 1.0), b);
}

#[test]
fn axis_half_angle_rotation() {
    let half = std::f64::consts::FRAC_PI_4;
    let q = Quaternion::from_axis_half_angle(V3::new(0.0, 1.0, 0.0), half.sin(), half.cos());
    assert!(close(q.w, half.cos()));
    assert!(close(q.y, half.sin()));
    assert_eq!((q.x, q.z), (0.0, 0.0));
}

#[test]
fn euler_half_angles_pure_heading() {
    let (s, c) = (0.3f64).sin_cos();
    let q = Quaternion::obj_to_inertial_from_half_angles(s, c, 0.0, 1.0, 0.0, 1.0);
    assert_eq!(q, quat(c, 0.0, s, 0.0));
    let p = Quaternion::inertial_to_obj_from_half_angles(s, c, 0.0, 1.0, 0.0, 1.0);
    assert_eq!(p, quat(c, 0.0, -s, 0.0));
}

#[test]
fn euler_half_angles_directions_are_conjugate() {
    let (sh, ch) = (0.2f64).sin_cos();
    let (sp, cp) = (-0.35f64).sin_cos();
    let (sb, cb) = (0.6f64).sin_cos();
    let a = Quaternion::obj_to_inertial_from_half_angles(sh, ch, sp, cp, sb, cb);
    let b = Quaternion::inertial_to_obj_from_half_angles(sh, ch, sp, cp, sb, cb);
    let c = a.conjugate();
    assert!(close(b.w, c.w) && close(b.x, c.x) && close(b.y, c.y) && close(b.z, c.z));
}
