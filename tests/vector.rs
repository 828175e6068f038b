use game_math::vector::V3;

#[test]
fn add() {
    let a = V3::new(1.0, 2.0, 3.0);
    let b = V3::new(3.0, 2.0, 1.0);
    assert_eq!(a + b, V3::new(4.0, 4.0, 4.0));
}

#[test]
fn sub() {
    let a = V3::new(1.0, 2.0, 3.0);
    let b = V3::new(3.0, 2.0, 1.0);
    assert_eq!(a - b, V3::new(-2.0, 0.0, 2.0));
}

#[test]
fn add_assign() {
    let mut a = V3::new(1.0, 2.0, 3.0);
    a += V3::new(3.0, 2.0, 1.0);
    assert_eq!(a, V3::new(4.0, 4.0, 4.0));
}

#[test]
fn sub_assign() {
    let mut a = V3::new(1.0, 2.0, 3.0);
    a -= V3::new(3.0, 2.0, 1.0);
    assert_eq!(a, V3::new(-2.0, 0.0, 2.0));
}

#[test]
fn mul() {
    // A vector generic over its scalar can be scaled on the right only.
    let a = V3::new(1.0, 2.0, 3.0);
    assert_eq!(a * 3.0, V3::new(3.0, 6.0, 9.0));
}

#[test]
fn div() {
    let a = V3::new(2.0, 4.0, 6.0);
    assert_eq!(a / 2.0, V3::new(1.0, 2.0, 3.0));
}

#[test]
fn mul_assign() {
    let mut a = V3::new(1.0, 2.0, 3.0);
    a *= 3.0;
    assert_eq!(a, V3::new(3.0, 6.0, 9.0));
}

#[test]
fn div_assign() {
    let mut a = V3::new(2.0, 4.0, 6.0);
    a /= 2.0;
    assert_eq!(a, V3::new(1.0, 2.0, 3.0));
}

#[test]
fn normalize() {
    let a = V3::new(0.0, 2.0, 0.0);
    assert_eq!(a.normalize(f64::sqrt), V3::new(0.0, 1.0, 0.0));
}

#[test]
fn mag() {
    let a = V3::new(0.0, 2.0, 0.0);
    assert_eq!(a.mag(f64::sqrt), 2.0);
}

#[test]
fn dot() {
    let a = V3::new(1.0, 2.0, 3.0);
    let b = V3::new(1.0, 2.0, 3.0);
    assert_eq!(a.dot(&b), V3::new(1.0, 4.0, 9.0));
}

#[test]
fn cross() {
    let a = V3::new(1.0, 2.0, 3.0);
    let b = V3::new(3.0, 2.0, 1.0);
    assert_eq!(a.cross(&b), V3::new(-4.0, 8.0, -4.0));
}

#[test]
fn distance() {
    let a = V3::new(1.0, 2.0, 3.0);
    let b = V3::new(2.0, 2.0, 3.0);
    assert_eq!(a.distance(&b, f64::sqrt), 1.0);
}

#[test]
fn negation_flips_every_component() {
    let a = V3::new(1.0, -2.0, 0.5);
    assert_eq!(-a, V3::new(-1.0, 2.0, -0.5));
}

#[test]
fn zero_clears_every_component() {
    let mut a = V3::new(7.0, -2.0, 3.5);
    a.zero();
    assert_eq!(a, V3::new(0.0, 0.0, 0.0));
}

#[test]
fn getters_return_components() {
    let a = V3::new(1.5, -2.5, 3.5);
    assert_eq!((a.x(), a.y(), a.z()), (1.5, -2.5, 3.5));
}

#[test]
fn integer_vectors_are_exact() {
    let a: V3<i64> = V3::new(2, -3, 5);
    let b: V3<i64> = V3::new(7, 11, -13);
    assert_eq!(a + b, V3::new(9, 8, -8));
    assert_eq!(a.cross(&b), V3::new(-16, 61, 43));
    assert_eq!(a * 4, V3::new(8, -12, 20));
}
