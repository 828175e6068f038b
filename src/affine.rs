use vstd::prelude::*;
use std::ops::{Add, Div, Mul, MulAssign, Neg, Sub};
use vstd::std_specs::ops::{AddSpec, DivSpec, MulSpec, NegSpec, SubSpec};
use crate::euler::EulerAngles;
use crate::matrix::{euler_matrix, Axis, RotationMatrix};
use crate::quaternion::Quaternion;
use crate::scalar::{
    constant, exact_from, exact_ring, exact_scalar, num, total_add, total_div, total_mul, total_ring,
    total_scalar,
};
use crate::vector::V3;

verus! {

/// An affine transform: a 3×3 linear part and a translation row. Row vectors multiply it on
/// the left, so the translation is added after the linear part.
#[derive(Debug, Clone, Copy, PartialEq)]
pub struct Matrix3x4<T> {
    pub m11: T,
    pub m12: T,
    pub m13: T,
    pub m21: T,
    pub m22: T,
    pub m23: T,
    pub m31: T,
    pub m32: T,
    pub m33: T,
    pub tx: T,
    pub ty: T,
    pub tz: T,
}

/// The identity transform.
pub open spec fn affine_identity<T: From<i8>>() -> Matrix3x4<T> {
    Matrix3x4 {
        m11: num::<T>(1),
        m12: num::<T>(0),
        m13: num::<T>(0),
        m21: num::<T>(0),
        m22: num::<T>(1),
        m23: num::<T>(0),
        m31: num::<T>(0),
        m32: num::<T>(0),
        m33: num::<T>(1),
        tx: num::<T>(0),
        ty: num::<T>(0),
        tz: num::<T>(0),
    }
}

/// `a x + b y + c z`, grouped from the left.
pub open spec fn sum3<T: Add<Output = T> + Mul<Output = T>>(a: T, x: T, b: T, y: T, c: T, z: T) -> T {
    a.mul_spec(x).add_spec(b.mul_spec(y)).add_spec(c.mul_spec(z))
}

/// `a b - c d`.
pub open spec fn minor<T: Sub<Output = T> + Mul<Output = T>>(a: T, b: T, c: T, d: T) -> T {
    a.mul_spec(b).sub_spec(c.mul_spec(d))
}

/// The determinant of the linear part of `m`, expanded along the first row.
pub open spec fn determinant_of<T: Add<Output = T> + Sub<Output = T> + Mul<Output = T>>(
    m: Matrix3x4<T>,
) -> T {
    m.m11.mul_spec(minor(m.m22, m.m33, m.m23, m.m32)).add_spec(
        m.m12.mul_spec(minor(m.m23, m.m31, m.m21, m.m33)),
    ).add_spec(m.m13.mul_spec(minor(m.m21, m.m32, m.m22, m.m31)))
}

/// The local-to-parent transform of an object at `pos` whose orientation `r` takes inertial
/// vectors to the object frame: the transpose of `r`, then the move to `pos`.
pub open spec fn local_to_parent_of<T>(pos: V3<T>, r: RotationMatrix<T>) -> Matrix3x4<T> {
    Matrix3x4 {
        m11: r.m11,
        m12: r.m21,
        m13: r.m31,
        m21: r.m12,
        m22: r.m22,
        m23: r.m32,
        m31: r.m13,
        m32: r.m23,
        m33: r.m33,
        tx: pos.x,
        ty: pos.y,
        tz: pos.z,
    }
}

/// The parent-to-local transform of an object at `pos` with orientation `r`: the move back
/// from `pos`, then `r`.
pub open spec fn parent_to_local_of<T: Add<Output = T> + Mul<Output = T> + Neg<Output = T>>(
    pos: V3<T>,
    r: RotationMatrix<T>,
) -> Matrix3x4<T> {
    Matrix3x4 {
        m11: r.m11,
        m12: r.m12,
        m13: r.m13,
        m21: r.m21,
        m22: r.m22,
        m23: r.m23,
        m31: r.m31,
        m32: r.m32,
        m33: r.m33,
        tx: sum3(pos.x, r.m11, pos.y, r.m21, pos.z, r.m31).neg_spec(),
        ty: sum3(pos.x, r.m12, pos.y, r.m22, pos.z, r.m32).neg_spec(),
        tz: sum3(pos.x, r.m13, pos.y, r.m23, pos.z, r.m33).neg_spec(),
    }
}

/// The row vector `v` transformed by `m`: linear part, then translation.
pub open spec fn transform_of<T: Add<Output = T> + Mul<Output = T>>(
    v: V3<T>,
    m: Matrix3x4<T>,
) -> V3<T> {
    V3 {
        x: sum3(v.x, m.m11, v.y, m.m21, v.z, m.m31).add_spec(m.tx),
        y: sum3(v.x, m.m12, v.y, m.m22, v.z, m.m32).add_spec(m.ty),
        z: sum3(v.x, m.m13, v.y, m.m23, v.z, m.m33).add_spec(m.tz),
    }
}

/// The composition `a` then `b`, as the matrix product `a b`.
pub open spec fn compose<T: Add<Output = T> + Mul<Output = T>>(
    a: Matrix3x4<T>,
    b: Matrix3x4<T>,
) -> Matrix3x4<T> {
    Matrix3x4 {
        m11: sum3(a.m11, b.m11, a.m12, b.m21, a.m13, b.m31),
        m12: sum3(a.m11, b.m12, a.m12, b.m22, a.m13, b.m32),
        m13: sum3(a.m11, b.m13, a.m12, b.m23, a.m13, b.m33),
        m21: sum3(a.m21, b.m11, a.m22, b.m21, a.m23, b.m31),
        m22: sum3(a.m21, b.m12, a.m22, b.m22, a.m23, b.m32),
        m23: sum3(a.m21, b.m13, a.m22, b.m23, a.m23, b.m33),
        m31: sum3(a.m31, b.m11, a.m32, b.m21, a.m33, b.m31),
        m32: sum3(a.m31, b.m12, a.m32, b.m22, a.m33, b.m32),
        m33: sum3(a.m31, b.m13, a.m32, b.m23, a.m33, b.m33),
        tx: sum3(a.tx, b.m11, a.ty, b.m21, a.tz, b.m31).add_spec(b.tx),
        ty: sum3(a.tx, b.m12, a.ty, b.m22, a.tz, b.m32).add_spec(b.ty),
        tz: sum3(a.tx, b.m13, a.ty, b.m23, a.tz, b.m33).add_spec(b.tz),
    }
}

/// Rotation about a coordinate axis, from the sine `s` and cosine `c` of the angle.
pub open spec fn axis_rotation_of<T: Neg<Output = T> + From<i8>>(axis: Axis, s: T, c: T) -> Matrix3x4<T> {
    match axis {
        Axis::X => Matrix3x4 { m22: c, m23: s, m32: s.neg_spec(), m33: c, ..affine_identity::<T>() },
        Axis::Y => Matrix3x4 { m11: c, m13: s.neg_spec(), m31: s, m33: c, ..affine_identity::<T>() },
        Axis::Z => Matrix3x4 { m11: c, m12: s, m21: s.neg_spec(), m22: c, ..affine_identity::<T>() },
    }
}

/// Rotation about the unit vector `n`, from the sine `s` and cosine `c` of the angle.
pub open spec fn rotation_about_of<T: Add<Output = T> + Sub<Output = T> + Mul<Output = T> + From<i8>>(
    n: V3<T>,
    s: T,
    c: T,
) -> Matrix3x4<T> {
    let a = num::<T>(1).sub_spec(c);
    let ax = a.mul_spec(n.x);
    let ay = a.mul_spec(n.y);
    let az = a.mul_spec(n.z);
    Matrix3x4 {
        m11: ax.mul_spec(n.x).add_spec(c),
        m12: ax.mul_spec(n.y).add_spec(n.z.mul_spec(s)),
        m13: ax.mul_spec(n.z).sub_spec(n.y.mul_spec(s)),
        m21: ay.mul_spec(n.x).sub_spec(n.z.mul_spec(s)),
        m22: ay.mul_spec(n.y).add_spec(c),
        m23: ay.mul_spec(n.z).add_spec(n.x.mul_spec(s)),
        m31: az.mul_spec(n.x).add_spec(n.y.mul_spec(s)),
        m32: az.mul_spec(n.y).sub_spec(n.x.mul_spec(s)),
        m33: az.mul_spec(n.z).add_spec(c),
        ..affine_identity::<T>()
    }
}

/// Scale by `k` along the unit vector `n`.
pub open spec fn scale_along_of<T: Add<Output = T> + Sub<Output = T> + Mul<Output = T> + From<i8>>(
    n: V3<T>,
    k: T,
) -> Matrix3x4<T> {
    let a = k.sub_spec(num::<T>(1));
    let ax = a.mul_spec(n.x);
    let ay = a.mul_spec(n.y);
    let az = a.mul_spec(n.z);
    Matrix3x4 {
        m11: ax.mul_spec(n.x).add_spec(num::<T>(1)),
        m22: ay.mul_spec(n.y).add_spec(num::<T>(1)),
        m33: az.mul_spec(n.z).add_spec(num::<T>(1)),
        m12: ax.mul_spec(n.y),
        m21: ax.mul_spec(n.y),
        m13: ax.mul_spec(n.z),
        m31: ax.mul_spec(n.z),
        m23: ay.mul_spec(n.z),
        m32: ay.mul_spec(n.z),
        ..affine_identity::<T>()
    }
}

/// Shear: the coordinate `axis` adds `s` times itself to the first other coordinate and `t`
/// times itself to the second.
pub open spec fn shear_of<T: From<i8>>(axis: Axis, s: T, t: T) -> Matrix3x4<T> {
    match axis {
        Axis::X => Matrix3x4 { m12: s, m13: t, ..affine_identity::<T>() },
        Axis::Y => Matrix3x4 { m21: s, m23: t, ..affine_identity::<T>() },
        Axis::Z => Matrix3x4 { m31: s, m32: t, ..affine_identity::<T>() },
    }
}

/// Orthographic projection onto the plane through the origin normal to the unit vector `n`.
pub open spec fn projection_of<T: Sub<Output = T> + Mul<Output = T> + Neg<Output = T> + From<i8>>(
    n: V3<T>,
) -> Matrix3x4<T> {
    Matrix3x4 {
        m11: num::<T>(1).sub_spec(n.x.mul_spec(n.x)),
        m22: num::<T>(1).sub_spec(n.y.mul_spec(n.y)),
        m33: num::<T>(1).sub_spec(n.z.mul_spec(n.z)),
        m12: n.x.neg_spec().mul_spec(n.y),
        m21: n.x.neg_spec().mul_spec(n.y),
        m13: n.x.neg_spec().mul_spec(n.z),
        m31: n.x.neg_spec().mul_spec(n.z),
        m23: n.y.neg_spec().mul_spec(n.z),
        m32: n.y.neg_spec().mul_spec(n.z),
        ..affine_identity::<T>()
    }
}

/// Reflection across the plane where the coordinate `axis` equals `k`.
pub open spec fn axis_reflection_of<T: Mul<Output = T> + From<i8>>(axis: Axis, k: T) -> Matrix3x4<T> {
    let d = num::<T>(2).mul_spec(k);
    match axis {
        Axis::X => Matrix3x4 { m11: num::<T>(-1i8), tx: d, ..affine_identity::<T>() },
        Axis::Y => Matrix3x4 { m22: num::<T>(-1i8), ty: d, ..affine_identity::<T>() },
        Axis::Z => Matrix3x4 { m33: num::<T>(-1i8), tz: d, ..affine_identity::<T>() },
    }
}

/// Reflection across the plane through the origin normal to the unit vector `n`.
pub open spec fn reflection_of<T: Add<Output = T> + Mul<Output = T> + From<i8>>(
    n: V3<T>,
) -> Matrix3x4<T> {
    let ax = num::<T>(-2i8).mul_spec(n.x);
    let ay = num::<T>(-2i8).mul_spec(n.y);
    let az = num::<T>(-2i8).mul_spec(n.z);
    Matrix3x4 {
        m11: num::<T>(1).add_spec(ax.mul_spec(n.x)),
        m22: num::<T>(1).add_spec(ay.mul_spec(n.y)),
        m33: num::<T>(1).add_spec(az.mul_spec(n.z)),
        m12: ax.mul_spec(n.y),
        m21: ax.mul_spec(n.y),
        m13: ax.mul_spec(n.z),
        m31: ax.mul_spec(n.z),
        m23: ay.mul_spec(n.z),
        m32: ay.mul_spec(n.z),
        ..affine_identity::<T>()
    }
}

/// The scalar-matrix form of a quaternion's rotation, with the translation cleared.
pub open spec fn quaternion_transform_of<T: Sub<Output = T> + Add<Output = T> + Mul<Output = T> + From<i8>>(
    q: Quaternion<T>,
) -> Matrix3x4<T> {
    let ww = num::<T>(2).mul_spec(q.w);
    let xx = num::<T>(2).mul_spec(q.x);
    let yy = num::<T>(2).mul_spec(q.y);
    let zz = num::<T>(2).mul_spec(q.z);
    Matrix3x4 {
        m11: num::<T>(1).sub_spec(yy.mul_spec(q.y)).sub_spec(zz.mul_spec(q.z)),
        m12: xx.mul_spec(q.y).add_spec(ww.mul_spec(q.z)),
        m13: xx.mul_spec(q.z).sub_spec(ww.mul_spec(q.y)),
        m21: xx.mul_spec(q.y).sub_spec(ww.mul_spec(q.z)),
        m22: num::<T>(1).sub_spec(xx.mul_spec(q.x)).sub_spec(zz.mul_spec(q.z)),
        m23: yy.mul_spec(q.z).add_spec(ww.mul_spec(q.x)),
        m31: xx.mul_spec(q.z).add_spec(ww.mul_spec(q.y)),
        m32: yy.mul_spec(q.z).sub_spec(ww.mul_spec(q.x)),
        m33: num::<T>(1).sub_spec(xx.mul_spec(q.x)).sub_spec(yy.mul_spec(q.y)),
        ..affine_identity::<T>()
    }
}

/// The inverse of `m`: the adjugate of its linear part scaled by the reciprocal of the
/// determinant, and the translation taken back through it and negated.
pub open spec fn inverse_of<T: Add<Output = T> + Sub<Output = T> + Mul<Output = T> + Neg<Output = T> + Div<Output = T> + From<i8>>(
    m: Matrix3x4<T>,
) -> Matrix3x4<T> {
    let k = num::<T>(1).div_spec(determinant_of(m));
    let r11 = minor(m.m22, m.m33, m.m23, m.m32).mul_spec(k);
    let r12 = minor(m.m13, m.m32, m.m12, m.m33).mul_spec(k);
    let r13 = minor(m.m12, m.m23, m.m13, m.m22).mul_spec(k);
    let r21 = minor(m.m23, m.m31, m.m21, m.m33).mul_spec(k);
    let r22 = minor(m.m11, m.m33, m.m13, m.m31).mul_spec(k);
    let r23 = minor(m.m13, m.m21, m.m11, m.m23).mul_spec(k);
    let r31 = minor(m.m21, m.m32, m.m22, m.m31).mul_spec(k);
    let r32 = minor(m.m12, m.m31, m.m11, m.m32).mul_spec(k);
    let r33 = minor(m.m11, m.m22, m.m12, m.m21).mul_spec(k);
    Matrix3x4 {
        m11: r11,
        m12: r12,
        m13: r13,
        m21: r21,
        m22: r22,
        m23: r23,
        m31: r31,
        m32: r32,
        m33: r33,
        tx: sum3(m.tx, r11, m.ty, r21, m.tz, r31).neg_spec(),
        ty: sum3(m.tx, r12, m.ty, r22, m.tz, r32).neg_spec(),
        tz: sum3(m.tx, r13, m.ty, r23, m.tz, r33).neg_spec(),
    }
}

impl<T: Copy + From<i8>> Matrix3x4<T> {
    /// The identity transform.
    pub fn identity() -> (r: Self)
        ensures
            exact_from::<T>() ==> r == affine_identity::<T>(),
    {
        let one: T = constant(1);
        let zero: T = constant(0);
        Matrix3x4 {
            m11: one,
            m12: zero,
            m13: zero,
            m21: zero,
            m22: one,
            m23: zero,
            m31: zero,
            m32: zero,
            m33: one,
            tx: zero,
            ty: zero,
            tz: zero,
        }
    }

    /// Clears the translation, keeping the linear part.
    pub fn zero_translation(&mut self)
        ensures
            exact_from::<T>() ==> *final(self) == (Matrix3x4 {
                tx: num::<T>(0),
                ty: num::<T>(0),
                tz: num::<T>(0),
                ..*old(self)
            }),
    {
        let zero: T = constant(0);
        self.tx = zero;
        self.ty = zero;
        self.tz = zero;
    }

    /// Sets the translation to `d`, keeping the linear part.
    pub fn translate(&mut self, d: V3<T>)
        ensures
            *final(self) == (Matrix3x4 { tx: d.x, ty: d.y, tz: d.z, ..*old(self) }),
    {
        self.tx = d.x;
        self.ty = d.y;
        self.tz = d.z;
    }

    /// The pure translation by `d`.
    pub fn from_translation(d: V3<T>) -> (r: Self)
        ensures
            exact_from::<T>() ==> r == (Matrix3x4 { tx: d.x, ty: d.y, tz: d.z, ..affine_identity::<T>() }),
    {
        let mut r = Self::identity();
        r.translate(d);
        r
    }

    /// The local-to-parent transform of an object at `pos` with orientation `orient`.
    pub fn from_local_to_parent_matrix(pos: V3<T>, orient: RotationMatrix<T>) -> (r: Self)
        ensures
            r == local_to_parent_of(pos, orient),
    {
        Matrix3x4 {
            m11: orient.m11,
            m12: orient.m21,
            m13: orient.m31,
            m21: orient.m12,
            m22: orient.m22,
            m23: orient.m32,
            m31: orient.m13,
            m32: orient.m23,
            m33: orient.m33,
            tx: pos.x,
            ty: pos.y,
            tz: pos.z,
        }
    }

    /// The translation of the transform.
    pub fn get_translation(&self) -> (r: V3<T>)
        ensures
            r == (V3 { x: self.tx, y: self.ty, z: self.tz }),
    {
        V3 { x: self.tx, y: self.ty, z: self.tz }
    }

    /// The position of the object of a local-to-parent transform: its translation.
    pub fn get_position_from_local_to_parent_matrix(&self) -> (r: V3<T>)
        ensures
            r == (V3 { x: self.tx, y: self.ty, z: self.tz }),
    {
        self.get_translation()
    }
}

impl<T: Copy + Add<Output = T> + Sub<Output = T> + Mul<Output = T> + Neg<Output = T> + From<i8>> Matrix3x4<T> {
    /// Rotation about a coordinate axis, from the sine `s` and cosine `c` of the angle.
    pub fn from_rotate(axis: Axis, s: T, c: T) -> (r: Self)
        requires
            total_scalar::<T>(),
        ensures
            exact_scalar::<T>() ==> r == axis_rotation_of(axis, s, c),
    {
        let mut r = Self::identity();
        match axis {
            Axis::X => {
                r.m22 = c;
                r.m23 = s;
                r.m32 = s.neg();
                r.m33 = c;
            },
            Axis::Y => {
                r.m11 = c;
                r.m13 = s.neg();
                r.m31 = s;
                r.m33 = c;
            },
            Axis::Z => {
                r.m11 = c;
                r.m12 = s;
                r.m21 = s.neg();
                r.m22 = c;
            },
        }
        r
    }

    /// Rotation about the unit vector `n`, from the sine `s` and cosine `c` of the angle.
    pub fn from_rotate_by(n: V3<T>, s: T, c: T) -> (r: Self)
        requires
            total_scalar::<T>(),
        ensures
            exact_scalar::<T>() ==> r == rotation_about_of(n, s, c),
    {
        let one: T = constant(1);
        let a = one - c;
        let ax = a * n.x;
        let ay = a * n.y;
        let az = a * n.z;
        let mut r = Self::identity();
        r.m11 = ax * n.x + c;
        r.m12 = ax * n.y + n.z * s;
        r.m13 = ax * n.z - n.y * s;
        r.m21 = ay * n.x - n.z * s;
        r.m22 = ay * n.y + c;
        r.m23 = ay * n.z + n.x * s;
        r.m31 = az * n.x + n.y * s;
        r.m32 = az * n.y - n.x * s;
        r.m33 = az * n.z + c;
        r
    }

    /// The rotation of the quaternion `q`, with no translation.
    pub fn from_quaternion(q: Quaternion<T>) -> (r: Self)
        requires
            total_scalar::<T>(),
        ensures
            exact_scalar::<T>() ==> r == quaternion_transform_of(q),
    {
        let one: T = constant(1);
        let two: T = constant(2);
        let ww = two * q.w;
        let xx = two * q.x;
        let yy = two * q.y;
        let zz = two * q.z;
        let mut r = Self::identity();
        r.m11 = one - yy * q.y - zz * q.z;
        r.m12 = xx * q.y + ww * q.z;
        r.m13 = xx * q.z - ww * q.y;
        r.m21 = xx * q.y - ww * q.z;
        r.m22 = one - xx * q.x - zz * q.z;
        r.m23 = yy * q.z + ww * q.x;
        r.m31 = xx * q.z + ww * q.y;
        r.m32 = yy * q.z - ww * q.x;
        r.m33 = one - xx * q.x - yy * q.y;
        r
    }

    /// Scale by `s.x`, `s.y` and `s.z` along the coordinate axes.
    pub fn from_scale(s: V3<T>) -> (r: Self)
        ensures
            exact_from::<T>() ==> r == (Matrix3x4 { m11: s.x, m22: s.y, m33: s.z, ..affine_identity::<T>() }),
    {
        let mut r = Self::identity();
        r.m11 = s.x;
        r.m22 = s.y;
        r.m33 = s.z;
        r
    }

    /// Scale by `k` along the unit vector `n`.
    pub fn from_scale_along_axis(n: V3<T>, k: T) -> (r: Self)
        requires
            total_scalar::<T>(),
        ensures
            exact_scalar::<T>() ==> r == scale_along_of(n, k),
    {
        let one: T = constant(1);
        let a = k - one;
        let ax = a * n.x;
        let ay = a * n.y;
        let az = a * n.z;
        let mut r = Self::identity();
        r.m11 = ax * n.x + one;
        r.m22 = ay * n.y + one;
        r.m33 = az * n.z + one;
        r.m12 = ax * n.y;
        r.m21 = ax * n.y;
        r.m13 = ax * n.z;
        r.m31 = ax * n.z;
        r.m23 = ay * n.z;
        r.m32 = ay * n.z;
        r
    }

    /// Shear along the other two coordinates by `s` and `t` times the coordinate `axis`.
    pub fn from_shear(axis: Axis, s: T, t: T) -> (r: Self)
        ensures
            exact_from::<T>() ==> r == shear_of(axis, s, t),
    {
        let mut r = Self::identity();
        match axis {
            Axis::X => {
                r.m12 = s;
                r.m13 = t;
            },
            Axis::Y => {
                r.m21 = s;
                r.m23 = t;
            },
            Axis::Z => {
                r.m31 = s;
                r.m32 = t;
            },
        }
        r
    }

    /// Projection onto the plane through the origin normal to the unit vector `n`.
    pub fn from_project(n: V3<T>) -> (r: Self)
        requires
            total_scalar::<T>(),
        ensures
            exact_scalar::<T>() ==> r == projection_of(n),
    {
        let one: T = constant(1);
        let mut r = Self::identity();
        r.m11 = one - n.x * n.x;
        r.m22 = one - n.y * n.y;
        r.m33 = one - n.z * n.z;
        r.m12 = n.x.neg() * n.y;
        r.m21 = n.x.neg() * n.y;
        r.m13 = n.x.neg() * n.z;
        r.m31 = n.x.neg() * n.z;
        r.m23 = n.y.neg() * n.z;
        r.m32 = n.y.neg() * n.z;
        r
    }

    /// Reflection across the plane where the coordinate `axis` equals `k`.
    pub fn from_reflect(axis: Axis, k: T) -> (r: Self)
        requires
            total_scalar::<T>(),
        ensures
            exact_scalar::<T>() ==> r == axis_reflection_of(axis, k),
    {
        let two: T = constant(2);
        let minus_one: T = constant(-1);
        let d = two * k;
        let mut r = Self::identity();
        match axis {
            Axis::X => {
                r.m11 = minus_one;
                r.tx = d;
            },
            Axis::Y => {
                r.m22 = minus_one;
                r.ty = d;
            },
            Axis::Z => {
                r.m33 = minus_one;
                r.tz = d;
            },
        }
        r
    }

    /// Reflection across the plane through the origin normal to the unit vector `n`.
    pub fn from_reflect_by(n: V3<T>) -> (r: Self)
        requires
            total_scalar::<T>(),
        ensures
            exact_scalar::<T>() ==> r == reflection_of(n),
    {
        let one: T = constant(1);
        let minus_two: T = constant(-2);
        let ax = minus_two * n.x;
        let ay = minus_two * n.y;
        let az = minus_two * n.z;
        let mut r = Self::identity();
        r.m11 = one + ax * n.x;
        r.m22 = one + ay * n.y;
        r.m33 = one + az * n.z;
        r.m12 = ax * n.y;
        r.m21 = ax * n.y;
        r.m13 = ax * n.z;
        r.m31 = ax * n.z;
        r.m23 = ay * n.z;
        r.m32 = ay * n.z;
        r
    }

    /// The local-to-parent transform of an object at `pos` with Euler angles `orient`, where
    /// `sin_cos` gives the sine and cosine of an angle.
    pub fn from_local_to_parent_euler<F: Fn(T) -> (T, T)>(pos: V3<T>, orient: EulerAngles<T>, sin_cos: F) -> (r: Self)
        requires
            total_scalar::<T>(),
            forall|a: T| #[trigger] sin_cos.requires((a,)),
        ensures
            exact_scalar::<T>() ==> exists|h: (T, T), p: (T, T), b: (T, T)|
                {
                    &&& #[trigger] sin_cos.ensures((orient.heading,), h)
                    &&& #[trigger] sin_cos.ensures((orient.pitch,), p)
                    &&& #[trigger] sin_cos.ensures((orient.bank,), b)
                    &&& r == local_to_parent_of(pos, euler_matrix(h.0, h.1, p.0, p.1, b.0, b.1))
                },
    {
        Self::from_local_to_parent_matrix(pos, RotationMatrix::from_orientation(orient, sin_cos))
    }

    /// The parent-to-local transform of an object at `pos` with Euler angles `orient`, where
    /// `sin_cos` gives the sine and cosine of an angle.
    pub fn from_parent_to_local_euler<F: Fn(T) -> (T, T)>(pos: V3<T>, orient: EulerAngles<T>, sin_cos: F) -> (r: Self)
        requires
            total_scalar::<T>(),
            forall|a: T| #[trigger] sin_cos.requires((a,)),
        ensures
            exact_scalar::<T>() ==> exists|h: (T, T), p: (T, T), b: (T, T)|
                {
                    &&& #[trigger] sin_cos.ensures((orient.heading,), h)
                    &&& #[trigger] sin_cos.ensures((orient.pitch,), p)
                    &&& #[trigger] sin_cos.ensures((orient.bank,), b)
                    &&& r == parent_to_local_of(pos, euler_matrix(h.0, h.1, p.0, p.1, b.0, b.1))
                },
    {
        Self::from_parent_to_local_matrix(pos, RotationMatrix::from_orientation(orient, sin_cos))
    }

    /// The parent-to-local transform of an object at `pos` with orientation `orient`.
    pub fn from_parent_to_local_matrix(pos: V3<T>, orient: RotationMatrix<T>) -> (r: Self)
        requires
            total_scalar::<T>(),
        ensures
            exact_scalar::<T>() ==> r == parent_to_local_of(pos, orient),
    {
        Matrix3x4 {
            m11: orient.m11,
            m12: orient.m12,
            m13: orient.m13,
            m21: orient.m21,
            m22: orient.m22,
            m23: orient.m23,
            m31: orient.m31,
            m32: orient.m32,
            m33: orient.m33,
            tx: (pos.x * orient.m11 + pos.y * orient.m21 + pos.z * orient.m31).neg(),
            ty: (pos.x * orient.m12 + pos.y * orient.m22 + pos.z * orient.m32).neg(),
            tz: (pos.x * orient.m13 + pos.y * orient.m23 + pos.z * orient.m33).neg(),
        }
    }

    /// The position of the object of a parent-to-local transform: its translation taken back
    /// through the transposed linear part, and negated.
    pub fn get_position_from_parent_to_local_matrix(&self) -> (r: V3<T>)
        requires
            total_scalar::<T>(),
        ensures
            exact_scalar::<T>() ==> r == (V3 {
                x: sum3(self.tx, self.m11, self.ty, self.m12, self.tz, self.m13).neg_spec(),
                y: sum3(self.tx, self.m21, self.ty, self.m22, self.tz, self.m23).neg_spec(),
                z: sum3(self.tx, self.m31, self.ty, self.m32, self.tz, self.m33).neg_spec(),
            }),
    {
        V3 {
            x: (self.tx * self.m11 + self.ty * self.m12 + self.tz * self.m13).neg(),
            y: (self.tx * self.m21 + self.ty * self.m22 + self.tz * self.m23).neg(),
            z: (self.tx * self.m31 + self.ty * self.m32 + self.tz * self.m33).neg(),
        }
    }

    /// The determinant of the linear part.
    pub fn determinant(&self) -> (r: T)
        requires
            total_ring::<T>(),
        ensures
            exact_ring::<T>() ==> r == determinant_of(*self),
    {
        self.m11 * (self.m22 * self.m33 - self.m23 * self.m32) + self.m12 * (self.m23 * self.m31
            - self.m21 * self.m33) + self.m13 * (self.m21 * self.m32 - self.m22 * self.m31)
    }
}

impl<T: Copy + Add<Output = T> + Sub<Output = T> + Mul<Output = T> + Neg<Output = T> + Div<Output = T> + From<i8>> Matrix3x4<T> {
    /// The inverse transform. A singular linear part (zero determinant) leaves the scalar's
    /// own division by zero to decide the entries.
    pub fn inverse(&self) -> (r: Self)
        requires
            total_scalar::<T>(),
            total_div::<T>(),
        ensures
            exact_scalar::<T>() && T::obeys_div_spec() ==> r == inverse_of(*self),
    {
        let one: T = constant(1);
        let k = one / self.determinant();
        let r11 = (self.m22 * self.m33 - self.m23 * self.m32) * k;
        let r12 = (self.m13 * self.m32 - self.m12 * self.m33) * k;
        let r13 = (self.m12 * self.m23 - self.m13 * self.m22) * k;
        let r21 = (self.m23 * self.m31 - self.m21 * self.m33) * k;
        let r22 = (self.m11 * self.m33 - self.m13 * self.m31) * k;
        let r23 = (self.m13 * self.m21 - self.m11 * self.m23) * k;
        let r31 = (self.m21 * self.m32 - self.m22 * self.m31) * k;
        let r32 = (self.m12 * self.m31 - self.m11 * self.m32) * k;
        let r33 = (self.m11 * self.m22 - self.m12 * self.m21) * k;
        Matrix3x4 {
            m11: r11,
            m12: r12,
            m13: r13,
            m21: r21,
            m22: r22,
            m23: r23,
            m31: r31,
            m32: r32,
            m33: r33,
            tx: (self.tx * r11 + self.ty * r21 + self.tz * r31).neg(),
            ty: (self.tx * r12 + self.ty * r22 + self.tz * r32).neg(),
            tz: (self.tx * r13 + self.ty * r23 + self.tz * r33).neg(),
        }
    }
}

impl<T: Copy + Add<Output = T> + Mul<Output = T>> vstd::std_specs::ops::MulSpecImpl<Matrix3x4<T>> for V3<T> {
    open spec fn obeys_mul_spec() -> bool {
        T::obeys_add_spec() && T::obeys_mul_spec()
    }

    open spec fn mul_req(self, m: Matrix3x4<T>) -> bool {
        total_add::<T>() && total_mul::<T>()
    }

    open spec fn mul_spec(self, m: Matrix3x4<T>) -> V3<T> {
        transform_of(self, m)
    }
}

impl<T: Copy + Add<Output = T> + Mul<Output = T>> Mul<Matrix3x4<T>> for V3<T> {
    type Output = V3<T>;

    /// The row vector `self` transformed by `m`.
    fn mul(self, m: Matrix3x4<T>) -> (r: V3<T>) {
        V3 {
            x: self.x * m.m11 + self.y * m.m21 + self.z * m.m31 + m.tx,
            y: self.x * m.m12 + self.y * m.m22 + self.z * m.m32 + m.ty,
            z: self.x * m.m13 + self.y * m.m23 + self.z * m.m33 + m.tz,
        }
    }
}

impl<T: Copy + Add<Output = T> + Mul<Output = T>> vstd::std_specs::ops::MulSpecImpl for Matrix3x4<T> {
    open spec fn obeys_mul_spec() -> bool {
        T::obeys_add_spec() && T::obeys_mul_spec()
    }

    open spec fn mul_req(self, rhs: Matrix3x4<T>) -> bool {
        total_add::<T>() && total_mul::<T>()
    }

    open spec fn mul_spec(self, rhs: Matrix3x4<T>) -> Matrix3x4<T> {
        compose(self, rhs)
    }
}

impl<T: Copy + Add<Output = T> + Mul<Output = T>> Mul for Matrix3x4<T> {
    type Output = Matrix3x4<T>;

    /// The transform that applies `self`, then `rhs`.
    fn mul(self, rhs: Self) -> (r: Self) {
        Matrix3x4 {
            m11: self.m11 * rhs.m11 + self.m12 * rhs.m21 + self.m13 * rhs.m31,
            m12: self.m11 * rhs.m12 + self.m12 * rhs.m22 + self.m13 * rhs.m32,
            m13: self.m11 * rhs.m13 + self.m12 * rhs.m23 + self.m13 * rhs.m33,
            m21: self.m21 * rhs.m11 + self.m22 * rhs.m21 + self.m23 * rhs.m31,
            m22: self.m21 * rhs.m12 + self.m22 * rhs.m22 + self.m23 * rhs.m32,
            m23: self.m21 * rhs.m13 + self.m22 * rhs.m23 + self.m23 * rhs.m33,
            m31: self.m31 * rhs.m11 + self.m32 * rhs.m21 + self.m33 * rhs.m31,
            m32: self.m31 * rhs.m12 + self.m32 * rhs.m22 + self.m33 * rhs.m32,
            m33: self.m31 * rhs.m13 + self.m32 * rhs.m23 + self.m33 * rhs.m33,
            tx: self.tx * rhs.m11 + self.ty * rhs.m21 + self.tz * rhs.m31 + rhs.tx,
            ty: self.tx * rhs.m12 + self.ty * rhs.m22 + self.tz * rhs.m32 + rhs.ty,
            tz: self.tx * rhs.m13 + self.ty * rhs.m23 + self.tz * rhs.m33 + rhs.tz,
        }
    }
}

impl<T: Copy + Add<Output = T> + Mul<Output = T>> MulAssign for Matrix3x4<T> {
    fn mul_assign(&mut self, rhs: Self)
        requires
            total_add::<T>(),
            total_mul::<T>(),
        ensures
            T::obeys_add_spec() && T::obeys_mul_spec() ==> *final(self) == compose(*old(self), rhs),
    {
        *self = *self * rhs;
    }
}

} // verus!
