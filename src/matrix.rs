use vstd::prelude::*;
use std::ops::{Add, Mul, Neg, Sub};
use vstd::std_specs::ops::{AddSpec, MulSpec, NegSpec, SubSpec};
use crate::euler::EulerAngles;
use crate::quaternion::{mul3, negation_of, Quaternion};
use crate::scalar::{constant, exact_from, exact_ring, neg_mul_neg, num, total_neg, total_ring};
use crate::vector::V3;

verus! {

/// A coordinate axis.
#[derive(Debug, Clone, Copy, PartialEq, Eq, Structural)]
pub enum Axis {
    X,
    Y,
    Z,
}

/// A pure rotation as a 3×3 matrix. Row vectors multiply it on the left to go from the
/// inertial frame to the object frame.
#[derive(Debug, Clone, Copy, PartialEq)]
pub struct RotationMatrix<T> {
    pub m11: T,
    pub m12: T,
    pub m13: T,
    pub m21: T,
    pub m22: T,
    pub m23: T,
    pub m31: T,
    pub m32: T,
    pub m33: T,
}

/// `1 - 2 (a a + b b)`: a diagonal entry of the matrix of a quaternion.
pub open spec fn diag_term<T: Add<Output = T> + Sub<Output = T> + Mul<Output = T> + From<i8>>(
    a: T,
    b: T,
) -> T {
    num::<T>(1).sub_spec(num::<T>(2).mul_spec(a.mul_spec(a).add_spec(b.mul_spec(b))))
}

/// `2 (a b + c d)`.
pub open spec fn plus_term<T: Add<Output = T> + Mul<Output = T> + From<i8>>(
    a: T,
    b: T,
    c: T,
    d: T,
) -> T {
    num::<T>(2).mul_spec(a.mul_spec(b).add_spec(c.mul_spec(d)))
}

/// `2 (a b - c d)`.
pub open spec fn minus_term<T: Sub<Output = T> + Mul<Output = T> + From<i8>>(
    a: T,
    b: T,
    c: T,
    d: T,
) -> T {
    num::<T>(2).mul_spec(a.mul_spec(b).sub_spec(c.mul_spec(d)))
}

/// The inertial-to-object matrix of the unit quaternion `q`.
pub open spec fn inertial_to_obj_matrix<T: Add<Output = T> + Sub<Output = T> + Mul<Output = T> + From<i8>>(
    q: Quaternion<T>,
) -> RotationMatrix<T> {
    RotationMatrix {
        m11: diag_term(q.y, q.z),
        m12: plus_term(q.x, q.y, q.w, q.z),
        m13: minus_term(q.x, q.z, q.w, q.y),
        m21: minus_term(q.x, q.y, q.w, q.z),
        m22: diag_term(q.x, q.z),
        m23: plus_term(q.y, q.z, q.w, q.x),
        m31: plus_term(q.x, q.z, q.w, q.y),
        m32: minus_term(q.y, q.z, q.w, q.x),
        m33: diag_term(q.x, q.y),
    }
}

/// The object-to-inertial matrix of the unit quaternion `q`: the transpose of
/// `inertial_to_obj_matrix(q)`.
pub open spec fn obj_to_inertial_matrix<T: Add<Output = T> + Sub<Output = T> + Mul<Output = T> + From<i8>>(
    q: Quaternion<T>,
) -> RotationMatrix<T> {
    RotationMatrix {
        m11: diag_term(q.y, q.z),
        m12: minus_term(q.x, q.y, q.w, q.z),
        m13: plus_term(q.x, q.z, q.w, q.y),
        m21: plus_term(q.x, q.y, q.w, q.z),
        m22: diag_term(q.x, q.z),
        m23: minus_term(q.y, q.z, q.w, q.x),
        m31: minus_term(q.x, q.z, q.w, q.y),
        m32: plus_term(q.y, q.z, q.w, q.x),
        m33: diag_term(q.x, q.y),
    }
}

/// The matrix of Euler angles, from the sine and cosine of the heading (`sh`, `ch`), the
/// pitch (`sp`, `cp`) and the bank (`sb`, `cb`).
pub open spec fn euler_matrix<T: Add<Output = T> + Mul<Output = T> + Neg<Output = T>>(
    sh: T,
    ch: T,
    sp: T,
    cp: T,
    sb: T,
    cb: T,
) -> RotationMatrix<T> {
    RotationMatrix {
        m11: ch.mul_spec(cb).add_spec(mul3(sh, sp, sb)),
        m12: ch.neg_spec().mul_spec(sb).add_spec(mul3(sh, sp, cb)),
        m13: sh.mul_spec(cp),
        m21: sb.mul_spec(cp),
        m22: cb.mul_spec(cp),
        m23: sp.neg_spec(),
        m31: sh.neg_spec().mul_spec(cb).add_spec(mul3(ch, sp, sb)),
        m32: sb.mul_spec(sh).add_spec(mul3(ch, sp, cb)),
        m33: ch.mul_spec(cp),
    }
}

/// The row vector `v` times `m`: a vector of the inertial frame seen from the object frame.
pub open spec fn row_times<T: Add<Output = T> + Mul<Output = T>>(
    m: RotationMatrix<T>,
    v: V3<T>,
) -> V3<T> {
    V3 {
        x: m.m11.mul_spec(v.x).add_spec(m.m21.mul_spec(v.y)).add_spec(m.m31.mul_spec(v.z)),
        y: m.m12.mul_spec(v.x).add_spec(m.m22.mul_spec(v.y)).add_spec(m.m32.mul_spec(v.z)),
        z: m.m13.mul_spec(v.x).add_spec(m.m23.mul_spec(v.y)).add_spec(m.m33.mul_spec(v.z)),
    }
}

/// `m` times the column vector `v`: a vector of the object frame seen from the inertial frame.
pub open spec fn times_column<T: Add<Output = T> + Mul<Output = T>>(
    m: RotationMatrix<T>,
    v: V3<T>,
) -> V3<T> {
    V3 {
        x: m.m11.mul_spec(v.x).add_spec(m.m12.mul_spec(v.y)).add_spec(m.m13.mul_spec(v.z)),
        y: m.m21.mul_spec(v.x).add_spec(m.m22.mul_spec(v.y)).add_spec(m.m23.mul_spec(v.z)),
        z: m.m31.mul_spec(v.x).add_spec(m.m32.mul_spec(v.y)).add_spec(m.m33.mul_spec(v.z)),
    }
}

impl<T: Copy + From<i8>> RotationMatrix<T> {
    /// The identity matrix.
    pub fn identity() -> (r: Self)
        ensures
            exact_from::<T>() ==> r == (RotationMatrix {
                m11: num::<T>(1),
                m12: num::<T>(0),
                m13: num::<T>(0),
                m21: num::<T>(0),
                m22: num::<T>(1),
                m23: num::<T>(0),
                m31: num::<T>(0),
                m32: num::<T>(0),
                m33: num::<T>(1),
            }),
    {
        let one: T = constant(1);
        let zero: T = constant(0);
        RotationMatrix {
            m11: one,
            m12: zero,
            m13: zero,
            m21: zero,
            m22: one,
            m23: zero,
            m31: zero,
            m32: zero,
            m33: one,
        }
    }
}

impl<T: Copy + Add<Output = T> + Sub<Output = T> + Mul<Output = T> + From<i8>> RotationMatrix<T> {
    /// The matrix that takes inertial-frame vectors to the object frame, for the rotation `q`.
    pub fn from_inertial_to_obj_quaternion(q: Quaternion<T>) -> (r: Self)
        requires
            total_ring::<T>(),
        ensures
            exact_ring::<T>() && exact_from::<T>() ==> r == inertial_to_obj_matrix(q),
    {
        let one: T = constant(1);
        let two: T = constant(2);
        RotationMatrix {
            m11: one - two * (q.y * q.y + q.z * q.z),
            m12: two * (q.x * q.y + q.w * q.z),
            m13: two * (q.x * q.z - q.w * q.y),
            m21: two * (q.x * q.y - q.w * q.z),
            m22: one - two * (q.x * q.x + q.z * q.z),
            m23: two * (q.y * q.z + q.w * q.x),
            m31: two * (q.x * q.z + q.w * q.y),
            m32: two * (q.y * q.z - q.w * q.x),
            m33: one - two * (q.x * q.x + q.y * q.y),
        }
    }

    /// The matrix that takes object-frame vectors to the inertial frame, for the rotation `q`.
    pub fn from_obj_to_inertial_quaternion(q: Quaternion<T>) -> (r: Self)
        requires
            total_ring::<T>(),
        ensures
            exact_ring::<T>() && exact_from::<T>() ==> r == obj_to_inertial_matrix(q),
    {
        let one: T = constant(1);
        let two: T = constant(2);
        RotationMatrix {
            m11: one - two * (q.y * q.y + q.z * q.z),
            m12: two * (q.x * q.y - q.w * q.z),
            m13: two * (q.x * q.z + q.w * q.y),
            m21: two * (q.x * q.y + q.w * q.z),
            m22: one - two * (q.x * q.x + q.z * q.z),
            m23: two * (q.y * q.z - q.w * q.x),
            m31: two * (q.x * q.z - q.w * q.y),
            m32: two * (q.y * q.z + q.w * q.x),
            m33: one - two * (q.x * q.x + q.y * q.y),
        }
    }
}

impl<T: Copy + Add<Output = T> + Sub<Output = T> + Mul<Output = T> + Neg<Output = T>> RotationMatrix<T> {
    /// The matrix of the Euler angles `e`, where `sin_cos` gives the sine and cosine of an
    /// angle.
    pub fn from_orientation<F: Fn(T) -> (T, T)>(e: EulerAngles<T>, sin_cos: F) -> (r: Self)
        requires
            total_ring::<T>(),
            total_neg::<T>(),
            forall|a: T| #[trigger] sin_cos.requires((a,)),
        ensures
            exact_ring::<T>() && T::obeys_neg_spec() ==> exists|h: (T, T), p: (T, T), b: (T, T)|
                {
                    &&& #[trigger] sin_cos.ensures((e.heading,), h)
                    &&& #[trigger] sin_cos.ensures((e.pitch,), p)
                    &&& #[trigger] sin_cos.ensures((e.bank,), b)
                    &&& r == euler_matrix(h.0, h.1, p.0, p.1, b.0, b.1)
                },
    {
        let h = sin_cos(e.heading);
        let p = sin_cos(e.pitch);
        let b = sin_cos(e.bank);
        let r = Self::from_orientation_sin_cos(h.0, h.1, p.0, p.1, b.0, b.1);
        proof {
            if exact_ring::<T>() && T::obeys_neg_spec() {
                assert(sin_cos.ensures((e.heading,), h));
                assert(sin_cos.ensures((e.pitch,), p));
                assert(sin_cos.ensures((e.bank,), b));
            }
        }
        r
    }
    /// The matrix of Euler angles, from the sine and cosine of the heading (`sh`, `ch`), the
    /// pitch (`sp`, `cp`) and the bank (`sb`, `cb`).
    pub fn from_orientation_sin_cos(sh: T, ch: T, sp: T, cp: T, sb: T, cb: T) -> (r: Self)
        requires
            total_ring::<T>(),
            total_neg::<T>(),
        ensures
            exact_ring::<T>() && T::obeys_neg_spec() ==> r == euler_matrix(sh, ch, sp, cp, sb, cb),
    {
        RotationMatrix {
            m11: ch * cb + sh * sp * sb,
            m12: ch.neg() * sb + sh * sp * cb,
            m13: sh * cp,
            m21: sb * cp,
            m22: cb * cp,
            m23: sp.neg(),
            m31: sh.neg() * cb + ch * sp * sb,
            m32: sb * sh + ch * sp * cb,
            m33: ch * cp,
        }
    }
}

impl<T: Copy + Add<Output = T> + Sub<Output = T> + Mul<Output = T>> RotationMatrix<T> {
    /// Takes a vector of the inertial frame to the object frame.
    pub fn inertial_to_obj(&self, v: V3<T>) -> (r: V3<T>)
        requires
            total_ring::<T>(),
        ensures
            exact_ring::<T>() ==> r == row_times(*self, v),
    {
        V3 {
            x: self.m11 * v.x + self.m21 * v.y + self.m31 * v.z,
            y: self.m12 * v.x + self.m22 * v.y + self.m32 * v.z,
            z: self.m13 * v.x + self.m23 * v.y + self.m33 * v.z,
        }
    }

    /// Takes a vector of the object frame to the inertial frame: the transposed map of
    /// `inertial_to_obj`.
    pub fn obj_to_inertial(&self, v: V3<T>) -> (r: V3<T>)
        requires
            total_ring::<T>(),
        ensures
            exact_ring::<T>() ==> r == times_column(*self, v),
    {
        V3 {
            x: self.m11 * v.x + self.m12 * v.y + self.m13 * v.z,
            y: self.m21 * v.x + self.m22 * v.y + self.m23 * v.z,
            z: self.m31 * v.x + self.m32 * v.y + self.m33 * v.z,
        }
    }
}

/// Double cover: a quaternion and its negation give the same rotation matrix, in both
/// directions, for any scalar on which negating both factors leaves a product unchanged.
pub proof fn lemma_negation_same_matrix<T: Add<Output = T> + Sub<Output = T> + Mul<Output = T> + Neg<Output = T> + From<i8>>(
    q: Quaternion<T>,
)
    requires
        neg_mul_neg::<T>(),
    ensures
        inertial_to_obj_matrix(negation_of(q)) == inertial_to_obj_matrix(q),
        obj_to_inertial_matrix(negation_of(q)) == obj_to_inertial_matrix(q),
{
    let n = negation_of(q);
    assert(n.w.mul_spec(n.x) == q.w.mul_spec(q.x));
    assert(n.w.mul_spec(n.y) == q.w.mul_spec(q.y));
    assert(n.w.mul_spec(n.z) == q.w.mul_spec(q.z));
    assert(n.x.mul_spec(n.x) == q.x.mul_spec(q.x));
    assert(n.x.mul_spec(n.y) == q.x.mul_spec(q.y));
    assert(n.x.mul_spec(n.z) == q.x.mul_spec(q.z));
    assert(n.y.mul_spec(n.y) == q.y.mul_spec(q.y));
    assert(n.y.mul_spec(n.z) == q.y.mul_spec(q.z));
    assert(n.z.mul_spec(n.z) == q.z.mul_spec(q.z));
}

} // verus!
