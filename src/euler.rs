use vstd::prelude::*;
use std::ops::{Add, Div, Mul, Neg, Sub};
use vstd::std_specs::cmp::{PartialOrdIs, PartialOrdSpec};
use vstd::std_specs::ops::{AddSpec, DivSpec, MulSpec, NegSpec, SubSpec};
use crate::affine::Matrix3x4;
use crate::matrix::RotationMatrix;
use crate::quaternion::{negation_of, Quaternion};
use crate::scalar::{
    constant, exact_from, exact_scalar, magnitude, neg_mul_neg, num, total_add, total_div, total_neg,
    total_scalar, total_sub,
};

verus! {

/// An orientation as heading, pitch and bank angles, in radians: rotations about the up,
/// right and forward axes, applied bank first, then pitch, then heading.
#[derive(Debug, Clone, Copy, PartialEq)]
pub struct EulerAngles<T> {
    pub heading: T,
    pub pitch: T,
    pub bank: T,
}

impl<T: Copy + From<i8>> EulerAngles<T> {
    /// No rotation: all three angles zero.
    pub fn identity() -> (r: Self)
        ensures
            exact_from::<T>() ==> r == (EulerAngles {
                heading: num::<T>(0),
                pitch: num::<T>(0),
                bank: num::<T>(0),
            }),
    {
        let zero: T = constant(0);
        EulerAngles { heading: zero, pitch: zero, bank: zero }
    }
}

/// Pitch, heading and bank after a pitch `p` already in `(-pi, pi]` is brought into
/// `[-half_pi, half_pi]`: a pitch past a pole is reflected across it, and heading and bank
/// turn by `pi` to make up for it.
pub open spec fn over_the_pole<T: Add<Output = T> + Sub<Output = T> + Neg<Output = T> + PartialOrd>(
    p: T,
    h: T,
    b: T,
    pi: T,
    half_pi: T,
) -> (T, T, T) {
    if p.is_lt(&half_pi.neg_spec()) {
        (pi.neg_spec().sub_spec(p), h.add_spec(pi), b.add_spec(pi))
    } else if p.is_gt(&half_pi) {
        (pi.sub_spec(p), h.add_spec(pi), b.add_spec(pi))
    } else {
        (p, h, b)
    }
}

/// `r` is the canonical form of `e`, where `wrap` brings an angle into `(-pi, pi]` and a pitch
/// whose magnitude exceeds `lock` counts as gimbal-locked. The pitch is wrapped and brought
/// over the pole if needed. Locked, the bank is folded into the heading and becomes zero;
/// otherwise the bank is wrapped. Last, the heading is wrapped.
pub open spec fn canonical<T: Add<Output = T> + Sub<Output = T> + Neg<Output = T> + PartialOrd + From<i8>, F: Fn(T) -> T>(
    e: EulerAngles<T>,
    pi: T,
    half_pi: T,
    lock: T,
    wrap: F,
    r: EulerAngles<T>,
) -> bool {
    exists|p: T|
        {
            &&& #[trigger] wrap.ensures((e.pitch,), p)
            &&& {
                let (p2, h2, b2) = over_the_pole(p, e.heading, e.bank, pi, half_pi);
                &&& r.pitch == p2
                &&& if magnitude(p2).is_gt(&lock) {
                    &&& r.bank == num::<T>(0)
                    &&& wrap.ensures((h2.add_spec(b2),), r.heading)
                } else {
                    &&& wrap.ensures((b2,), r.bank)
                    &&& wrap.ensures((h2,), r.heading)
                }
            }
        }
}

impl<T: Copy + Add<Output = T> + Sub<Output = T> + Neg<Output = T> + PartialOrd + From<i8>> EulerAngles<T> {
    /// Brings the angles to canonical form: pitch in `[-half_pi, half_pi]`, heading and bank
    /// in `(-pi, pi]`, and, when the magnitude of the pitch exceeds `lock` (gimbal lock), all
    /// rotation about the vertical in the heading and a bank of zero. `wrap` brings an angle
    /// into `(-pi, pi]`.
    pub fn canonize<F: Fn(T) -> T>(&mut self, pi: T, half_pi: T, lock: T, wrap: F)
        requires
            total_add::<T>(),
            total_sub::<T>(),
            total_neg::<T>(),
            forall|a: T| #[trigger] wrap.requires((a,)),
        ensures
            T::obeys_add_spec() && T::obeys_sub_spec() && T::obeys_neg_spec()
                && T::obeys_partial_cmp_spec() && exact_from::<T>() ==> canonical(
                *old(self),
                pi,
                half_pi,
                lock,
                wrap,
                *final(self),
            ),
    {
        let ghost e = *self;
        let zero: T = constant(0);
        let p = wrap(self.pitch);
        let mut pitch = p;
        let mut heading = self.heading;
        let mut bank = self.bank;
        if p < half_pi.neg() {
            pitch = pi.neg() - p;
            heading = heading + pi;
            bank = bank + pi;
        } else if p > half_pi {
            pitch = pi - p;
            heading = heading + pi;
            bank = bank + pi;
        }
        let size = if pitch < zero {
            pitch.neg()
        } else {
            pitch
        };
        self.pitch = pitch;
        if size > lock {
            self.heading = wrap(heading + bank);
            self.bank = zero;
        } else {
            self.bank = wrap(bank);
            self.heading = wrap(heading);
        }
        proof {
            if T::obeys_add_spec() && T::obeys_sub_spec() && T::obeys_neg_spec()
                && T::obeys_partial_cmp_spec() && exact_from::<T>() {
                assert(over_the_pole(p, e.heading, e.bank, pi, half_pi) == (pitch, heading, bank));
                assert(wrap.ensures((e.pitch,), p));
            }
        }
    }
}

/// `r` holds the angles recovered from the sine `sp` of the pitch. When the magnitude of
/// `sp` exceeds `gimbal` (gimbal lock) the pitch is `half_pi * sp`, the bank zero and the
/// heading `atan2` of the pair `locked`; otherwise the pitch is `asin(sp)` and heading and
/// bank are `atan2` of the pairs `heading` and `bank`. Each pair is `(y, x)`.
pub open spec fn angles_from<T: Mul<Output = T> + Neg<Output = T> + PartialOrd + From<i8>, A: Fn(T) -> T, B: Fn(T, T) -> T>(
    sp: T,
    half_pi: T,
    gimbal: T,
    asin: A,
    atan2: B,
    locked: (T, T),
    heading: (T, T),
    bank: (T, T),
    r: EulerAngles<T>,
) -> bool {
    if magnitude(sp).is_gt(&gimbal) {
        &&& r.pitch == half_pi.mul_spec(sp)
        &&& r.bank == num::<T>(0)
        &&& atan2.ensures(locked, r.heading)
    } else {
        &&& asin.ensures((sp,), r.pitch)
        &&& atan2.ensures(heading, r.heading)
        &&& atan2.ensures(bank, r.bank)
    }
}

/// `a b + c d`.
pub open spec fn pair_sum<T: Add<Output = T> + Mul<Output = T>>(a: T, b: T, c: T, d: T) -> T {
    a.mul_spec(b).add_spec(c.mul_spec(d))
}

/// `a b - c d`.
pub open spec fn pair_diff<T: Sub<Output = T> + Mul<Output = T>>(a: T, b: T, c: T, d: T) -> T {
    a.mul_spec(b).sub_spec(c.mul_spec(d))
}

/// `1/2 - a a - b b`.
pub open spec fn half_less<T: Sub<Output = T> + Mul<Output = T> + Div<Output = T> + From<i8>>(a: T, b: T) -> T {
    num::<T>(1).div_spec(num::<T>(2)).sub_spec(a.mul_spec(a)).sub_spec(b.mul_spec(b))
}

/// `r` holds the Euler angles of the object-to-inertial rotation `q`, as
/// `from_obj_to_inertial_quaternion` recovers them.
pub open spec fn obj_to_inertial_angles<T: Add<Output = T> + Sub<Output = T> + Mul<Output = T> + Neg<Output = T> + Div<Output = T> + PartialOrd + From<i8>, A: Fn(T) -> T, B: Fn(T, T) -> T>(
    q: Quaternion<T>,
    half_pi: T,
    gimbal: T,
    asin: A,
    atan2: B,
    r: EulerAngles<T>,
) -> bool {
    angles_from(
        num::<T>(-2i8).mul_spec(pair_diff(q.y, q.z, q.w, q.x)),
        half_pi,
        gimbal,
        asin,
        atan2,
        (pair_sum(q.x.neg_spec(), q.z, q.w, q.y), half_less(q.y, q.z)),
        (pair_sum(q.x, q.z, q.w, q.y), half_less(q.x, q.y)),
        (pair_sum(q.x, q.y, q.w, q.z), half_less(q.x, q.z)),
        r,
    )
}

/// `r` holds the Euler angles of the inertial-to-object rotation `q`, as
/// `from_inertial_to_obj_quaternion` recovers them.
pub open spec fn inertial_to_obj_angles<T: Add<Output = T> + Sub<Output = T> + Mul<Output = T> + Neg<Output = T> + Div<Output = T> + PartialOrd + From<i8>, A: Fn(T) -> T, B: Fn(T, T) -> T>(
    q: Quaternion<T>,
    half_pi: T,
    gimbal: T,
    asin: A,
    atan2: B,
    r: EulerAngles<T>,
) -> bool {
    angles_from(
        num::<T>(-2i8).mul_spec(pair_sum(q.y, q.z, q.w, q.x)),
        half_pi,
        gimbal,
        asin,
        atan2,
        (pair_diff(q.x.neg_spec(), q.z, q.w, q.y), half_less(q.y, q.z)),
        (pair_diff(q.x, q.z, q.w, q.y), half_less(q.x, q.y)),
        (pair_diff(q.x, q.y, q.w, q.z), half_less(q.x, q.z)),
        r,
    )
}

impl<T: Copy + Add<Output = T> + Sub<Output = T> + Mul<Output = T> + Neg<Output = T> + Div<Output = T> + PartialOrd + From<i8>> EulerAngles<T> {
    /// The angles recovered from the sine `sp` of the pitch, as `angles_from` states.
    fn from_pitch_sine<A: Fn(T) -> T, B: Fn(T, T) -> T>(
        sp: T,
        half_pi: T,
        gimbal: T,
        asin: A,
        atan2: B,
        locked: (T, T),
        heading: (T, T),
        bank: (T, T),
    ) -> (r: Self)
        requires
            total_scalar::<T>(),
            forall|a: T| #[trigger] asin.requires((a,)),
            forall|y: T, x: T| #[trigger] atan2.requires((y, x)),
        ensures
            exact_scalar::<T>() && T::obeys_partial_cmp_spec() ==> angles_from(
                sp,
                half_pi,
                gimbal,
                asin,
                atan2,
                locked,
                heading,
                bank,
                r,
            ),
    {
        let zero: T = constant(0);
        let size = if sp < zero {
            sp.neg()
        } else {
            sp
        };
        if size > gimbal {
            EulerAngles { heading: atan2(locked.0, locked.1), pitch: half_pi * sp, bank: zero }
        } else {
            let pitch = asin(sp);
            let h = atan2(heading.0, heading.1);
            let b = atan2(bank.0, bank.1);
            EulerAngles { heading: h, pitch, bank: b }
        }
    }

    /// The Euler angles of the object-to-inertial rotation `q`. `half_pi` is a quarter turn,
    /// a pitch sine of magnitude above `gimbal` counts as gimbal lock, and `asin` and
    /// `atan2` (called as `atan2(y, x)`) are the inverse trigonometric functions.
    pub fn from_obj_to_inertial_quaternion<A: Fn(T) -> T, B: Fn(T, T) -> T>(
        q: Quaternion<T>,
        half_pi: T,
        gimbal: T,
        asin: A,
        atan2: B,
    ) -> (r: Self)
        requires
            total_scalar::<T>(),
            total_div::<T>(),
            forall|a: T| #[trigger] asin.requires((a,)),
            forall|y: T, x: T| #[trigger] atan2.requires((y, x)),
        ensures
            exact_scalar::<T>() && T::obeys_div_spec() && T::obeys_partial_cmp_spec()
                ==> obj_to_inertial_angles(q, half_pi, gimbal, asin, atan2, r),
    {
        let minus_two: T = constant(-2);
        let one: T = constant(1);
        let two: T = constant(2);
        let half = one / two;
        let sp = minus_two * (q.y * q.z - q.w * q.x);
        Self::from_pitch_sine(
            sp,
            half_pi,
            gimbal,
            asin,
            atan2,
            (q.x.neg() * q.z + q.w * q.y, half - q.y * q.y - q.z * q.z),
            (q.x * q.z + q.w * q.y, half - q.x * q.x - q.y * q.y),
            (q.x * q.y + q.w * q.z, half - q.x * q.x - q.z * q.z),
        )
    }

    /// The Euler angles of the inertial-to-object rotation `q`, with the same parameters as
    /// `from_obj_to_inertial_quaternion`.
    pub fn from_inertial_to_obj_quaternion<A: Fn(T) -> T, B: Fn(T, T) -> T>(
        q: Quaternion<T>,
        half_pi: T,
        gimbal: T,
        asin: A,
        atan2: B,
    ) -> (r: Self)
        requires
            total_scalar::<T>(),
            total_div::<T>(),
            forall|a: T| #[trigger] asin.requires((a,)),
            forall|y: T, x: T| #[trigger] atan2.requires((y, x)),
        ensures
            exact_scalar::<T>() && T::obeys_div_spec() && T::obeys_partial_cmp_spec()
                ==> inertial_to_obj_angles(q, half_pi, gimbal, asin, atan2, r),
    {
        let minus_two: T = constant(-2);
        let one: T = constant(1);
        let two: T = constant(2);
        let half = one / two;
        let sp = minus_two * (q.y * q.z + q.w * q.x);
        Self::from_pitch_sine(
            sp,
            half_pi,
            gimbal,
            asin,
            atan2,
            (q.x.neg() * q.z - q.w * q.y, half - q.y * q.y - q.z * q.z),
            (q.x * q.z - q.w * q.y, half - q.x * q.x - q.y * q.y),
            (q.x * q.y - q.w * q.z, half - q.x * q.x - q.z * q.z),
        )
    }

    /// The Euler angles of an object-to-world transform, from its linear part, with the same
    /// parameters as `from_obj_to_inertial_quaternion`.
    pub fn from_obj_to_world_matrix<A: Fn(T) -> T, B: Fn(T, T) -> T>(
        m: Matrix3x4<T>,
        half_pi: T,
        gimbal: T,
        asin: A,
        atan2: B,
    ) -> (r: Self)
        requires
            total_scalar::<T>(),
            forall|a: T| #[trigger] asin.requires((a,)),
            forall|y: T, x: T| #[trigger] atan2.requires((y, x)),
        ensures
            exact_scalar::<T>() && T::obeys_partial_cmp_spec() ==> angles_from(
                m.m32.neg_spec(),
                half_pi,
                gimbal,
                asin,
                atan2,
                (m.m23.neg_spec(), m.m11),
                (m.m31, m.m33),
                (m.m12, m.m22),
                r,
            ),
    {
        Self::from_pitch_sine(
            m.m32.neg(),
            half_pi,
            gimbal,
            asin,
            atan2,
            (m.m23.neg(), m.m11),
            (m.m31, m.m33),
            (m.m12, m.m22),
        )
    }

    /// The Euler angles of a world-to-object transform, from its linear part, with the same
    /// parameters as `from_obj_to_inertial_quaternion`.
    pub fn from_world_to_obj_matrix<A: Fn(T) -> T, B: Fn(T, T) -> T>(
        m: Matrix3x4<T>,
        half_pi: T,
        gimbal: T,
        asin: A,
        atan2: B,
    ) -> (r: Self)
        requires
            total_scalar::<T>(),
            forall|a: T| #[trigger] asin.requires((a,)),
            forall|y: T, x: T| #[trigger] atan2.requires((y, x)),
        ensures
            exact_scalar::<T>() && T::obeys_partial_cmp_spec() ==> angles_from(
                m.m23.neg_spec(),
                half_pi,
                gimbal,
                asin,
                atan2,
                (m.m31.neg_spec(), m.m11),
                (m.m13, m.m33),
                (m.m21, m.m22),
                r,
            ),
    {
        Self::from_pitch_sine(
            m.m23.neg(),
            half_pi,
            gimbal,
            asin,
            atan2,
            (m.m31.neg(), m.m11),
            (m.m13, m.m33),
            (m.m21, m.m22),
        )
    }

    /// The Euler angles of the inertial-to-object rotation matrix `m`, with the same
    /// parameters as `from_obj_to_inertial_quaternion`.
    pub fn from_rotation_matrix<A: Fn(T) -> T, B: Fn(T, T) -> T>(
        m: RotationMatrix<T>,
        half_pi: T,
        gimbal: T,
        asin: A,
        atan2: B,
    ) -> (r: Self)
        requires
            total_scalar::<T>(),
            forall|a: T| #[trigger] asin.requires((a,)),
            forall|y: T, x: T| #[trigger] atan2.requires((y, x)),
        ensures
            exact_scalar::<T>() && T::obeys_partial_cmp_spec() ==> angles_from(
                m.m23.neg_spec(),
                half_pi,
                gimbal,
                asin,
                atan2,
                (m.m31.neg_spec(), m.m11),
                (m.m13, m.m33),
                (m.m21, m.m22),
                r,
            ),
    {
        Self::from_pitch_sine(
            m.m23.neg(),
            half_pi,
            gimbal,
            asin,
            atan2,
            (m.m31.neg(), m.m11),
            (m.m13, m.m33),
            (m.m21, m.m22),
        )
    }
}

/// Double cover: a quaternion and its negation give the same Euler angles, in both directions,
/// for any scalar on which negation distributes over products as in a ring.
pub proof fn lemma_negation_same_angles<T: Add<Output = T> + Sub<Output = T> + Mul<Output = T> + Neg<Output = T> + Div<Output = T> + PartialOrd + From<i8>, A: Fn(T) -> T, B: Fn(T, T) -> T>(
    q: Quaternion<T>,
    half_pi: T,
    gimbal: T,
    asin: A,
    atan2: B,
    r: EulerAngles<T>,
)
    requires
        neg_mul_neg::<T>(),
        forall|a: T| #[trigger] a.neg_spec().neg_spec() == a,
    ensures
        obj_to_inertial_angles(negation_of(q), half_pi, gimbal, asin, atan2, r)
            == obj_to_inertial_angles(q, half_pi, gimbal, asin, atan2, r),
        inertial_to_obj_angles(negation_of(q), half_pi, gimbal, asin, atan2, r)
            == inertial_to_obj_angles(q, half_pi, gimbal, asin, atan2, r),
{
    let n = negation_of(q);
    assert(n.x.neg_spec() == q.x);
    assert(n.x.neg_spec().mul_spec(n.z) == q.x.neg_spec().mul_spec(q.z)) by {
        assert(q.x.neg_spec().mul_spec(q.z) == q.x.neg_spec().neg_spec().mul_spec(q.z.neg_spec()));
    }
    assert(n.w.mul_spec(n.x) == q.w.mul_spec(q.x));
    assert(n.w.mul_spec(n.y) == q.w.mul_spec(q.y));
    assert(n.w.mul_spec(n.z) == q.w.mul_spec(q.z));
    assert(n.x.mul_spec(n.x) == q.x.mul_spec(q.x));
    assert(n.x.mul_spec(n.y) == q.x.mul_spec(q.y));
    assert(n.x.mul_spec(n.z) == q.x.mul_spec(q.z));
    assert(n.y.mul_spec(n.y) == q.y.mul_spec(q.y));
    assert(n.y.mul_spec(n.z) == q.y.mul_spec(q.z));
    assert(n.z.mul_spec(n.z) == q.z.mul_spec(q.z));
}

} // verus!
