use vstd::prelude::*;
use std::cmp::Ordering;
use std::ops::{Add, Div, Mul, MulAssign, Neg, Sub};
use vstd::std_specs::cmp::{PartialOrdIs, PartialOrdSpec};
use vstd::std_specs::ops::{AddSpec, DivSpec, MulSpec, NegSpec, SubSpec};
use crate::scalar::{
    constant, exact_from, exact_ring, magnitude, num, safe_acos, safe_acos_of, total_add, total_div,
    total_mul, total_neg, total_ring, total_sub,
};
use crate::euler::EulerAngles;
use crate::matrix::Axis;
use crate::vector::{near_unit, V3};

verus! {

/// A quaternion `w + xi + yj + zk`; a rotation when its norm is one.
#[derive(Debug, Clone, Copy, PartialEq)]
pub struct Quaternion<T> {
    pub w: T,
    pub x: T,
    pub y: T,
    pub z: T,
}

/// The Hamilton product `a * b`, which applies the rotation of `b` first.
pub open spec fn hamilton<T: Add<Output = T> + Sub<Output = T> + Mul<Output = T>>(
    a: Quaternion<T>,
    b: Quaternion<T>,
) -> Quaternion<T> {
    Quaternion {
        w: a.w.mul_spec(b.w).sub_spec(a.x.mul_spec(b.x)).sub_spec(a.y.mul_spec(b.y)).sub_spec(
            a.z.mul_spec(b.z),
        ),
        x: a.w.mul_spec(b.x).add_spec(a.x.mul_spec(b.w)).add_spec(a.y.mul_spec(b.z)).sub_spec(
            a.z.mul_spec(b.y),
        ),
        y: a.w.mul_spec(b.y).add_spec(a.y.mul_spec(b.w)).add_spec(a.z.mul_spec(b.x)).sub_spec(
            a.x.mul_spec(b.z),
        ),
        z: a.w.mul_spec(b.z).add_spec(a.z.mul_spec(b.w)).add_spec(a.x.mul_spec(b.y)).sub_spec(
            a.y.mul_spec(b.x),
        ),
    }
}

/// The four-dimensional dot product of `a` and `b`.
pub open spec fn dot_of<T: Add<Output = T> + Mul<Output = T>>(
    a: Quaternion<T>,
    b: Quaternion<T>,
) -> T {
    a.w.mul_spec(b.w).add_spec(a.x.mul_spec(b.x)).add_spec(a.y.mul_spec(b.y)).add_spec(
        a.z.mul_spec(b.z),
    )
}

/// `q` with its vector part negated.
pub open spec fn conjugate_of<T: Neg<Output = T>>(q: Quaternion<T>) -> Quaternion<T> {
    Quaternion { w: q.w, x: q.x.neg_spec(), y: q.y.neg_spec(), z: q.z.neg_spec() }
}

/// `q` with all four components negated: the same rotation.
pub open spec fn negation_of<T: Neg<Output = T>>(q: Quaternion<T>) -> Quaternion<T> {
    Quaternion { w: q.w.neg_spec(), x: q.x.neg_spec(), y: q.y.neg_spec(), z: q.z.neg_spec() }
}

/// The componentwise blend `k0 * a + k1 * b`.
pub open spec fn blend_of<T: Add<Output = T> + Mul<Output = T>>(
    a: Quaternion<T>,
    b: Quaternion<T>,
    k0: T,
    k1: T,
) -> Quaternion<T> {
    Quaternion {
        w: k0.mul_spec(a.w).add_spec(k1.mul_spec(b.w)),
        x: k0.mul_spec(a.x).add_spec(k1.mul_spec(b.x)),
        y: k0.mul_spec(a.y).add_spec(k1.mul_spec(b.y)),
        z: k0.mul_spec(a.z).add_spec(k1.mul_spec(b.z)),
    }
}

/// Rotation by an angle about a unit `axis`, given the sine and cosine of half the angle.
pub open spec fn axis_rotation<T: Mul<Output = T>>(axis: V3<T>, s: T, c: T) -> Quaternion<T> {
    Quaternion { w: c, x: axis.x.mul_spec(s), y: axis.y.mul_spec(s), z: axis.z.mul_spec(s) }
}

/// Product of three scalars, grouped from the left.
pub open spec fn mul3<T: Mul<Output = T>>(a: T, b: T, c: T) -> T {
    a.mul_spec(b).mul_spec(c)
}

/// The object-to-inertial quaternion of Euler angles, given the sine and cosine of half the
/// heading (`sh`, `ch`), half the pitch (`sp`, `cp`) and half the bank (`sb`, `cb`).
pub open spec fn obj_to_inertial_of<T: Add<Output = T> + Sub<Output = T> + Mul<Output = T> + Neg<Output = T>>(
    sh: T,
    ch: T,
    sp: T,
    cp: T,
    sb: T,
    cb: T,
) -> Quaternion<T> {
    Quaternion {
        w: mul3(ch, cp, cb).add_spec(mul3(sh, sp, sb)),
        x: mul3(ch, sp, cb).add_spec(mul3(sh, cp, sb)),
        y: mul3(ch.neg_spec(), sp, sb).add_spec(mul3(sh, cp, cb)),
        z: mul3(sh.neg_spec(), sp, cb).add_spec(mul3(ch, cp, sb)),
    }
}

/// The inertial-to-object quaternion of Euler angles, from the same half-angle sines and
/// cosines as `obj_to_inertial_of`: its conjugate.
pub open spec fn inertial_to_obj_of<T: Add<Output = T> + Sub<Output = T> + Mul<Output = T> + Neg<Output = T>>(
    sh: T,
    ch: T,
    sp: T,
    cp: T,
    sb: T,
    cb: T,
) -> Quaternion<T> {
    Quaternion {
        w: mul3(ch, cp, cb).add_spec(mul3(sh, sp, sb)),
        x: mul3(ch.neg_spec(), sp, cb).sub_spec(mul3(sh, cp, sb)),
        y: mul3(ch, sp, sb).sub_spec(mul3(sh, cb, cp)),
        z: mul3(sh, sp, cb).sub_spec(mul3(ch, cp, sb)),
    }
}

/// `b` turned, if needed, to the half of the double cover nearer `a`: negated when its dot
/// product with `a` is negative. Paired with the dot product of `a` and the result.
pub open spec fn nearer_cover<T: Add<Output = T> + Mul<Output = T> + Neg<Output = T> + PartialOrd + From<i8>>(
    a: Quaternion<T>,
    b: Quaternion<T>,
) -> (Quaternion<T>, T) {
    let d = dot_of(a, b);
    if d.is_lt(&num::<T>(0)) {
        (negation_of(b), d.neg_spec())
    } else {
        (b, d)
    }
}

/// `k` holds the slerp weights for the cosine `c` of the arc and the parameter `t`, where
/// arcs with cosine above `linear_above` are blended linearly: `(1 - t, t)` there; otherwise,
/// with `omega = atan2(sqrt(1 - c c), c)`, the pair `sin((1 - t) omega) / sin(omega)` and
/// `sin(t omega) / sin(omega)`, the sine of `omega` being `sqrt(1 - c c)`.
pub open spec fn slerp_weights_of<T: Sub<Output = T> + Mul<Output = T> + Div<Output = T> + PartialOrd + From<i8>, Q: Fn(T) -> T, A: Fn(T, T) -> T, S: Fn(T) -> T>(
    c: T,
    t: T,
    linear_above: T,
    sqrt: Q,
    atan2: A,
    sin: S,
    k: (T, T),
) -> bool {
    if c.is_gt(&linear_above) {
        k == (num::<T>(1).sub_spec(t), t)
    } else {
        exists|s: T, omega: T, s0: T, s1: T|
            {
                &&& #[trigger] sqrt.ensures((num::<T>(1).sub_spec(c.mul_spec(c)),), s)
                &&& #[trigger] atan2.ensures((s, c), omega)
                &&& #[trigger] sin.ensures((num::<T>(1).sub_spec(t).mul_spec(omega),), s0)
                &&& #[trigger] sin.ensures((t.mul_spec(omega),), s1)
                &&& k == (s0.div_spec(s), s1.div_spec(s))
            }
    }
}

/// The slerp weights for the cosine `c` of the arc and the parameter `t`, as
/// `slerp_weights_of` states: linear above the cosine `linear_above`, where dividing by the
/// sine of the arc would be unstable, spherical below it.
pub fn slerp_weights<T: Copy + Sub<Output = T> + Mul<Output = T> + Div<Output = T> + PartialOrd + From<i8>, Q: Fn(T) -> T, A: Fn(T, T) -> T, S: Fn(T) -> T>(
    c: T,
    t: T,
    linear_above: T,
    sqrt: Q,
    atan2: A,
    sin: S,
) -> (k: (T, T))
    requires
        total_sub::<T>(),
        total_mul::<T>(),
        total_div::<T>(),
        forall|a: T| #[trigger] sqrt.requires((a,)),
        forall|y: T, x: T| #[trigger] atan2.requires((y, x)),
        forall|a: T| #[trigger] sin.requires((a,)),
    ensures
        T::obeys_sub_spec() && T::obeys_mul_spec() && T::obeys_div_spec()
            && T::obeys_partial_cmp_spec() && exact_from::<T>() ==> slerp_weights_of(
            c,
            t,
            linear_above,
            sqrt,
            atan2,
            sin,
            k,
        ),
{
    let one: T = constant(1);
    if c > linear_above {
        return (one - t, t);
    }
    let s = sqrt(one - c * c);
    let omega = atan2(s, c);
    let s0 = sin((one - t) * omega);
    let s1 = sin(t * omega);
    proof {
        if T::obeys_sub_spec() && T::obeys_mul_spec() && T::obeys_div_spec()
            && T::obeys_partial_cmp_spec() && exact_from::<T>() {
            assert(sqrt.ensures((num::<T>(1).sub_spec(c.mul_spec(c)),), s));
            assert(atan2.ensures((s, c), omega));
            assert(sin.ensures((num::<T>(1).sub_spec(t).mul_spec(omega),), s0));
            assert(sin.ensures((t.mul_spec(omega),), s1));
        }
    }
    (s0 / s, s1 / s)
}

/// What spherical interpolation from `a` to `b` at `t` gives when `weights` maps the cosine
/// of the arc and `t` to the pair `k`: `a` for `t <= 0`, `b` for `t >= 1`, else the blend of
/// `a` and the nearer cover of `b` by the weights `k`.
pub open spec fn slerp_of<T: Add<Output = T> + Mul<Output = T> + Neg<Output = T> + PartialOrd + From<i8>>(
    a: Quaternion<T>,
    b: Quaternion<T>,
    t: T,
    k: (T, T),
) -> Quaternion<T> {
    if t.is_le(&num::<T>(0)) {
        a
    } else if t.is_ge(&num::<T>(1)) {
        b
    } else {
        blend_of(a, nearer_cover(a, b).0, k.0, k.1)
    }
}

/// `r` is `q` raised to the power `exp`, where `acos`, `sin` and `cos` are the trigonometric
/// functions: `q` itself when the magnitude of `q.w` exceeds `near_identity`, else the
/// half-angle `alpha = acos(q.w)` scaled by `exp`, with the vector part rescaled by
/// `sin(alpha exp) / sin(alpha)`.
pub open spec fn pow_of<T: Mul<Output = T> + Div<Output = T> + Neg<Output = T> + PartialOrd + From<i8>, A: Fn(T) -> T, S: Fn(T) -> T, C: Fn(T) -> T>(
    q: Quaternion<T>,
    exp: T,
    near_identity: T,
    acos: A,
    sin: S,
    cos: C,
    r: Quaternion<T>,
) -> bool {
    if magnitude(q.w).is_gt(&near_identity) {
        r == q
    } else {
        exists|alpha: T, s_new: T, s_old: T|
            {
                &&& #[trigger] acos.ensures((q.w,), alpha)
                &&& #[trigger] sin.ensures((alpha.mul_spec(exp),), s_new)
                &&& #[trigger] sin.ensures((alpha,), s_old)
                &&& cos.ensures((alpha.mul_spec(exp),), r.w)
                &&& r.x == q.x.mul_spec(s_new.div_spec(s_old))
                &&& r.y == q.y.mul_spec(s_new.div_spec(s_old))
                &&& r.z == q.z.mul_spec(s_new.div_spec(s_old))
            }
    }
}

/// The rotation by the angle whose half has sine `s` and cosine `c`, about a coordinate axis.
pub open spec fn coordinate_rotation<T: From<i8>>(axis: Axis, s: T, c: T) -> Quaternion<T> {
    match axis {
        Axis::X => Quaternion { w: c, x: s, y: num::<T>(0), z: num::<T>(0) },
        Axis::Y => Quaternion { w: c, x: num::<T>(0), y: s, z: num::<T>(0) },
        Axis::Z => Quaternion { w: c, x: num::<T>(0), y: num::<T>(0), z: s },
    }
}

/// `r` is the axis of the rotation `q`: `(1, 0, 0)` when `1 - w w` is not positive (no
/// rotation, so no axis), else the vector part divided by `sqrt(1 - w w)`.
pub open spec fn rotation_axis_of<T: Sub<Output = T> + Mul<Output = T> + Div<Output = T> + PartialOrd + From<i8>, F: Fn(T) -> T>(
    q: Quaternion<T>,
    sqrt: F,
    r: V3<T>,
) -> bool {
    let sin_sq = num::<T>(1).sub_spec(q.w.mul_spec(q.w));
    if sin_sq.is_le(&num::<T>(0)) {
        r == (V3 { x: num::<T>(1), y: num::<T>(0), z: num::<T>(0) })
    } else {
        exists|s: T|
            {
                &&& #[trigger] sqrt.ensures((sin_sq,), s)
                &&& r.x == q.x.mul_spec(num::<T>(1).div_spec(s))
                &&& r.y == q.y.mul_spec(num::<T>(1).div_spec(s))
                &&& r.z == q.z.mul_spec(num::<T>(1).div_spec(s))
            }
    }
}

/// The sum of the squares of the four components.
pub open spec fn norm_sq_of<T: Add<Output = T> + Mul<Output = T>>(q: Quaternion<T>) -> T {
    dot_of(q, q)
}

/// `r` is `q` rescaled to unit norm, where `sqrt` is the square root: each component times
/// `1 / sqrt(norm)` when that root is positive; `q` unchanged when it is not.
pub open spec fn normalized<T: Add<Output = T> + Mul<Output = T> + Div<Output = T> + PartialOrd + From<i8>, F: Fn(T) -> T>(
    q: Quaternion<T>,
    sqrt: F,
    r: Quaternion<T>,
) -> bool {
    exists|m: T|
        {
            &&& #[trigger] sqrt.ensures((norm_sq_of(q),), m)
            &&& if m.is_gt(&num::<T>(0)) {
                let k = num::<T>(1).div_spec(m);
                r == Quaternion {
                    w: q.w.mul_spec(k),
                    x: q.x.mul_spec(k),
                    y: q.y.mul_spec(k),
                    z: q.z.mul_spec(k),
                }
            } else {
                r == q
            }
        }
}

/// Half of the angle `a`.
pub open spec fn half_of<T: Mul<Output = T> + Div<Output = T> + From<i8>>(a: T) -> T {
    a.mul_spec(num::<T>(1).div_spec(num::<T>(2)))
}

impl<T: Copy + From<i8>> Quaternion<T> {
    /// The rotation that changes nothing: `1 + 0i + 0j + 0k`.
    pub fn identity() -> (r: Self)
        ensures
            exact_from::<T>() ==> r == (Quaternion {
                w: num::<T>(1),
                x: num::<T>(0),
                y: num::<T>(0),
                z: num::<T>(0),
            }),
    {
        Quaternion { w: constant(1), x: constant(0), y: constant(0), z: constant(0) }
    }

    /// Rotation about a coordinate axis, from the sine `s` and cosine `c` of half the angle.
    pub fn about_axis(axis: Axis, s: T, c: T) -> (r: Self)
        ensures
            exact_from::<T>() ==> r == coordinate_rotation(axis, s, c),
    {
        let zero: T = constant(0);
        match axis {
            Axis::X => Quaternion { w: c, x: s, y: zero, z: zero },
            Axis::Y => Quaternion { w: c, x: zero, y: s, z: zero },
            Axis::Z => Quaternion { w: c, x: zero, y: zero, z: s },
        }
    }
}

impl<T: Copy + Add<Output = T> + Sub<Output = T> + Mul<Output = T> + Div<Output = T> + Neg<Output = T> + PartialOrd + From<i8>> Quaternion<T> {
    /// The angle of the rotation: twice the clamped arccosine of `w`. `pi` is a half turn
    /// and `acos` the arccosine.
    pub fn get_rotation_angle<F: Fn(T) -> T>(&self, pi: T, acos: F) -> (r: T)
        requires
            total_add::<T>(),
            forall|a: T| #[trigger] acos.requires((a,)),
        ensures
            T::obeys_add_spec() && T::obeys_partial_cmp_spec() && exact_from::<T>() ==> exists|h: T|
                safe_acos_of(self.w, pi, acos, h) && r == #[trigger] h.add_spec(h),
    {
        let h = safe_acos(self.w, pi, acos);
        h + h
    }

    /// The unit axis of the rotation, where `sqrt` is the square root; `(1, 0, 0)` for a
    /// rotation by nothing.
    pub fn get_rotation_axis<F: Fn(T) -> T>(&self, sqrt: F) -> (r: V3<T>)
        requires
            total_ring::<T>(),
            total_div::<T>(),
            forall|a: T| #[trigger] sqrt.requires((a,)),
        ensures
            exact_ring::<T>() && T::obeys_div_spec() && T::obeys_partial_cmp_spec()
                && exact_from::<T>() ==> rotation_axis_of(*self, sqrt, r),
    {
        let one: T = constant(1);
        let zero: T = constant(0);
        let sin_sq = one - self.w * self.w;
        if sin_sq <= zero {
            return V3 { x: one, y: zero, z: zero };
        }
        let s = sqrt(sin_sq);
        let k = one / s;
        let r = V3 { x: self.x * k, y: self.y * k, z: self.z * k };
        proof {
            if exact_ring::<T>() && T::obeys_div_spec() && T::obeys_partial_cmp_spec()
                && exact_from::<T>() {
                assert(sqrt.ensures((sin_sq,), s));
            }
        }
        r
    }

    /// Rescales to unit norm, where `sqrt` is the square root. A quaternion whose norm is not
    /// positive is left as it is.
    pub fn normalize<F: Fn(T) -> T>(&mut self, sqrt: F)
        requires
            total_ring::<T>(),
            total_div::<T>(),
            forall|a: T| #[trigger] sqrt.requires((a,)),
        ensures
            exact_ring::<T>() && T::obeys_div_spec() && T::obeys_partial_cmp_spec()
                && exact_from::<T>() ==> normalized(*old(self), sqrt, *final(self)),
    {
        let zero: T = constant(0);
        let one: T = constant(1);
        let ghost q = *self;
        let d = self.dot(self);
        let m = sqrt(d);
        if m > zero {
            let k = one / m;
            self.w = self.w * k;
            self.x = self.x * k;
            self.y = self.y * k;
            self.z = self.z * k;
        }
        proof {
            if exact_ring::<T>() && T::obeys_div_spec() && T::obeys_partial_cmp_spec()
                && exact_from::<T>() {
                assert(sqrt.ensures((norm_sq_of(q),), m));
            }
        }
    }
}

impl<T: Copy + Mul<Output = T>> Quaternion<T> {
    /// Rotation about the unit vector `axis`, from the sine `s` and cosine `c` of half the
    /// rotation angle.
    pub fn from_axis_half_angle(axis: V3<T>, s: T, c: T) -> (r: Self)
        requires
            axis.x.mul_req(s),
            axis.y.mul_req(s),
            axis.z.mul_req(s),
        ensures
            T::obeys_mul_spec() ==> r == axis_rotation(axis, s, c),
    {
        Quaternion { w: c, x: axis.x * s, y: axis.y * s, z: axis.z * s }
    }
}

impl<T: Copy + Add<Output = T> + Mul<Output = T>> Quaternion<T> {
    /// The dot product of the two quaternions as four-vectors.
    pub fn dot(&self, other: &Self) -> (r: T)
        requires
            total_mul::<T>(),
            total_add::<T>(),
        ensures
            T::obeys_add_spec() && T::obeys_mul_spec() ==> r == dot_of(*self, *other),
    {
        self.w * other.w + self.x * other.x + self.y * other.y + self.z * other.z
    }

    /// The blend `k0 * self + k1 * other`, componentwise.
    pub fn blend(&self, other: &Self, k0: T, k1: T) -> (r: Self)
        requires
            total_mul::<T>(),
            total_add::<T>(),
        ensures
            T::obeys_add_spec() && T::obeys_mul_spec() ==> r == blend_of(*self, *other, k0, k1),
    {
        Quaternion {
            w: k0 * self.w + k1 * other.w,
            x: k0 * self.x + k1 * other.x,
            y: k0 * self.y + k1 * other.y,
            z: k0 * self.z + k1 * other.z,
        }
    }
}

impl<T: Copy + Add<Output = T> + Mul<Output = T> + Neg<Output = T> + PartialOrd + From<i8>> Quaternion<T> {
    /// `other` or its negation, whichever lies nearer `self`, with its dot product with `self`.
    pub fn nearer_cover(&self, other: &Self) -> (r: (Self, T))
        requires
            total_add::<T>(),
            total_mul::<T>(),
            total_neg::<T>(),
        ensures
            T::obeys_add_spec() && T::obeys_mul_spec() && T::obeys_neg_spec()
                && T::obeys_partial_cmp_spec() && exact_from::<T>() ==> r == nearer_cover(
                *self,
                *other,
            ),
    {
        let d = self.dot(other);
        let zero: T = constant(0);
        if d < zero {
            (Quaternion { w: other.w.neg(), x: other.x.neg(), y: other.y.neg(), z: other.z.neg() }, d.neg())
        } else {
            (*other, d)
        }
    }

}

impl<T: Copy + Add<Output = T> + Sub<Output = T> + Mul<Output = T> + Div<Output = T> + Neg<Output = T> + PartialOrd + From<i8>> Quaternion<T> {
    /// Spherical linear interpolation from `self` at `t = 0` to `other` at `t = 1`, along the
    /// shorter arc. Outside `(0, 1)` the nearer end is returned unchanged. Inside, `self` and
    /// `other` (negated, if the shorter arc leads to its negation) are blended with the
    /// weights of `slerp_weights`; `sqrt`, `atan2` (called as `atan2(y, x)`) and `sin` are the
    /// functions they need.
    pub fn slerp<Q: Fn(T) -> T, A: Fn(T, T) -> T, S: Fn(T) -> T>(
        &self,
        other: &Self,
        t: T,
        linear_above: T,
        sqrt: Q,
        atan2: A,
        sin: S,
    ) -> (r: Self)
        requires
            total_add::<T>(),
            total_sub::<T>(),
            total_mul::<T>(),
            total_div::<T>(),
            total_neg::<T>(),
            forall|a: T| #[trigger] sqrt.requires((a,)),
            forall|y: T, x: T| #[trigger] atan2.requires((y, x)),
            forall|a: T| #[trigger] sin.requires((a,)),
        ensures
            exact_ring::<T>() && T::obeys_div_spec() && T::obeys_neg_spec()
                && T::obeys_partial_cmp_spec() && exact_from::<T>() ==> exists|k: (T, T)|
                {
                    &&& r == slerp_of(*self, *other, t, k)
                    &&& (!t.is_le(&num::<T>(0)) && !t.is_ge(&num::<T>(1))) ==> slerp_weights_of(
                        nearer_cover(*self, *other).1,
                        t,
                        linear_above,
                        sqrt,
                        atan2,
                        sin,
                        k,
                    )
                },
    {
        let zero: T = constant(0);
        let one: T = constant(1);
        if t <= zero {
            proof {
                if T::obeys_partial_cmp_spec() && exact_from::<T>() {
                    assert(slerp_of(*self, *other, t, (t, t)) == *self);
                }
            }
            return *self;
        }
        if t >= one {
            proof {
                if T::obeys_partial_cmp_spec() && exact_from::<T>() {
                    assert(slerp_of(*self, *other, t, (t, t)) == *other);
                }
            }
            return *other;
        }
        let (b, c) = self.nearer_cover(other);
        let (k0, k1) = slerp_weights(c, t, linear_above, sqrt, atan2, sin);
        let r = self.blend(&b, k0, k1);
        proof {
            if exact_ring::<T>() && T::obeys_div_spec() && T::obeys_neg_spec()
                && T::obeys_partial_cmp_spec() && exact_from::<T>() {
                assert(slerp_of(*self, *other, t, (k0, k1)) == r);
            }
        }
        r
    }
}

impl<T: Copy + Mul<Output = T> + Div<Output = T> + Neg<Output = T> + PartialOrd + From<i8>> Quaternion<T> {
    /// The rotation raised to the power `exp`: the same axis, the angle times `exp`. Near the
    /// identity, where the magnitude of `w` exceeds `near_identity`, the quaternion is returned
    /// unchanged. `acos`, `sin` and `cos` are the trigonometric functions.
    pub fn pow<A: Fn(T) -> T, S: Fn(T) -> T, C: Fn(T) -> T>(
        &self,
        exp: T,
        near_identity: T,
        acos: A,
        sin: S,
        cos: C,
    ) -> (r: Self)
        requires
            total_mul::<T>(),
            total_neg::<T>(),
            total_div::<T>(),
            forall|a: T| #[trigger] acos.requires((a,)),
            forall|a: T| #[trigger] sin.requires((a,)),
            forall|a: T| #[trigger] cos.requires((a,)),
        ensures
            T::obeys_mul_spec() && T::obeys_div_spec() && T::obeys_neg_spec()
                && T::obeys_partial_cmp_spec() && exact_from::<T>() ==> pow_of(
                *self,
                exp,
                near_identity,
                acos,
                sin,
                cos,
                r,
            ),
    {
        let zero: T = constant(0);
        let size = if self.w < zero {
            self.w.neg()
        } else {
            self.w
        };
        if size > near_identity {
            return *self;
        }
        let alpha = acos(self.w);
        let new_alpha = alpha * exp;
        let s_new = sin(new_alpha);
        let s_old = sin(alpha);
        let mult = s_new / s_old;
        let w = cos(new_alpha);
        let r = Quaternion { w, x: self.x * mult, y: self.y * mult, z: self.z * mult };
        proof {
            if T::obeys_mul_spec() && T::obeys_div_spec() && T::obeys_neg_spec()
                && T::obeys_partial_cmp_spec() && exact_from::<T>() {
                assert(acos.ensures((self.w,), alpha));
                assert(sin.ensures((alpha.mul_spec(exp),), s_new));
                assert(sin.ensures((alpha,), s_old));
            }
        }
        r
    }
}

impl<T: Copy + Neg<Output = T>> Quaternion<T> {
    /// The conjugate: the inverse rotation of a unit quaternion.
    pub fn conjugate(&self) -> (r: Self)
        requires
            self.x.neg_req(),
            self.y.neg_req(),
            self.z.neg_req(),
        ensures
            T::obeys_neg_spec() ==> r == conjugate_of(*self),
    {
        Quaternion { w: self.w, x: self.x.neg(), y: self.y.neg(), z: self.z.neg() }
    }
}

impl<T: Copy + Add<Output = T> + Sub<Output = T> + Mul<Output = T> + Neg<Output = T>> Quaternion<T> {
    /// The object-to-inertial rotation of Euler angles, from the sine and cosine of half the
    /// heading (`sh`, `ch`), half the pitch (`sp`, `cp`) and half the bank (`sb`, `cb`).
    pub fn obj_to_inertial_from_half_angles(sh: T, ch: T, sp: T, cp: T, sb: T, cb: T) -> (r: Self)
        requires
            total_ring::<T>(),
            total_neg::<T>(),
        ensures
            exact_ring::<T>() && T::obeys_neg_spec() ==> r == obj_to_inertial_of(
                sh,
                ch,
                sp,
                cp,
                sb,
                cb,
            ),
    {
        Quaternion {
            w: ch * cp * cb + sh * sp * sb,
            x: ch * sp * cb + sh * cp * sb,
            y: ch.neg() * sp * sb + sh * cp * cb,
            z: sh.neg() * sp * cb + ch * cp * sb,
        }
    }

    /// The inertial-to-object rotation of Euler angles, from the same half-angle sines and
    /// cosines as `obj_to_inertial_from_half_angles`.
    pub fn inertial_to_obj_from_half_angles(sh: T, ch: T, sp: T, cp: T, sb: T, cb: T) -> (r: Self)
        requires
            total_ring::<T>(),
            total_neg::<T>(),
        ensures
            exact_ring::<T>() && T::obeys_neg_spec() ==> r == inertial_to_obj_of(
                sh,
                ch,
                sp,
                cp,
                sb,
                cb,
            ),
    {
        Quaternion {
            w: ch * cp * cb + sh * sp * sb,
            x: ch.neg() * sp * cb - sh * cp * sb,
            y: ch * sp * sb - sh * cb * cp,
            z: sh * sp * cb - ch * cp * sb,
        }
    }
}

impl<T: Copy + Add<Output = T> + Sub<Output = T> + Mul<Output = T> + Div<Output = T> + Neg<Output = T> + PartialOrd + From<i8>> Quaternion<T> {
    /// Rotation by `theta` about the unit vector `axis`, where `sin_cos` gives the sine and
    /// cosine of an angle. An axis whose length is off by more than about one percent is a
    /// caller error, excluded by the precondition.
    pub fn from_axis_angle<F: Fn(T) -> (T, T)>(axis: V3<T>, theta: T, sin_cos: F) -> (r: Self)
        requires
            near_unit(axis),
            total_mul::<T>(),
            total_div::<T>(),
            forall|a: T| #[trigger] sin_cos.requires((a,)),
        ensures
            T::obeys_mul_spec() && T::obeys_div_spec() && exact_from::<T>() ==> exists|h: (T, T)|
                #[trigger] sin_cos.ensures((half_of(theta),), h) && r == axis_rotation(
                    axis,
                    h.0,
                    h.1,
                ),
    {
        let one: T = constant(1);
        let two: T = constant(2);
        let h = sin_cos(theta * (one / two));
        let r = Self::from_axis_half_angle(axis, h.0, h.1);
        proof {
            if T::obeys_mul_spec() && T::obeys_div_spec() && exact_from::<T>() {
                assert(sin_cos.ensures((half_of(theta),), h));
            }
        }
        r
    }

    /// Rotation by `theta` about a coordinate axis, where `sin_cos` gives the sine and cosine
    /// of an angle.
    pub fn from_coordinate_axis<F: Fn(T) -> (T, T)>(axis: Axis, theta: T, sin_cos: F) -> (r: Self)
        requires
            total_mul::<T>(),
            total_div::<T>(),
            forall|a: T| #[trigger] sin_cos.requires((a,)),
        ensures
            T::obeys_mul_spec() && T::obeys_div_spec() && exact_from::<T>() ==> exists|h: (T, T)|
                #[trigger] sin_cos.ensures((half_of(theta),), h) && r == coordinate_rotation(
                    axis,
                    h.0,
                    h.1,
                ),
    {
        let one: T = constant(1);
        let two: T = constant(2);
        let h = sin_cos(theta * (one / two));
        let r = Self::about_axis(axis, h.0, h.1);
        proof {
            if T::obeys_mul_spec() && T::obeys_div_spec() && exact_from::<T>() {
                assert(sin_cos.ensures((half_of(theta),), h));
            }
        }
        r
    }

    /// The object-to-inertial rotation of the Euler angles `e`, where `sin_cos` gives the
    /// sine and cosine of an angle.
    pub fn obj_to_inertial_from_euler<F: Fn(T) -> (T, T)>(e: EulerAngles<T>, sin_cos: F) -> (r: Self)
        requires
            total_ring::<T>(),
            total_neg::<T>(),
            total_div::<T>(),
            forall|a: T| #[trigger] sin_cos.requires((a,)),
        ensures
            exact_ring::<T>() && T::obeys_neg_spec() && T::obeys_div_spec() && exact_from::<T>()
                ==> exists|h: (T, T), p: (T, T), b: (T, T)|
                {
                    &&& #[trigger] sin_cos.ensures((half_of(e.heading),), h)
                    &&& #[trigger] sin_cos.ensures((half_of(e.pitch),), p)
                    &&& #[trigger] sin_cos.ensures((half_of(e.bank),), b)
                    &&& r == obj_to_inertial_of(h.0, h.1, p.0, p.1, b.0, b.1)
                },
    {
        let one: T = constant(1);
        let two: T = constant(2);
        let half = one / two;
        let h = sin_cos(e.heading * half);
        let p = sin_cos(e.pitch * half);
        let b = sin_cos(e.bank * half);
        let r = Self::obj_to_inertial_from_half_angles(h.0, h.1, p.0, p.1, b.0, b.1);
        proof {
            if exact_ring::<T>() && T::obeys_neg_spec() && T::obeys_div_spec() && exact_from::<T>() {
                assert(sin_cos.ensures((half_of(e.heading),), h));
                assert(sin_cos.ensures((half_of(e.pitch),), p));
                assert(sin_cos.ensures((half_of(e.bank),), b));
            }
        }
        r
    }

    /// The inertial-to-object rotation of the Euler angles `e`, where `sin_cos` gives the
    /// sine and cosine of an angle.
    pub fn inertial_to_obj_from_euler<F: Fn(T) -> (T, T)>(e: EulerAngles<T>, sin_cos: F) -> (r: Self)
        requires
            total_ring::<T>(),
            total_neg::<T>(),
            total_div::<T>(),
            forall|a: T| #[trigger] sin_cos.requires((a,)),
        ensures
            exact_ring::<T>() && T::obeys_neg_spec() && T::obeys_div_spec() && exact_from::<T>()
                ==> exists|h: (T, T), p: (T, T), b: (T, T)|
                {
                    &&& #[trigger] sin_cos.ensures((half_of(e.heading),), h)
                    &&& #[trigger] sin_cos.ensures((half_of(e.pitch),), p)
                    &&& #[trigger] sin_cos.ensures((half_of(e.bank),), b)
                    &&& r == inertial_to_obj_of(h.0, h.1, p.0, p.1, b.0, b.1)
                },
    {
        let one: T = constant(1);
        let two: T = constant(2);
        let half = one / two;
        let h = sin_cos(e.heading * half);
        let p = sin_cos(e.pitch * half);
        let b = sin_cos(e.bank * half);
        let r = Self::inertial_to_obj_from_half_angles(h.0, h.1, p.0, p.1, b.0, b.1);
        proof {
            if exact_ring::<T>() && T::obeys_neg_spec() && T::obeys_div_spec() && exact_from::<T>() {
                assert(sin_cos.ensures((half_of(e.heading),), h));
                assert(sin_cos.ensures((half_of(e.pitch),), p));
                assert(sin_cos.ensures((half_of(e.bank),), b));
            }
        }
        r
    }
}

impl<T: Copy + Add<Output = T> + Sub<Output = T> + Mul<Output = T>> vstd::std_specs::ops::MulSpecImpl for Quaternion<T> {
    open spec fn obeys_mul_spec() -> bool {
        exact_ring::<T>()
    }

    open spec fn mul_req(self, rhs: Quaternion<T>) -> bool {
        total_ring::<T>()
    }

    open spec fn mul_spec(self, rhs: Quaternion<T>) -> Quaternion<T> {
        hamilton(self, rhs)
    }
}

impl<T: Copy + Add<Output = T> + Sub<Output = T> + Mul<Output = T>> Mul for Quaternion<T> {
    type Output = Quaternion<T>;

    /// The Hamilton product: `self * rhs` applies `rhs`'s rotation first, `self` is outer.
    fn mul(self, rhs: Self) -> (r: Self::Output) {
        Quaternion {
            w: self.w * rhs.w - self.x * rhs.x - self.y * rhs.y - self.z * rhs.z,
            x: self.w * rhs.x + self.x * rhs.w + self.y * rhs.z - self.z * rhs.y,
            y: self.w * rhs.y + self.y * rhs.w + self.z * rhs.x - self.x * rhs.z,
            z: self.w * rhs.z + self.z * rhs.w + self.x * rhs.y - self.y * rhs.x,
        }
    }
}

impl<T: Copy + Add<Output = T> + Sub<Output = T> + Mul<Output = T>> MulAssign for Quaternion<T> {
    fn mul_assign(&mut self, rhs: Self)
        requires
            total_ring::<T>(),
        ensures
            exact_ring::<T>() ==> *final(self) == hamilton(*old(self), rhs),
    {
        *self = *self * rhs;
    }
}

/// Slerp endpoints: interpolation at `t = 0` gives `a` itself and at `t = 1` gives `b`
/// itself, whatever the weights, for any scalar whose order ranks 0 below 1.
pub proof fn lemma_slerp_endpoints<T: Add<Output = T> + Mul<Output = T> + Neg<Output = T> + PartialOrd + From<i8>>(
    a: Quaternion<T>,
    b: Quaternion<T>,
    k: (T, T),
)
    requires
        num::<T>(0).partial_cmp_spec(&num::<T>(0)) == Some(Ordering::Equal),
        num::<T>(1).partial_cmp_spec(&num::<T>(1)) == Some(Ordering::Equal),
        num::<T>(1).partial_cmp_spec(&num::<T>(0)) == Some(Ordering::Greater),
    ensures
        slerp_of(a, b, num::<T>(0), k) == a,
        slerp_of(a, b, num::<T>(1), k) == b,
{
}

} // verus!
