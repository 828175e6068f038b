use vstd::prelude::*;
use std::ops::{Add, Div, Mul, Neg, Sub};
use vstd::std_specs::cmp::{PartialOrdIs, PartialOrdSpec};
use vstd::std_specs::convert::FromSpec;
use vstd::std_specs::ops::{AddSpec, DivSpec, MulSpec, NegSpec, SubSpec};

verus! {

/// Addition is defined on every pair of scalars.
pub open spec fn total_add<T: Add<Output = T>>() -> bool {
    forall|a: T, b: T| #[trigger] a.add_req(b)
}

/// Subtraction is defined on every pair of scalars.
pub open spec fn total_sub<T: Sub<Output = T>>() -> bool {
    forall|a: T, b: T| #[trigger] a.sub_req(b)
}

/// Multiplication is defined on every pair of scalars.
pub open spec fn total_mul<T: Mul<Output = T>>() -> bool {
    forall|a: T, b: T| #[trigger] a.mul_req(b)
}

/// Negation is defined on every scalar.
pub open spec fn total_neg<T: Neg<Output = T>>() -> bool {
    forall|a: T| #[trigger] a.neg_req()
}

/// Division is defined on every pair of scalars.
pub open spec fn total_div<T: Div<Output = T>>() -> bool {
    forall|a: T, b: T| #[trigger] a.div_req(b)
}

/// The ring operators compute what their specification functions say.
pub open spec fn exact_ring<T: Add<Output = T> + Sub<Output = T> + Mul<Output = T>>() -> bool {
    &&& T::obeys_add_spec()
    &&& T::obeys_sub_spec()
    &&& T::obeys_mul_spec()
}

/// The ring operators are defined everywhere.
pub open spec fn total_ring<T: Add<Output = T> + Sub<Output = T> + Mul<Output = T>>() -> bool {
    &&& total_add::<T>()
    &&& total_sub::<T>()
    &&& total_mul::<T>()
}

/// Ring operators, negation and conversion from small integers all compute what their
/// specification functions say.
pub open spec fn exact_scalar<T: Add<Output = T> + Sub<Output = T> + Mul<Output = T> + Neg<Output = T> + From<i8>>() -> bool {
    &&& exact_ring::<T>()
    &&& T::obeys_neg_spec()
    &&& exact_from::<T>()
}

/// Ring operators and negation are defined everywhere.
pub open spec fn total_scalar<T: Add<Output = T> + Sub<Output = T> + Mul<Output = T> + Neg<Output = T>>() -> bool {
    &&& total_ring::<T>()
    &&& total_neg::<T>()
}

/// The scalar that the small integer `n` converts to.
pub open spec fn num<T: From<i8>>(n: i8) -> T {
    T::from_spec(n)
}

/// Conversion from small integers is exact: `num(n)` is what `T::from(n)` gives.
pub open spec fn exact_from<T: From<i8>>() -> bool {
    <T as FromSpec<i8>>::obeys_from_spec()
}

/// Negating both factors leaves a product unchanged.
pub open spec fn neg_mul_neg<T: Mul<Output = T> + Neg<Output = T>>() -> bool {
    forall|a: T, b: T| #[trigger] a.neg_spec().mul_spec(b.neg_spec()) == a.mul_spec(b)
}

/// The scalar `n`, converted from a small integer.
pub fn constant<T: From<i8>>(n: i8) -> (r: T)
    ensures
        exact_from::<T>() ==> r == num::<T>(n),
{
    T::from(n)
}

/// The absolute value of `a`.
pub open spec fn magnitude<T: Neg<Output = T> + PartialOrd + From<i8>>(a: T) -> T {
    if a.is_lt(&num::<T>(0)) {
        a.neg_spec()
    } else {
        a
    }
}

/// What `safe_acos` returns: `pi` at or below -1, zero at or above 1, and `acos(x)` between.
pub open spec fn safe_acos_of<T: Neg<Output = T> + PartialOrd + From<i8>, F: Fn(T) -> T>(
    x: T,
    pi: T,
    acos: F,
    r: T,
) -> bool {
    if x.is_le(&num::<T>(-1i8)) {
        r == pi
    } else if x.is_ge(&num::<T>(1)) {
        r == num::<T>(0)
    } else {
        acos.ensures((x,), r)
    }
}

/// The arccosine of `x`, with arguments that round-off pushed just outside `[-1, 1]` clamped
/// to it: `pi` for `x <= -1`, zero for `x >= 1`, and `acos(x)` between.
pub fn safe_acos<T: Copy + Neg<Output = T> + PartialOrd + From<i8>, F: Fn(T) -> T>(
    x: T,
    pi: T,
    acos: F,
) -> (r: T)
    requires
        forall|a: T| #[trigger] acos.requires((a,)),
    ensures
        T::obeys_partial_cmp_spec() && exact_from::<T>() ==> safe_acos_of(x, pi, acos, r),
{
    let minus_one: T = constant(-1);
    let one: T = constant(1);
    if x <= minus_one {
        pi
    } else if x >= one {
        constant(0)
    } else {
        acos(x)
    }
}

/// `angle` moved by whole turns `two_pi` into `(-pi, pi]`: the number of turns is
/// `floor((pi - angle) / two_pi)`, and `floor` is given.
pub open spec fn wrap_pi_of<T: Add<Output = T> + Sub<Output = T> + Mul<Output = T> + Div<Output = T>, F: Fn(T) -> T>(
    angle: T,
    pi: T,
    two_pi: T,
    floor: F,
    r: T,
) -> bool {
    exists|turns: T|
        {
            &&& #[trigger] floor.ensures((pi.sub_spec(angle).div_spec(two_pi),), turns)
            &&& r == angle.add_spec(two_pi.mul_spec(turns))
        }
}

/// Wraps `angle` into `(-pi, pi]` by adding whole turns of `two_pi`; the count of turns comes
/// from `floor`, so an angle already in range is returned as it is.
pub fn wrap_pi<T: Copy + Add<Output = T> + Sub<Output = T> + Mul<Output = T> + Div<Output = T>, F: Fn(T) -> T>(
    angle: T,
    pi: T,
    two_pi: T,
    floor: F,
) -> (r: T)
    requires
        total_ring::<T>(),
        total_div::<T>(),
        forall|a: T| #[trigger] floor.requires((a,)),
    ensures
        exact_ring::<T>() && T::obeys_div_spec() ==> wrap_pi_of(angle, pi, two_pi, floor, r),
{
    let turns = floor((pi - angle) / two_pi);
    angle + two_pi * turns
}

} // verus!
