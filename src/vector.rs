use vstd::prelude::*;
use std::ops::{Add, AddAssign, Div, DivAssign, Mul, MulAssign, Neg, Sub, SubAssign};
use vstd::std_specs::cmp::PartialOrdIs;
use vstd::std_specs::ops::{AddSpec, DivSpec, MulSpec, NegSpec, SubSpec};
use crate::scalar::{exact_ring, num, total_div, total_mul, total_ring};

verus! {

/// A three-component vector over the scalar type `T`.
#[derive(Debug, Clone, Copy, PartialEq)]
pub struct V3<T> {
    pub x: T,
    pub y: T,
    pub z: T,
}

/// Componentwise product of two vectors.
pub open spec fn hadamard<T: Mul<Output = T>>(a: V3<T>, b: V3<T>) -> V3<T> {
    V3 { x: a.x.mul_spec(b.x), y: a.y.mul_spec(b.y), z: a.z.mul_spec(b.z) }
}

/// Cross product `a × b`.
pub open spec fn cross_of<T: Sub<Output = T> + Mul<Output = T>>(a: V3<T>, b: V3<T>) -> V3<T> {
    V3 {
        x: a.y.mul_spec(b.z).sub_spec(a.z.mul_spec(b.y)),
        y: a.z.mul_spec(b.x).sub_spec(a.x.mul_spec(b.z)),
        z: a.x.mul_spec(b.y).sub_spec(a.y.mul_spec(b.x)),
    }
}

/// Every component of `v` multiplied by `k` (on the right).
pub open spec fn scale<T: Mul<Output = T>>(v: V3<T>, k: T) -> V3<T> {
    V3 { x: v.x.mul_spec(k), y: v.y.mul_spec(k), z: v.z.mul_spec(k) }
}

/// Every component of `v` divided by `k`.
pub open spec fn shrink<T: Div<Output = T>>(v: V3<T>, k: T) -> V3<T> {
    V3 { x: v.x.div_spec(k), y: v.y.div_spec(k), z: v.z.div_spec(k) }
}

/// The sum of the squares of the components.
pub open spec fn norm_sq<T: Add<Output = T> + Mul<Output = T>>(v: V3<T>) -> T {
    v.x.mul_spec(v.x).add_spec(v.y.mul_spec(v.y)).add_spec(v.z.mul_spec(v.z))
}

/// `v` has length one to within about one percent: its squared length lies in
/// `[49/50, 51/50]`.
pub open spec fn near_unit<T: Add<Output = T> + Mul<Output = T> + Div<Output = T> + PartialOrd + From<i8>>(
    v: V3<T>,
) -> bool {
    &&& num::<T>(49).div_spec(num::<T>(50)).is_le(&norm_sq(v))
    &&& norm_sq(v).is_le(&num::<T>(51).div_spec(num::<T>(50)))
}

impl<T: Copy> V3<T> {
    pub fn new(x: T, y: T, z: T) -> (r: Self)
        ensures
            r == (V3 { x, y, z }),
    {
        V3 { x, y, z }
    }

    pub fn x(&self) -> (r: T)
        ensures
            r == self.x,
    {
        self.x
    }

    pub fn y(&self) -> (r: T)
        ensures
            r == self.y,
    {
        self.y
    }

    pub fn z(&self) -> (r: T)
        ensures
            r == self.z,
    {
        self.z
    }
}

impl<T: Copy + Default> V3<T> {
    /// Sets every component to the scalar's default value (zero for numbers).
    pub fn zero(&mut self)
        ensures
            final(self).x == final(self).y,
            final(self).y == final(self).z,
    {
        let d = T::default();
        self.x = d;
        self.y = d;
        self.z = d;
    }
}

impl<T: Copy + Mul<Output = T>> V3<T> {
    /// Componentwise product.
    pub fn dot(&self, rhs: &Self) -> (r: Self)
        requires
            self.x.mul_req(rhs.x),
            self.y.mul_req(rhs.y),
            self.z.mul_req(rhs.z),
        ensures
            T::obeys_mul_spec() ==> r == hadamard(*self, *rhs),
    {
        V3 { x: self.x * rhs.x, y: self.y * rhs.y, z: self.z * rhs.z }
    }
}

impl<T: Copy + Add<Output = T> + Sub<Output = T> + Mul<Output = T>> V3<T> {
    /// Cross product `self × rhs`.
    pub fn cross(&self, rhs: &Self) -> (r: Self)
        requires
            total_ring::<T>(),
        ensures
            exact_ring::<T>() ==> r == cross_of(*self, *rhs),
    {
        V3 {
            x: self.y * rhs.z - self.z * rhs.y,
            y: self.z * rhs.x - self.x * rhs.z,
            z: self.x * rhs.y - self.y * rhs.x,
        }
    }
}

impl<T: Copy + Add<Output = T> + Sub<Output = T> + Mul<Output = T> + Div<Output = T>> V3<T> {
    /// The length of the vector, where `sqrt` is the square root.
    pub fn mag<F: Fn(T) -> T>(&self, sqrt: F) -> (r: T)
        requires
            total_ring::<T>(),
            forall|a: T| #[trigger] sqrt.requires((a,)),
        ensures
            exact_ring::<T>() ==> sqrt.ensures((norm_sq(*self),), r),
    {
        sqrt(self.x * self.x + self.y * self.y + self.z * self.z)
    }

    /// The vector divided by its length, where `sqrt` is the square root.
    pub fn normalize<F: Fn(T) -> T>(&self, sqrt: F) -> (r: Self)
        requires
            total_ring::<T>(),
            total_div::<T>(),
            forall|a: T| #[trigger] sqrt.requires((a,)),
        ensures
            exact_ring::<T>() && T::obeys_div_spec() ==> exists|m: T|
                #[trigger] sqrt.ensures((norm_sq(*self),), m) && r == shrink(*self, m),
    {
        let m = self.mag(sqrt);
        *self / m
    }

    /// The distance between the two points, where `sqrt` is the square root.
    pub fn distance<F: Fn(T) -> T>(&self, rhs: &Self, sqrt: F) -> (r: T)
        requires
            total_ring::<T>(),
            forall|a: T| #[trigger] sqrt.requires((a,)),
        ensures
            exact_ring::<T>() ==> sqrt.ensures((norm_sq(self.sub_spec(*rhs)),), r),
    {
        (*self - *rhs).mag(sqrt)
    }
}

impl<T: Copy + Add<Output = T>> vstd::std_specs::ops::AddSpecImpl for V3<T> {
    open spec fn obeys_add_spec() -> bool {
        T::obeys_add_spec()
    }

    open spec fn add_req(self, rhs: V3<T>) -> bool {
        &&& self.x.add_req(rhs.x)
        &&& self.y.add_req(rhs.y)
        &&& self.z.add_req(rhs.z)
    }

    open spec fn add_spec(self, rhs: V3<T>) -> V3<T> {
        V3 { x: self.x.add_spec(rhs.x), y: self.y.add_spec(rhs.y), z: self.z.add_spec(rhs.z) }
    }
}

impl<T: Copy + Add<Output = T>> Add for V3<T> {
    type Output = V3<T>;

    fn add(self, rhs: Self) -> (r: Self::Output) {
        V3 { x: self.x + rhs.x, y: self.y + rhs.y, z: self.z + rhs.z }
    }
}

impl<T: Copy + Add<Output = T>> AddAssign for V3<T> {
    fn add_assign(&mut self, rhs: Self)
        requires
            old(self).add_req(rhs),
        ensures
            T::obeys_add_spec() ==> *final(self) == old(self).add_spec(rhs),
    {
        *self = *self + rhs;
    }
}

impl<T: Copy + Sub<Output = T>> vstd::std_specs::ops::SubSpecImpl for V3<T> {
    open spec fn obeys_sub_spec() -> bool {
        T::obeys_sub_spec()
    }

    open spec fn sub_req(self, rhs: V3<T>) -> bool {
        &&& self.x.sub_req(rhs.x)
        &&& self.y.sub_req(rhs.y)
        &&& self.z.sub_req(rhs.z)
    }

    open spec fn sub_spec(self, rhs: V3<T>) -> V3<T> {
        V3 { x: self.x.sub_spec(rhs.x), y: self.y.sub_spec(rhs.y), z: self.z.sub_spec(rhs.z) }
    }
}

impl<T: Copy + Sub<Output = T>> Sub for V3<T> {
    type Output = V3<T>;

    fn sub(self, rhs: Self) -> (r: Self::Output) {
        V3 { x: self.x - rhs.x, y: self.y - rhs.y, z: self.z - rhs.z }
    }
}

impl<T: Copy + Sub<Output = T>> SubAssign for V3<T> {
    fn sub_assign(&mut self, rhs: Self)
        requires
            old(self).sub_req(rhs),
        ensures
            T::obeys_sub_spec() ==> *final(self) == old(self).sub_spec(rhs),
    {
        *self = *self - rhs;
    }
}

impl<T: Copy + Neg<Output = T>> vstd::std_specs::ops::NegSpecImpl for V3<T> {
    open spec fn obeys_neg_spec() -> bool {
        T::obeys_neg_spec()
    }

    open spec fn neg_req(self) -> bool {
        &&& self.x.neg_req()
        &&& self.y.neg_req()
        &&& self.z.neg_req()
    }

    open spec fn neg_spec(self) -> V3<T> {
        V3 { x: self.x.neg_spec(), y: self.y.neg_spec(), z: self.z.neg_spec() }
    }
}

impl<T: Copy + Neg<Output = T>> Neg for V3<T> {
    type Output = V3<T>;

    fn neg(self) -> (r: Self::Output) {
        V3 { x: self.x.neg(), y: self.y.neg(), z: self.z.neg() }
    }
}

impl<T: Copy + Mul<Output = T>> vstd::std_specs::ops::MulSpecImpl<T> for V3<T> {
    open spec fn obeys_mul_spec() -> bool {
        T::obeys_mul_spec()
    }

    open spec fn mul_req(self, k: T) -> bool {
        &&& self.x.mul_req(k)
        &&& self.y.mul_req(k)
        &&& self.z.mul_req(k)
    }

    open spec fn mul_spec(self, k: T) -> V3<T> {
        scale(self, k)
    }
}

impl<T: Copy + Mul<Output = T>> Mul<T> for V3<T> {
    type Output = V3<T>;

    fn mul(self, k: T) -> (r: Self::Output) {
        V3 { x: self.x * k, y: self.y * k, z: self.z * k }
    }
}

impl<T: Copy + Mul<Output = T>> MulAssign<T> for V3<T> {
    fn mul_assign(&mut self, k: T)
        requires
            old(self).mul_req(k),
        ensures
            T::obeys_mul_spec() ==> *final(self) == scale(*old(self), k),
    {
        *self = *self * k;
    }
}

impl<T: Copy + Div<Output = T>> vstd::std_specs::ops::DivSpecImpl<T> for V3<T> {
    open spec fn obeys_div_spec() -> bool {
        T::obeys_div_spec()
    }

    open spec fn div_req(self, k: T) -> bool {
        &&& self.x.div_req(k)
        &&& self.y.div_req(k)
        &&& self.z.div_req(k)
    }

    open spec fn div_spec(self, k: T) -> V3<T> {
        shrink(self, k)
    }
}

impl<T: Copy + Div<Output = T>> Div<T> for V3<T> {
    type Output = V3<T>;

    fn div(self, k: T) -> (r: Self::Output) {
        V3 { x: self.x / k, y: self.y / k, z: self.z / k }
    }
}

impl<T: Copy + Div<Output = T>> DivAssign<T> for V3<T> {
    fn div_assign(&mut self, k: T)
        requires
            old(self).div_req(k),
        ensures
            T::obeys_div_spec() ==> *final(self) == shrink(*old(self), k),
    {
        *self = *self / k;
    }
}

} // verus!
