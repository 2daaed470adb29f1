//! Vectors and matrices generic over their scalar type.
//!
//! Every operation is stated through the specifications that vstd gives to the scalar's
//! operators: for the integer types each result is exact and each `*_req` says that no step
//! overflows. For a scalar whose operators have no such specification (floating point), the
//! contracts say nothing about the result.
use vstd::prelude::*;
use std::ops::{Add, Div, Index, Mul, Neg, Sub};
use vstd::std_specs::ops::{AddSpec, DivSpec, MulSpec, NegSpec, SubSpec};

verus! {

/// A scalar type with the four arithmetic operators and negation; every type that has them
/// is one.
pub trait Number: Copy + Clone + Add<Output = Self> + Sub<Output = Self> + Mul<
    Output = Self,
> + Div<Output = Self> + Neg<Output = Self> {

}

impl<T> Number for T where
    T: Copy + Clone + Add<Output = T> + Sub<Output = T> + Mul<Output = T> + Div<Output = T> + Neg<
        Output = T,
    >,
 {

}

/// Dot product.
pub trait Dot<T>: Sized {
    /// The operands' operators have a specification that the result follows.
    spec fn obeys_dot_spec() -> bool;

    /// Every operation of the product is allowed (for integers: none overflows).
    spec fn dot_req(self, b: Self) -> bool;

    spec fn dot_spec(self, b: Self) -> T;

    fn dot(self, b: Self) -> (r: T)
        requires
            self.dot_req(b),
        ensures
            Self::obeys_dot_spec() ==> r == self.dot_spec(b),
    ;
}

/// Cross product.
pub trait Cross<T>: Sized {
    spec fn obeys_cross_spec() -> bool;

    spec fn cross_req(self, b: Self) -> bool;

    spec fn cross_spec(self, b: Self) -> Self;

    fn cross(self, b: Self) -> (r: Self)
        requires
            self.cross_req(b),
        ensures
            Self::obeys_cross_spec() ==> r == self.cross_spec(b),
    ;
}

/// Linear interpolation `a + (b - a) * t`.
pub trait Lerp<T>: Sized {
    spec fn obeys_lerp_spec() -> bool;

    spec fn lerp_req(a: Self, b: Self, t: T) -> bool;

    spec fn lerp_spec(a: Self, b: Self, t: T) -> Self;

    fn lerp(a: Self, b: Self, t: T) -> (r: Self)
        requires
            Self::lerp_req(a, b, t),
        ensures
            Self::obeys_lerp_spec() ==> r == Self::lerp_spec(a, b, t),
    ;
}

/// The operators of `T` follow their specification.
pub open spec fn obeys_ring<T: Number>() -> bool {
    T::obeys_add_spec() && T::obeys_sub_spec() && T::obeys_mul_spec()
}

/// Sum of three products `a0 * b0 + a1 * b1 + a2 * b2`, grouped from the left.
pub open spec fn sum3<T: Number>(a0: T, b0: T, a1: T, b1: T, a2: T, b2: T) -> T {
    a0.mul_spec(b0).add_spec(a1.mul_spec(b1)).add_spec(a2.mul_spec(b2))
}

/// Every operation of [`sum3`] is allowed.
pub open spec fn sum3_req<T: Number>(a0: T, b0: T, a1: T, b1: T, a2: T, b2: T) -> bool {
    &&& a0.mul_req(b0)
    &&& a1.mul_req(b1)
    &&& a2.mul_req(b2)
    &&& a0.mul_spec(b0).add_req(a1.mul_spec(b1))
    &&& a0.mul_spec(b0).add_spec(a1.mul_spec(b1)).add_req(a2.mul_spec(b2))
}

fn sum3_exec<T: Number>(a0: T, b0: T, a1: T, b1: T, a2: T, b2: T) -> (r: T)
    requires
        obeys_ring::<T>(),
        sum3_req(a0, b0, a1, b1, a2, b2),
    ensures
        r == sum3(a0, b0, a1, b1, a2, b2),
{
    a0 * b0 + a1 * b1 + a2 * b2
}

/// `a * b - c * d`
pub open spec fn diff2<T: Number>(a: T, b: T, c: T, d: T) -> T {
    a.mul_spec(b).sub_spec(c.mul_spec(d))
}

pub open spec fn diff2_req<T: Number>(a: T, b: T, c: T, d: T) -> bool {
    a.mul_req(b) && c.mul_req(d) && a.mul_spec(b).sub_req(c.mul_spec(d))
}

fn diff2_exec<T: Number>(a: T, b: T, c: T, d: T) -> (r: T)
    requires
        obeys_ring::<T>(),
        diff2_req(a, b, c, d),
    ensures
        r == diff2(a, b, c, d),
{
    a * b - c * d
}

/// `a + (b - a) * t`
pub open spec fn lerp1<T: Number>(a: T, b: T, t: T) -> T {
    a.add_spec(b.sub_spec(a).mul_spec(t))
}

pub open spec fn lerp1_req<T: Number>(a: T, b: T, t: T) -> bool {
    b.sub_req(a) && b.sub_spec(a).mul_req(t) && a.add_req(b.sub_spec(a).mul_spec(t))
}

/// A vector of three components.
#[derive(Debug, Copy, Clone, PartialEq, Eq)]
pub struct Vec3<T> {
    pub x: T,
    pub y: T,
    pub z: T,
}

impl<T: Number> Vec3<T> {
    pub fn new(x: T, y: T, z: T) -> (r: Self)
        ensures
            r == (Vec3 { x, y, z }),
    {
        Vec3 { x, y, z }
    }
}

impl<T: Number> Add for Vec3<T> {
    type Output = Self;

    fn add(self, o: Self) -> (r: Self) {
        Vec3 { x: self.x + o.x, y: self.y + o.y, z: self.z + o.z }
    }
}

impl<T: Number> vstd::std_specs::ops::AddSpecImpl for Vec3<T> {
    open spec fn obeys_add_spec() -> bool {
        T::obeys_add_spec()
    }

    open spec fn add_req(self, o: Self) -> bool {
        self.x.add_req(o.x) && self.y.add_req(o.y) && self.z.add_req(o.z)
    }

    open spec fn add_spec(self, o: Self) -> Self {
        Vec3 { x: self.x.add_spec(o.x), y: self.y.add_spec(o.y), z: self.z.add_spec(o.z) }
    }
}

impl<T: Number> Sub for Vec3<T> {
    type Output = Self;

    fn sub(self, o: Self) -> (r: Self) {
        Vec3 { x: self.x - o.x, y: self.y - o.y, z: self.z - o.z }
    }
}

impl<T: Number> vstd::std_specs::ops::SubSpecImpl for Vec3<T> {
    open spec fn obeys_sub_spec() -> bool {
        T::obeys_sub_spec()
    }

    open spec fn sub_req(self, o: Self) -> bool {
        self.x.sub_req(o.x) && self.y.sub_req(o.y) && self.z.sub_req(o.z)
    }

    open spec fn sub_spec(self, o: Self) -> Self {
        Vec3 { x: self.x.sub_spec(o.x), y: self.y.sub_spec(o.y), z: self.z.sub_spec(o.z) }
    }
}

/// Scales every component.
impl<T: Number> Mul<T> for Vec3<T> {
    type Output = Self;

    fn mul(self, s: T) -> (r: Self) {
        Vec3 { x: self.x * s, y: self.y * s, z: self.z * s }
    }
}

impl<T: Number> vstd::std_specs::ops::MulSpecImpl<T> for Vec3<T> {
    open spec fn obeys_mul_spec() -> bool {
        T::obeys_mul_spec()
    }

    open spec fn mul_req(self, s: T) -> bool {
        self.x.mul_req(s) && self.y.mul_req(s) && self.z.mul_req(s)
    }

    open spec fn mul_spec(self, s: T) -> Self {
        Vec3 { x: self.x.mul_spec(s), y: self.y.mul_spec(s), z: self.z.mul_spec(s) }
    }
}

/// Componentwise product.
impl<T: Number> Mul for Vec3<T> {
    type Output = Self;

    fn mul(self, o: Self) -> (r: Self) {
        Vec3 { x: self.x * o.x, y: self.y * o.y, z: self.z * o.z }
    }
}

impl<T: Number> vstd::std_specs::ops::MulSpecImpl for Vec3<T> {
    open spec fn obeys_mul_spec() -> bool {
        T::obeys_mul_spec()
    }

    open spec fn mul_req(self, o: Self) -> bool {
        self.x.mul_req(o.x) && self.y.mul_req(o.y) && self.z.mul_req(o.z)
    }

    open spec fn mul_spec(self, o: Self) -> Self {
        Vec3 { x: self.x.mul_spec(o.x), y: self.y.mul_spec(o.y), z: self.z.mul_spec(o.z) }
    }
}

/// Componentwise quotient.
impl<T: Number> Div for Vec3<T> {
    type Output = Self;

    fn div(self, o: Self) -> (r: Self) {
        Vec3 { x: self.x / o.x, y: self.y / o.y, z: self.z / o.z }
    }
}

impl<T: Number> vstd::std_specs::ops::DivSpecImpl for Vec3<T> {
    open spec fn obeys_div_spec() -> bool {
        T::obeys_div_spec()
    }

    open spec fn div_req(self, o: Self) -> bool {
        self.x.div_req(o.x) && self.y.div_req(o.y) && self.z.div_req(o.z)
    }

    open spec fn div_spec(self, o: Self) -> Self {
        Vec3 { x: self.x.div_spec(o.x), y: self.y.div_spec(o.y), z: self.z.div_spec(o.z) }
    }
}

/// The vector with all three components equal to `v`.
impl<T: Number> From<T> for Vec3<T> {
    fn from(v: T) -> (r: Self) {
        Vec3 { x: v, y: v, z: v }
    }
}

impl<T: Number> vstd::std_specs::convert::FromSpecImpl<T> for Vec3<T> {
    open spec fn obeys_from_spec() -> bool {
        true
    }

    open spec fn from_spec(v: T) -> Self {
        Vec3 { x: v, y: v, z: v }
    }
}

impl<T: Number> From<[T; 3]> for Vec3<T> {
    fn from(a: [T; 3]) -> (r: Self) {
        Vec3 { x: a[0], y: a[1], z: a[2] }
    }
}

impl<T: Number> vstd::std_specs::convert::FromSpecImpl<[T; 3]> for Vec3<T> {
    open spec fn obeys_from_spec() -> bool {
        true
    }

    open spec fn from_spec(a: [T; 3]) -> Self {
        Vec3 { x: a@[0], y: a@[1], z: a@[2] }
    }
}

/// Adds a scalar to every component.
impl<T: Number> Add<T> for Vec3<T> {
    type Output = Self;

    fn add(self, s: T) -> (r: Self) {
        Vec3 { x: self.x + s, y: self.y + s, z: self.z + s }
    }
}

impl<T: Number> vstd::std_specs::ops::AddSpecImpl<T> for Vec3<T> {
    open spec fn obeys_add_spec() -> bool {
        T::obeys_add_spec()
    }

    open spec fn add_req(self, s: T) -> bool {
        self.x.add_req(s) && self.y.add_req(s) && self.z.add_req(s)
    }

    open spec fn add_spec(self, s: T) -> Self {
        Vec3 { x: self.x.add_spec(s), y: self.y.add_spec(s), z: self.z.add_spec(s) }
    }
}

/// Subtracts a scalar from every component.
impl<T: Number> Sub<T> for Vec3<T> {
    type Output = Self;

    fn sub(self, s: T) -> (r: Self) {
        Vec3 { x: self.x - s, y: self.y - s, z: self.z - s }
    }
}

impl<T: Number> vstd::std_specs::ops::SubSpecImpl<T> for Vec3<T> {
    open spec fn obeys_sub_spec() -> bool {
        T::obeys_sub_spec()
    }

    open spec fn sub_req(self, s: T) -> bool {
        self.x.sub_req(s) && self.y.sub_req(s) && self.z.sub_req(s)
    }

    open spec fn sub_spec(self, s: T) -> Self {
        Vec3 { x: self.x.sub_spec(s), y: self.y.sub_spec(s), z: self.z.sub_spec(s) }
    }
}

/// Divides every component by a scalar.
impl<T: Number> Div<T> for Vec3<T> {
    type Output = Self;

    fn div(self, s: T) -> (r: Self) {
        Vec3 { x: self.x / s, y: self.y / s, z: self.z / s }
    }
}

impl<T: Number> vstd::std_specs::ops::DivSpecImpl<T> for Vec3<T> {
    open spec fn obeys_div_spec() -> bool {
        T::obeys_div_spec()
    }

    open spec fn div_req(self, s: T) -> bool {
        self.x.div_req(s) && self.y.div_req(s) && self.z.div_req(s)
    }

    open spec fn div_spec(self, s: T) -> Self {
        Vec3 { x: self.x.div_spec(s), y: self.y.div_spec(s), z: self.z.div_spec(s) }
    }
}

impl<T: Number> From<(T, T, T)> for Vec3<T> {
    fn from(t: (T, T, T)) -> (r: Self) {
        Vec3 { x: t.0, y: t.1, z: t.2 }
    }
}

impl<T: Number> vstd::std_specs::convert::FromSpecImpl<(T, T, T)> for Vec3<T> {
    open spec fn obeys_from_spec() -> bool {
        true
    }

    open spec fn from_spec(t: (T, T, T)) -> Self {
        Vec3 { x: t.0, y: t.1, z: t.2 }
    }
}

impl<T: Number> Neg for Vec3<T> {
    type Output = Self;

    fn neg(self) -> (r: Self) {
        Vec3 { x: self.x.neg(), y: self.y.neg(), z: self.z.neg() }
    }
}

impl<T: Number> vstd::std_specs::ops::NegSpecImpl for Vec3<T> {
    open spec fn obeys_neg_spec() -> bool {
        T::obeys_neg_spec()
    }

    open spec fn neg_req(self) -> bool {
        self.x.neg_req() && self.y.neg_req() && self.z.neg_req()
    }

    open spec fn neg_spec(self) -> Self {
        Vec3 { x: self.x.neg_spec(), y: self.y.neg_spec(), z: self.z.neg_spec() }
    }
}

impl<T: Number> Dot<T> for Vec3<T> {
    open spec fn obeys_dot_spec() -> bool {
        obeys_ring::<T>()
    }

    open spec fn dot_req(self, b: Self) -> bool {
        obeys_ring::<T>() && sum3_req(self.x, b.x, self.y, b.y, self.z, b.z)
    }

    open spec fn dot_spec(self, b: Self) -> T {
        sum3(self.x, b.x, self.y, b.y, self.z, b.z)
    }

    fn dot(self, b: Self) -> (r: T) {
        sum3_exec(self.x, b.x, self.y, b.y, self.z, b.z)
    }
}

impl<T: Number> Cross<T> for Vec3<T> {
    open spec fn obeys_cross_spec() -> bool {
        obeys_ring::<T>()
    }

    open spec fn cross_req(self, b: Self) -> bool {
        &&& obeys_ring::<T>()
        &&& diff2_req(self.y, b.z, self.z, b.y)
        &&& diff2_req(self.z, b.x, self.x, b.z)
        &&& diff2_req(self.x, b.y, self.y, b.x)
    }

    open spec fn cross_spec(self, b: Self) -> Self {
        Vec3 {
            x: diff2(self.y, b.z, self.z, b.y),
            y: diff2(self.z, b.x, self.x, b.z),
            z: diff2(self.x, b.y, self.y, b.x),
        }
    }

    fn cross(self, b: Self) -> (r: Self) {
        Vec3 {
            x: diff2_exec(self.y, b.z, self.z, b.y),
            y: diff2_exec(self.z, b.x, self.x, b.z),
            z: diff2_exec(self.x, b.y, self.y, b.x),
        }
    }
}

impl<T: Number> Lerp<T> for Vec3<T> {
    open spec fn obeys_lerp_spec() -> bool {
        obeys_ring::<T>()
    }

    open spec fn lerp_req(a: Self, b: Self, t: T) -> bool {
        obeys_ring::<T>() && lerp1_req(a.x, b.x, t) && lerp1_req(a.y, b.y, t) && lerp1_req(a.z, b.z, t)
    }

    open spec fn lerp_spec(a: Self, b: Self, t: T) -> Self {
        Vec3 { x: lerp1(a.x, b.x, t), y: lerp1(a.y, b.y, t), z: lerp1(a.z, b.z, t) }
    }

    fn lerp(a: Self, b: Self, t: T) -> (r: Self) {
        a + (b - a) * t
    }
}

/// A vector of two components.
#[derive(Debug, Copy, Clone, PartialEq, Eq)]
pub struct Vec2<T> {
    pub x: T,
    pub y: T,
}

impl<T: Number> Vec2<T> {
    pub fn new(x: T, y: T) -> (r: Self)
        ensures
            r == (Vec2 { x, y }),
    {
        Vec2 { x, y }
    }
}

/// Componentwise sum.
impl<T: Number> Add for Vec2<T> {
    type Output = Self;

    fn add(self, o: Self) -> (r: Self) {
        Vec2 { x: self.x + o.x, y: self.y + o.y }
    }
}

impl<T: Number> vstd::std_specs::ops::AddSpecImpl for Vec2<T> {
    open spec fn obeys_add_spec() -> bool {
        T::obeys_add_spec()
    }

    open spec fn add_req(self, o: Self) -> bool {
        self.x.add_req(o.x) && self.y.add_req(o.y)
    }

    open spec fn add_spec(self, o: Self) -> Self {
        Vec2 { x: self.x.add_spec(o.x), y: self.y.add_spec(o.y) }
    }
}

/// Componentwise difference.
impl<T: Number> Sub for Vec2<T> {
    type Output = Self;

    fn sub(self, o: Self) -> (r: Self) {
        Vec2 { x: self.x - o.x, y: self.y - o.y }
    }
}

impl<T: Number> vstd::std_specs::ops::SubSpecImpl for Vec2<T> {
    open spec fn obeys_sub_spec() -> bool {
        T::obeys_sub_spec()
    }

    open spec fn sub_req(self, o: Self) -> bool {
        self.x.sub_req(o.x) && self.y.sub_req(o.y)
    }

    open spec fn sub_spec(self, o: Self) -> Self {
        Vec2 { x: self.x.sub_spec(o.x), y: self.y.sub_spec(o.y) }
    }
}

/// Componentwise product.
impl<T: Number> Mul for Vec2<T> {
    type Output = Self;

    fn mul(self, o: Self) -> (r: Self) {
        Vec2 { x: self.x * o.x, y: self.y * o.y }
    }
}

impl<T: Number> vstd::std_specs::ops::MulSpecImpl for Vec2<T> {
    open spec fn obeys_mul_spec() -> bool {
        T::obeys_mul_spec()
    }

    open spec fn mul_req(self, o: Self) -> bool {
        self.x.mul_req(o.x) && self.y.mul_req(o.y)
    }

    open spec fn mul_spec(self, o: Self) -> Self {
        Vec2 { x: self.x.mul_spec(o.x), y: self.y.mul_spec(o.y) }
    }
}

/// Componentwise quotient.
impl<T: Number> Div for Vec2<T> {
    type Output = Self;

    fn div(self, o: Self) -> (r: Self) {
        Vec2 { x: self.x / o.x, y: self.y / o.y }
    }
}

impl<T: Number> vstd::std_specs::ops::DivSpecImpl for Vec2<T> {
    open spec fn obeys_div_spec() -> bool {
        T::obeys_div_spec()
    }

    open spec fn div_req(self, o: Self) -> bool {
        self.x.div_req(o.x) && self.y.div_req(o.y)
    }

    open spec fn div_spec(self, o: Self) -> Self {
        Vec2 { x: self.x.div_spec(o.x), y: self.y.div_spec(o.y) }
    }
}

/// Adds a scalar to both components.
impl<T: Number> Add<T> for Vec2<T> {
    type Output = Self;

    fn add(self, s: T) -> (r: Self) {
        Vec2 { x: self.x + s, y: self.y + s }
    }
}

impl<T: Number> vstd::std_specs::ops::AddSpecImpl<T> for Vec2<T> {
    open spec fn obeys_add_spec() -> bool {
        T::obeys_add_spec()
    }

    open spec fn add_req(self, s: T) -> bool {
        self.x.add_req(s) && self.y.add_req(s)
    }

    open spec fn add_spec(self, s: T) -> Self {
        Vec2 { x: self.x.add_spec(s), y: self.y.add_spec(s) }
    }
}

/// Subtracts a scalar from both components.
impl<T: Number> Sub<T> for Vec2<T> {
    type Output = Self;

    fn sub(self, s: T) -> (r: Self) {
        Vec2 { x: self.x - s, y: self.y - s }
    }
}

impl<T: Number> vstd::std_specs::ops::SubSpecImpl<T> for Vec2<T> {
    open spec fn obeys_sub_spec() -> bool {
        T::obeys_sub_spec()
    }

    open spec fn sub_req(self, s: T) -> bool {
        self.x.sub_req(s) && self.y.sub_req(s)
    }

    open spec fn sub_spec(self, s: T) -> Self {
        Vec2 { x: self.x.sub_spec(s), y: self.y.sub_spec(s) }
    }
}

/// Scales both components.
impl<T: Number> Mul<T> for Vec2<T> {
    type Output = Self;

    fn mul(self, s: T) -> (r: Self) {
        Vec2 { x: self.x * s, y: self.y * s }
    }
}

impl<T: Number> vstd::std_specs::ops::MulSpecImpl<T> for Vec2<T> {
    open spec fn obeys_mul_spec() -> bool {
        T::obeys_mul_spec()
    }

    open spec fn mul_req(self, s: T) -> bool {
        self.x.mul_req(s) && self.y.mul_req(s)
    }

    open spec fn mul_spec(self, s: T) -> Self {
        Vec2 { x: self.x.mul_spec(s), y: self.y.mul_spec(s) }
    }
}

/// Divides both components by a scalar.
impl<T: Number> Div<T> for Vec2<T> {
    type Output = Self;

    fn div(self, s: T) -> (r: Self) {
        Vec2 { x: self.x / s, y: self.y / s }
    }
}

impl<T: Number> vstd::std_specs::ops::DivSpecImpl<T> for Vec2<T> {
    open spec fn obeys_div_spec() -> bool {
        T::obeys_div_spec()
    }

    open spec fn div_req(self, s: T) -> bool {
        self.x.div_req(s) && self.y.div_req(s)
    }

    open spec fn div_spec(self, s: T) -> Self {
        Vec2 { x: self.x.div_spec(s), y: self.y.div_spec(s) }
    }
}

/// The vector with both components equal to `v`.
impl<T: Number> From<T> for Vec2<T> {
    fn from(v: T) -> (r: Self) {
        Vec2 { x: v, y: v }
    }
}

impl<T: Number> vstd::std_specs::convert::FromSpecImpl<T> for Vec2<T> {
    open spec fn obeys_from_spec() -> bool {
        true
    }

    open spec fn from_spec(v: T) -> Self {
        Vec2 { x: v, y: v }
    }
}

impl<T: Number> From<(T, T)> for Vec2<T> {
    fn from(t: (T, T)) -> (r: Self) {
        Vec2 { x: t.0, y: t.1 }
    }
}

impl<T: Number> vstd::std_specs::convert::FromSpecImpl<(T, T)> for Vec2<T> {
    open spec fn obeys_from_spec() -> bool {
        true
    }

    open spec fn from_spec(t: (T, T)) -> Self {
        Vec2 { x: t.0, y: t.1 }
    }
}

impl<T: Number> Lerp<T> for Vec2<T> {
    open spec fn obeys_lerp_spec() -> bool {
        obeys_ring::<T>()
    }

    open spec fn lerp_req(a: Self, b: Self, t: T) -> bool {
        obeys_ring::<T>() && lerp1_req(a.x, b.x, t) && lerp1_req(a.y, b.y, t)
    }

    open spec fn lerp_spec(a: Self, b: Self, t: T) -> Self {
        Vec2 { x: lerp1(a.x, b.x, t), y: lerp1(a.y, b.y, t) }
    }

    fn lerp(a: Self, b: Self, t: T) -> (r: Self) {
        a + (b - a) * t
    }
}

/// A 3x3 matrix, stored row by row.
#[derive(Debug, Copy, Clone, PartialEq, Eq)]
pub struct Mat3<T> {
    pub m: [T; 9],
}

/// Entry `(i, j)` of the product of the row-major matrices `a` and `b`.
pub open spec fn product_entry<T: Number>(a: [T; 9], b: [T; 9], i: int, j: int) -> T {
    sum3(a@[3 * i], b@[j], a@[3 * i + 1], b@[3 + j], a@[3 * i + 2], b@[6 + j])
}

/// Every operation that entry `(i, j)` of the product takes is allowed.
pub open spec fn product_entry_req<T: Number>(a: [T; 9], b: [T; 9], i: int, j: int) -> bool {
    sum3_req(a@[3 * i], b@[j], a@[3 * i + 1], b@[3 + j], a@[3 * i + 2], b@[6 + j])
}

fn product_entry_exec<T: Number>(a: &[T; 9], b: &[T; 9], i: usize, j: usize) -> (r: T)
    requires
        i < 3,
        j < 3,
        obeys_ring::<T>(),
        product_entry_req(*a, *b, i as int, j as int),
    ensures
        r == product_entry(*a, *b, i as int, j as int),
{
    sum3_exec(a[3 * i], b[j], a[3 * i + 1], b[3 + j], a[3 * i + 2], b[6 + j])
}

impl<T: Number> From<[T; 9]> for Mat3<T> {
    fn from(m: [T; 9]) -> (r: Self) {
        Mat3 { m }
    }
}

impl<T: Number> vstd::std_specs::convert::FromSpecImpl<[T; 9]> for Mat3<T> {
    open spec fn obeys_from_spec() -> bool {
        true
    }

    open spec fn from_spec(m: [T; 9]) -> Self {
        Mat3 { m }
    }
}

/// Matrix product.
impl<T: Number> Mul for Mat3<T> {
    type Output = Self;

    fn mul(self, o: Self) -> (r: Self) {
        let a = &self.m;
        let b = &o.m;
        Mat3 {
            m: [
                product_entry_exec(a, b, 0, 0),
                product_entry_exec(a, b, 0, 1),
                product_entry_exec(a, b, 0, 2),
                product_entry_exec(a, b, 1, 0),
                product_entry_exec(a, b, 1, 1),
                product_entry_exec(a, b, 1, 2),
                product_entry_exec(a, b, 2, 0),
                product_entry_exec(a, b, 2, 1),
                product_entry_exec(a, b, 2, 2),
            ],
        }
    }
}

impl<T: Number> vstd::std_specs::ops::MulSpecImpl for Mat3<T> {
    open spec fn obeys_mul_spec() -> bool {
        obeys_ring::<T>()
    }

    open spec fn mul_req(self, o: Self) -> bool {
        &&& obeys_ring::<T>()
        &&& forall|i: int, j: int|
            0 <= i < 3 && 0 <= j < 3 ==> #[trigger] product_entry_req(self.m, o.m, i, j)
    }

    open spec fn mul_spec(self, o: Self) -> Self {
        Mat3 {
            m: [
                product_entry(self.m, o.m, 0, 0),
                product_entry(self.m, o.m, 0, 1),
                product_entry(self.m, o.m, 0, 2),
                product_entry(self.m, o.m, 1, 0),
                product_entry(self.m, o.m, 1, 1),
                product_entry(self.m, o.m, 1, 2),
                product_entry(self.m, o.m, 2, 0),
                product_entry(self.m, o.m, 2, 1),
                product_entry(self.m, o.m, 2, 2),
            ],
        }
    }
}

/// Row `i` of `a` times the column vector `v`.
pub open spec fn row_times<T: Number>(a: [T; 9], i: int, v: Vec3<T>) -> T {
    sum3(a@[3 * i], v.x, a@[3 * i + 1], v.y, a@[3 * i + 2], v.z)
}

pub open spec fn row_times_req<T: Number>(a: [T; 9], i: int, v: Vec3<T>) -> bool {
    sum3_req(a@[3 * i], v.x, a@[3 * i + 1], v.y, a@[3 * i + 2], v.z)
}

fn row_times_exec<T: Number>(a: &[T; 9], i: usize, v: Vec3<T>) -> (r: T)
    requires
        i < 3,
        obeys_ring::<T>(),
        row_times_req(*a, i as int, v),
    ensures
        r == row_times(*a, i as int, v),
{
    sum3_exec(a[3 * i], v.x, a[3 * i + 1], v.y, a[3 * i + 2], v.z)
}

/// Matrix times column vector.
impl<T: Number> Mul<Vec3<T>> for Mat3<T> {
    type Output = Vec3<T>;

    fn mul(self, v: Vec3<T>) -> (r: Vec3<T>) {
        let a = &self.m;
        Vec3 { x: row_times_exec(a, 0, v), y: row_times_exec(a, 1, v), z: row_times_exec(a, 2, v) }
    }
}

impl<T: Number> vstd::std_specs::ops::MulSpecImpl<Vec3<T>> for Mat3<T> {
    open spec fn obeys_mul_spec() -> bool {
        obeys_ring::<T>()
    }

    open spec fn mul_req(self, v: Vec3<T>) -> bool {
        &&& obeys_ring::<T>()
        &&& forall|i: int| 0 <= i < 3 ==> #[trigger] row_times_req(self.m, i, v)
    }

    open spec fn mul_spec(self, v: Vec3<T>) -> Vec3<T> {
        Vec3 { x: row_times(self.m, 0, v), y: row_times(self.m, 1, v), z: row_times(self.m, 2, v) }
    }
}

/// The matrix whose rows are the three given vectors.
impl<T: Number> From<[Vec3<T>; 3]> for Mat3<T> {
    fn from(rows: [Vec3<T>; 3]) -> (r: Self) {
        let a = rows[0];
        let b = rows[1];
        let c = rows[2];
        Mat3 { m: [a.x, a.y, a.z, b.x, b.y, b.z, c.x, c.y, c.z] }
    }
}

impl<T: Number> vstd::std_specs::convert::FromSpecImpl<[Vec3<T>; 3]> for Mat3<T> {
    open spec fn obeys_from_spec() -> bool {
        true
    }

    open spec fn from_spec(rows: [Vec3<T>; 3]) -> Self {
        Mat3 {
            m: [
                rows@[0].x,
                rows@[0].y,
                rows@[0].z,
                rows@[1].x,
                rows@[1].y,
                rows@[1].z,
                rows@[2].x,
                rows@[2].y,
                rows@[2].z,
            ],
        }
    }
}

/// Component `i` of the vector: `x`, `y`, `z` for 0, 1, 2, and `z` for any larger index.
impl<T> Index<usize> for Vec3<T> {
    type Output = T;

    fn index(&self, i: usize) -> (r: &T)
        ensures
            *r == if i == 0 {
                self.x
            } else if i == 1 {
                self.y
            } else {
                self.z
            },
    {
        match i {
            0 => &self.x,
            1 => &self.y,
            _ => &self.z,
        }
    }
}

} // verus!
