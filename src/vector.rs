//! Vectors of two, three and four components over a scalar type `T`.
//!
//! Arithmetic is stated over the scalar's own operator specifications
//! (`add_spec`, `sub_spec`, `mul_spec`): each vector operation performs
//! exactly the scalar operations of its formula, in the order given. Scalars
//! whose operators have an exact specification (the integer types) get exact
//! results from these contracts; floating-point scalars run the same code.
use vstd::prelude::*;
use vstd::std_specs::ops::{AddSpec, MulSpec, SubSpec};

verus! {

/// Two-component vector with axes `x`, `y`.
#[derive(Clone, Copy, Debug, Default, PartialEq)]
pub struct Vec2<T> {
    pub x: T,
    pub y: T,
}

impl<T: Copy> Vec2<T> {
    /// The components in axis order.
    pub open spec fn view_seq(self) -> Seq<T> {
        seq![self.x, self.y]
    }

    /// Full constructor.
    pub fn new(x: T, y: T) -> (r: Self)
        ensures
            r.x == x,
            r.y == y,
    {
        Vec2 { x, y }
    }

    /// The components as an array, in axis order.
    pub fn to_array(self) -> (r: [T; 2])
        ensures
            r@ == self.view_seq(),
    {
        [self.x, self.y]
    }

    /// Applies `f` to every component, e.g. to change the scalar's precision.
    pub fn map<U: Copy, F: Fn(T) -> U>(self, f: F) -> (r: Vec2<U>)
        requires
            f.requires((self.x,)),
            f.requires((self.y,)),
        ensures
            f.ensures((self.x,), r.x),
            f.ensures((self.y,), r.y),
    {
        Vec2 { x: f(self.x), y: f(self.y) }
    }

    /// Holds when `p` holds of every pair of corresponding components.
    pub open spec fn all_pairs(self, other: Self, p: spec_fn(T, T) -> bool) -> bool {
        p(self.x, other.x) && p(self.y, other.y)
    }

    /// Compares componentwise with the scalar comparison `f` and requires
    /// every component to pass; stops at the first failing one.
    pub fn eq_by<F: Fn(T, T) -> bool>(&self, other: &Self, f: &F) -> (r: bool)
        requires
            forall|a: T, b: T| f.requires((a, b)),
        ensures
            r ==> self.all_pairs(*other, |a: T, b: T| f.ensures((a, b), true)),
            !r ==> !self.all_pairs(*other, |a: T, b: T| !f.ensures((a, b), false)),
    {
        f(self.x, other.x) && f(self.y, other.y)
    }
}

impl<T: Copy + Default> Vec2<T> {
    /// All components set to the scalar's default value (zero for numbers).
    pub fn zero() -> (r: Self)
        ensures
            call_ensures(T::default, (), r.x),
            r.y == r.x,
    {
        let v = T::default();
        Vec2 { x: v, y: v }
    }
}

impl<T: Copy> From<T> for Vec2<T> {
    /// Broadcast: every component set to `v`.
    fn from(v: T) -> (r: Self) {
        Vec2 { x: v, y: v }
    }
}

impl<T: Copy> vstd::std_specs::convert::FromSpecImpl<T> for Vec2<T> {
    open spec fn obeys_from_spec() -> bool {
        true
    }

    open spec fn from_spec(v: T) -> Self {
        Vec2 { x: v, y: v }
    }
}

impl<T: Copy> From<[T; 2]> for Vec2<T> {
    /// Components taken from an array, in axis order.
    fn from(a: [T; 2]) -> (r: Self) {
        Vec2 { x: a[0], y: a[1] }
    }
}

impl<T: Copy> vstd::std_specs::convert::FromSpecImpl<[T; 2]> for Vec2<T> {
    open spec fn obeys_from_spec() -> bool {
        true
    }

    open spec fn from_spec(a: [T; 2]) -> Self {
        Vec2 { x: a@[0], y: a@[1] }
    }
}

impl<T: Copy + core::ops::Add<Output = T> + core::ops::Mul<Output = T>> Vec2<T> {
    /// Inner product, summed left to right: `x*x' + y*y'`.
    pub open spec fn spec_dot(self, rhs: Self) -> T {
        self.x.mul_spec(rhs.x).add_spec(self.y.mul_spec(rhs.y))
    }

    /// Every step of `spec_dot` is within the scalar operations' domain.
    pub open spec fn dot_req(self, rhs: Self) -> bool {
        &&& T::obeys_add_spec()
        &&& T::obeys_mul_spec()
        &&& self.x.mul_req(rhs.x)
        &&& self.y.mul_req(rhs.y)
        &&& self.x.mul_spec(rhs.x).add_req(self.y.mul_spec(rhs.y))
    }

    /// Returns the dot product of two vectors.
    pub fn dot(self, rhs: Self) -> (r: T)
        requires
            self.dot_req(rhs),
        ensures
            r == self.spec_dot(rhs),
    {
        self.x * rhs.x + self.y * rhs.y
    }
}

impl<T: Copy + core::ops::Add<Output = T>> core::ops::Add for Vec2<T> {
    type Output = Self;

    /// Componentwise sum.
    fn add(self, rhs: Self) -> (r: Self) {
        Vec2 { x: self.x + rhs.x, y: self.y + rhs.y }
    }
}

impl<T: Copy + core::ops::Add<Output = T>> vstd::std_specs::ops::AddSpecImpl for Vec2<T> {
    open spec fn obeys_add_spec() -> bool {
        T::obeys_add_spec()
    }

    open spec fn add_req(self, rhs: Self) -> bool {
        self.x.add_req(rhs.x) && self.y.add_req(rhs.y)
    }

    open spec fn add_spec(self, rhs: Self) -> Self {
        Vec2 { x: self.x.add_spec(rhs.x), y: self.y.add_spec(rhs.y) }
    }
}

impl<T: Copy + core::ops::Sub<Output = T>> core::ops::Sub for Vec2<T> {
    type Output = Self;

    /// Componentwise difference.
    fn sub(self, rhs: Self) -> (r: Self) {
        Vec2 { x: self.x - rhs.x, y: self.y - rhs.y }
    }
}

impl<T: Copy + core::ops::Sub<Output = T>> vstd::std_specs::ops::SubSpecImpl for Vec2<T> {
    open spec fn obeys_sub_spec() -> bool {
        T::obeys_sub_spec()
    }

    open spec fn sub_req(self, rhs: Self) -> bool {
        self.x.sub_req(rhs.x) && self.y.sub_req(rhs.y)
    }

    open spec fn sub_spec(self, rhs: Self) -> Self {
        Vec2 { x: self.x.sub_spec(rhs.x), y: self.y.sub_spec(rhs.y) }
    }
}

impl<T: Copy + core::ops::Mul<Output = T>> core::ops::Mul<T> for Vec2<T> {
    type Output = Self;

    /// Every component scaled by `k`.
    fn mul(self, k: T) -> (r: Self) {
        Vec2 { x: k * self.x, y: k * self.y }
    }
}

impl<T: Copy + core::ops::Mul<Output = T>> vstd::std_specs::ops::MulSpecImpl<T> for Vec2<T> {
    open spec fn obeys_mul_spec() -> bool {
        T::obeys_mul_spec()
    }

    open spec fn mul_req(self, k: T) -> bool {
        k.mul_req(self.x) && k.mul_req(self.y)
    }

    open spec fn mul_spec(self, k: T) -> Self {
        Vec2 { x: k.mul_spec(self.x), y: k.mul_spec(self.y) }
    }
}

/// Three-component vector with axes `x`, `y`, `z`.
#[derive(Clone, Copy, Debug, Default, PartialEq)]
pub struct Vec3<T> {
    pub x: T,
    pub y: T,
    pub z: T,
}

impl<T: Copy> Vec3<T> {
    /// The components in axis order.
    pub open spec fn view_seq(self) -> Seq<T> {
        seq![self.x, self.y, self.z]
    }

    /// Full constructor.
    pub fn new(x: T, y: T, z: T) -> (r: Self)
        ensures
            r.x == x,
            r.y == y,
            r.z == z,
    {
        Vec3 { x, y, z }
    }

    /// The components as an array, in axis order.
    pub fn to_array(self) -> (r: [T; 3])
        ensures
            r@ == self.view_seq(),
    {
        [self.x, self.y, self.z]
    }

    /// Applies `f` to every component, e.g. to change the scalar's precision.
    pub fn map<U: Copy, F: Fn(T) -> U>(self, f: F) -> (r: Vec3<U>)
        requires
            f.requires((self.x,)),
            f.requires((self.y,)),
            f.requires((self.z,)),
        ensures
            f.ensures((self.x,), r.x),
            f.ensures((self.y,), r.y),
            f.ensures((self.z,), r.z),
    {
        Vec3 { x: f(self.x), y: f(self.y), z: f(self.z) }
    }

    /// Holds when `p` holds of every pair of corresponding components.
    pub open spec fn all_pairs(self, other: Self, p: spec_fn(T, T) -> bool) -> bool {
        p(self.x, other.x) && p(self.y, other.y) && p(self.z, other.z)
    }

    /// Compares componentwise with the scalar comparison `f` and requires
    /// every component to pass; stops at the first failing one.
    pub fn eq_by<F: Fn(T, T) -> bool>(&self, other: &Self, f: &F) -> (r: bool)
        requires
            forall|a: T, b: T| f.requires((a, b)),
        ensures
            r ==> self.all_pairs(*other, |a: T, b: T| f.ensures((a, b), true)),
            !r ==> !self.all_pairs(*other, |a: T, b: T| !f.ensures((a, b), false)),
    {
        f(self.x, other.x) && f(self.y, other.y) && f(self.z, other.z)
    }
}

impl<T: Copy + Default> Vec3<T> {
    /// All components set to the scalar's default value (zero for numbers).
    pub fn zero() -> (r: Self)
        ensures
            call_ensures(T::default, (), r.x),
            r.y == r.x,
            r.z == r.x,
    {
        let v = T::default();
        Vec3 { x: v, y: v, z: v }
    }
}

impl<T: Copy> From<T> for Vec3<T> {
    /// Broadcast: every component set to `v`.
    fn from(v: T) -> (r: Self) {
        Vec3 { x: v, y: v, z: v }
    }
}

impl<T: Copy> vstd::std_specs::convert::FromSpecImpl<T> for Vec3<T> {
    open spec fn obeys_from_spec() -> bool {
        true
    }

    open spec fn from_spec(v: T) -> Self {
        Vec3 { x: v, y: v, z: v }
    }
}

impl<T: Copy> From<[T; 3]> for Vec3<T> {
    /// Components taken from an array, in axis order.
    fn from(a: [T; 3]) -> (r: Self) {
        Vec3 { x: a[0], y: a[1], z: a[2] }
    }
}

impl<T: Copy> vstd::std_specs::convert::FromSpecImpl<[T; 3]> for Vec3<T> {
    open spec fn obeys_from_spec() -> bool {
        true
    }

    open spec fn from_spec(a: [T; 3]) -> Self {
        Vec3 { x: a@[0], y: a@[1], z: a@[2] }
    }
}

impl<T: Copy + core::ops::Add<Output = T> + core::ops::Mul<Output = T>> Vec3<T> {
    /// Inner product, summed left to right: `x*x' + y*y' + z*z'`.
    pub open spec fn spec_dot(self, rhs: Self) -> T {
        self.x.mul_spec(rhs.x).add_spec(self.y.mul_spec(rhs.y)).add_spec(self.z.mul_spec(rhs.z))
    }

    /// Every step of `spec_dot` is within the scalar operations' domain.
    pub open spec fn dot_req(self, rhs: Self) -> bool {
        &&& T::obeys_add_spec()
        &&& T::obeys_mul_spec()
        &&& self.x.mul_req(rhs.x)
        &&& self.y.mul_req(rhs.y)
        &&& self.z.mul_req(rhs.z)
        &&& self.x.mul_spec(rhs.x).add_req(self.y.mul_spec(rhs.y))
        &&& self.x.mul_spec(rhs.x).add_spec(self.y.mul_spec(rhs.y)).add_req(self.z.mul_spec(rhs.z))
    }

    /// Returns the dot product of two vectors.
    pub fn dot(self, rhs: Self) -> (r: T)
        requires
            self.dot_req(rhs),
        ensures
            r == self.spec_dot(rhs),
    {
        self.x * rhs.x + self.y * rhs.y + self.z * rhs.z
    }
}

impl<T: Copy + core::ops::Sub<Output = T> + core::ops::Mul<Output = T>> Vec3<T> {
    /// Cross product: `(y*z' - z*y', z*x' - x*z', x*y' - y*x')`.
    pub open spec fn spec_cross(self, rhs: Self) -> Self {
        Vec3 {
            x: self.y.mul_spec(rhs.z).sub_spec(self.z.mul_spec(rhs.y)),
            y: self.z.mul_spec(rhs.x).sub_spec(self.x.mul_spec(rhs.z)),
            z: self.x.mul_spec(rhs.y).sub_spec(self.y.mul_spec(rhs.x)),
        }
    }

    /// Every step of `spec_cross` is within the scalar operations' domain.
    pub open spec fn cross_req(self, rhs: Self) -> bool {
        &&& T::obeys_sub_spec()
        &&& T::obeys_mul_spec()
        &&& self.y.mul_req(rhs.z) && self.z.mul_req(rhs.y)
        &&& self.z.mul_req(rhs.x) && self.x.mul_req(rhs.z)
        &&& self.x.mul_req(rhs.y) && self.y.mul_req(rhs.x)
        &&& self.y.mul_spec(rhs.z).sub_req(self.z.mul_spec(rhs.y))
        &&& self.z.mul_spec(rhs.x).sub_req(self.x.mul_spec(rhs.z))
        &&& self.x.mul_spec(rhs.y).sub_req(self.y.mul_spec(rhs.x))
    }

    /// Returns the cross product of two vectors.
    pub fn cross(self, rhs: Self) -> (r: Self)
        requires
            self.cross_req(rhs),
        ensures
            r == self.spec_cross(rhs),
    {
        Vec3 {
            x: self.y * rhs.z - self.z * rhs.y,
            y: self.z * rhs.x - self.x * rhs.z,
            z: self.x * rhs.y - self.y * rhs.x,
        }
    }
}

impl<T: Copy + core::ops::Add<Output = T>> core::ops::Add for Vec3<T> {
    type Output = Self;

    /// Componentwise sum.
    fn add(self, rhs: Self) -> (r: Self) {
        Vec3 { x: self.x + rhs.x, y: self.y + rhs.y, z: self.z + rhs.z }
    }
}

impl<T: Copy + core::ops::Add<Output = T>> vstd::std_specs::ops::AddSpecImpl for Vec3<T> {
    open spec fn obeys_add_spec() -> bool {
        T::obeys_add_spec()
    }

    open spec fn add_req(self, rhs: Self) -> bool {
        self.x.add_req(rhs.x) && self.y.add_req(rhs.y) && self.z.add_req(rhs.z)
    }

    open spec fn add_spec(self, rhs: Self) -> Self {
        Vec3 { x: self.x.add_spec(rhs.x), y: self.y.add_spec(rhs.y), z: self.z.add_spec(rhs.z) }
    }
}

impl<T: Copy + core::ops::Sub<Output = T>> core::ops::Sub for Vec3<T> {
    type Output = Self;

    /// Componentwise difference.
    fn sub(self, rhs: Self) -> (r: Self) {
        Vec3 { x: self.x - rhs.x, y: self.y - rhs.y, z: self.z - rhs.z }
    }
}

impl<T: Copy + core::ops::Sub<Output = T>> vstd::std_specs::ops::SubSpecImpl for Vec3<T> {
    open spec fn obeys_sub_spec() -> bool {
        T::obeys_sub_spec()
    }

    open spec fn sub_req(self, rhs: Self) -> bool {
        self.x.sub_req(rhs.x) && self.y.sub_req(rhs.y) && self.z.sub_req(rhs.z)
    }

    open spec fn sub_spec(self, rhs: Self) -> Self {
        Vec3 { x: self.x.sub_spec(rhs.x), y: self.y.sub_spec(rhs.y), z: self.z.sub_spec(rhs.z) }
    }
}

impl<T: Copy + core::ops::Mul<Output = T>> core::ops::Mul<T> for Vec3<T> {
    type Output = Self;

    /// Every component scaled by `k`.
    fn mul(self, k: T) -> (r: Self) {
        Vec3 { x: k * self.x, y: k * self.y, z: k * self.z }
    }
}

impl<T: Copy + core::ops::Mul<Output = T>> vstd::std_specs::ops::MulSpecImpl<T> for Vec3<T> {
    open spec fn obeys_mul_spec() -> bool {
        T::obeys_mul_spec()
    }

    open spec fn mul_req(self, k: T) -> bool {
        k.mul_req(self.x) && k.mul_req(self.y) && k.mul_req(self.z)
    }

    open spec fn mul_spec(self, k: T) -> Self {
        Vec3 { x: k.mul_spec(self.x), y: k.mul_spec(self.y), z: k.mul_spec(self.z) }
    }
}

/// Four-component vector with axes `x`, `y`, `z`, `w`.
#[derive(Clone, Copy, Debug, Default, PartialEq)]
pub struct Vec4<T> {
    pub x: T,
    pub y: T,
    pub z: T,
    pub w: T,
}

impl<T: Copy> Vec4<T> {
    /// The components in axis order.
    pub open spec fn view_seq(self) -> Seq<T> {
        seq![self.x, self.y, self.z, self.w]
    }

    /// Full constructor.
    pub fn new(x: T, y: T, z: T, w: T) -> (r: Self)
        ensures
            r.x == x,
            r.y == y,
            r.z == z,
            r.w == w,
    {
        Vec4 { x, y, z, w }
    }

    /// The components as an array, in axis order.
    pub fn to_array(self) -> (r: [T; 4])
        ensures
            r@ == self.view_seq(),
    {
        [self.x, self.y, self.z, self.w]
    }

    /// Applies `f` to every component, e.g. to change the scalar's precision.
    pub fn map<U: Copy, F: Fn(T) -> U>(self, f: F) -> (r: Vec4<U>)
        requires
            f.requires((self.x,)),
            f.requires((self.y,)),
            f.requires((self.z,)),
            f.requires((self.w,)),
        ensures
            f.ensures((self.x,), r.x),
            f.ensures((self.y,), r.y),
            f.ensures((self.z,), r.z),
            f.ensures((self.w,), r.w),
    {
        Vec4 { x: f(self.x), y: f(self.y), z: f(self.z), w: f(self.w) }
    }

    /// Holds when `p` holds of every pair of corresponding components.
    pub open spec fn all_pairs(self, other: Self, p: spec_fn(T, T) -> bool) -> bool {
        p(self.x, other.x) && p(self.y, other.y) && p(self.z, other.z) && p(self.w, other.w)
    }

    /// Compares componentwise with the scalar comparison `f` and requires
    /// every component to pass; stops at the first failing one.
    pub fn eq_by<F: Fn(T, T) -> bool>(&self, other: &Self, f: &F) -> (r: bool)
        requires
            forall|a: T, b: T| f.requires((a, b)),
        ensures
            r ==> self.all_pairs(*other, |a: T, b: T| f.ensures((a, b), true)),
            !r ==> !self.all_pairs(*other, |a: T, b: T| !f.ensures((a, b), false)),
    {
        f(self.x, other.x) && f(self.y, other.y) && f(self.z, other.z) && f(self.w, other.w)
    }
}

impl<T: Copy + Default> Vec4<T> {
    /// All components set to the scalar's default value (zero for numbers).
    pub fn zero() -> (r: Self)
        ensures
            call_ensures(T::default, (), r.x),
            r.y == r.x,
            r.z == r.x,
            r.w == r.x,
    {
        let v = T::default();
        Vec4 { x: v, y: v, z: v, w: v }
    }
}

impl<T: Copy> From<T> for Vec4<T> {
    /// Broadcast: every component set to `v`.
    fn from(v: T) -> (r: Self) {
        Vec4 { x: v, y: v, z: v, w: v }
    }
}

impl<T: Copy> vstd::std_specs::convert::FromSpecImpl<T> for Vec4<T> {
    open spec fn obeys_from_spec() -> bool {
        true
    }

    open spec fn from_spec(v: T) -> Self {
        Vec4 { x: v, y: v, z: v, w: v }
    }
}

impl<T: Copy> From<[T; 4]> for Vec4<T> {
    /// Components taken from an array, in axis order.
    fn from(a: [T; 4]) -> (r: Self) {
        Vec4 { x: a[0], y: a[1], z: a[2], w: a[3] }
    }
}

impl<T: Copy> vstd::std_specs::convert::FromSpecImpl<[T; 4]> for Vec4<T> {
    open spec fn obeys_from_spec() -> bool {
        true
    }

    open spec fn from_spec(a: [T; 4]) -> Self {
        Vec4 { x: a@[0], y: a@[1], z: a@[2], w: a@[3] }
    }
}

impl<T: Copy + core::ops::Add<Output = T> + core::ops::Mul<Output = T>> Vec4<T> {
    /// Inner product, summed left to right: `x*x' + y*y' + z*z' + w*w'`.
    pub open spec fn spec_dot(self, rhs: Self) -> T {
        self.x.mul_spec(rhs.x).add_spec(self.y.mul_spec(rhs.y)).add_spec(self.z.mul_spec(rhs.z)).add_spec(self.w.mul_spec(rhs.w))
    }

    /// Every step of `spec_dot` is within the scalar operations' domain.
    pub open spec fn dot_req(self, rhs: Self) -> bool {
        &&& T::obeys_add_spec()
        &&& T::obeys_mul_spec()
        &&& self.x.mul_req(rhs.x)
        &&& self.y.mul_req(rhs.y)
        &&& self.z.mul_req(rhs.z)
        &&& self.w.mul_req(rhs.w)
        &&& self.x.mul_spec(rhs.x).add_req(self.y.mul_spec(rhs.y))
        &&& self.x.mul_spec(rhs.x).add_spec(self.y.mul_spec(rhs.y)).add_req(self.z.mul_spec(rhs.z))
        &&& self.x.mul_spec(rhs.x).add_spec(self.y.mul_spec(rhs.y)).add_spec(self.z.mul_spec(rhs.z)).add_req(self.w.mul_spec(rhs.w))
    }

    /// Returns the dot product of two vectors.
    pub fn dot(self, rhs: Self) -> (r: T)
        requires
            self.dot_req(rhs),
        ensures
            r == self.spec_dot(rhs),
    {
        self.x * rhs.x + self.y * rhs.y + self.z * rhs.z + self.w * rhs.w
    }
}

impl<T: Copy + core::ops::Add<Output = T>> core::ops::Add for Vec4<T> {
    type Output = Self;

    /// Componentwise sum.
    fn add(self, rhs: Self) -> (r: Self) {
        Vec4 { x: self.x + rhs.x, y: self.y + rhs.y, z: self.z + rhs.z, w: self.w + rhs.w }
    }
}

impl<T: Copy + core::ops::Add<Output = T>> vstd::std_specs::ops::AddSpecImpl for Vec4<T> {
    open spec fn obeys_add_spec() -> bool {
        T::obeys_add_spec()
    }

    open spec fn add_req(self, rhs: Self) -> bool {
        self.x.add_req(rhs.x) && self.y.add_req(rhs.y) && self.z.add_req(rhs.z) && self.w.add_req(rhs.w)
    }

    open spec fn add_spec(self, rhs: Self) -> Self {
        Vec4 { x: self.x.add_spec(rhs.x), y: self.y.add_spec(rhs.y), z: self.z.add_spec(rhs.z), w: self.w.add_spec(rhs.w) }
    }
}

impl<T: Copy + core::ops::Sub<Output = T>> core::ops::Sub for Vec4<T> {
    type Output = Self;

    /// Componentwise difference.
    fn sub(self, rhs: Self) -> (r: Self) {
        Vec4 { x: self.x - rhs.x, y: self.y - rhs.y, z: self.z - rhs.z, w: self.w - rhs.w }
    }
}

impl<T: Copy + core::ops::Sub<Output = T>> vstd::std_specs::ops::SubSpecImpl for Vec4<T> {
    open spec fn obeys_sub_spec() -> bool {
        T::obeys_sub_spec()
    }

    open spec fn sub_req(self, rhs: Self) -> bool {
        self.x.sub_req(rhs.x) && self.y.sub_req(rhs.y) && self.z.sub_req(rhs.z) && self.w.sub_req(rhs.w)
    }

    open spec fn sub_spec(self, rhs: Self) -> Self {
        Vec4 { x: self.x.sub_spec(rhs.x), y: self.y.sub_spec(rhs.y), z: self.z.sub_spec(rhs.z), w: self.w.sub_spec(rhs.w) }
    }
}

impl<T: Copy + core::ops::Mul<Output = T>> core::ops::Mul<T> for Vec4<T> {
    type Output = Self;

    /// Every component scaled by `k`.
    fn mul(self, k: T) -> (r: Self) {
        Vec4 { x: k * self.x, y: k * self.y, z: k * self.z, w: k * self.w }
    }
}

impl<T: Copy + core::ops::Mul<Output = T>> vstd::std_specs::ops::MulSpecImpl<T> for Vec4<T> {
    open spec fn obeys_mul_spec() -> bool {
        T::obeys_mul_spec()
    }

    open spec fn mul_req(self, k: T) -> bool {
        k.mul_req(self.x) && k.mul_req(self.y) && k.mul_req(self.z) && k.mul_req(self.w)
    }

    open spec fn mul_spec(self, k: T) -> Self {
        Vec4 { x: k.mul_spec(self.x), y: k.mul_spec(self.y), z: k.mul_spec(self.z), w: k.mul_spec(self.w) }
    }
}

impl<T: Copy> From<(Vec2<T>, T)> for Vec3<T> {
    /// A plane vector extended by a last component.
    fn from(arg: (Vec2<T>, T)) -> (r: Self) {
        Vec3 { x: arg.0.x, y: arg.0.y, z: arg.1 }
    }
}

impl<T: Copy> vstd::std_specs::convert::FromSpecImpl<(Vec2<T>, T)> for Vec3<T> {
    open spec fn obeys_from_spec() -> bool {
        true
    }

    open spec fn from_spec(arg: (Vec2<T>, T)) -> Self {
        Vec3 { x: arg.0.x, y: arg.0.y, z: arg.1 }
    }
}

impl<T: Copy> From<(Vec2<T>, T, T)> for Vec4<T> {
    /// A plane vector extended by two last components.
    fn from(arg: (Vec2<T>, T, T)) -> (r: Self) {
        Vec4 { x: arg.0.x, y: arg.0.y, z: arg.1, w: arg.2 }
    }
}

impl<T: Copy> vstd::std_specs::convert::FromSpecImpl<(Vec2<T>, T, T)> for Vec4<T> {
    open spec fn obeys_from_spec() -> bool {
        true
    }

    open spec fn from_spec(arg: (Vec2<T>, T, T)) -> Self {
        Vec4 { x: arg.0.x, y: arg.0.y, z: arg.1, w: arg.2 }
    }
}

impl<T: Copy> From<(Vec3<T>, T)> for Vec4<T> {
    /// A spatial vector extended by a last component.
    fn from(arg: (Vec3<T>, T)) -> (r: Self) {
        Vec4 { x: arg.0.x, y: arg.0.y, z: arg.0.z, w: arg.1 }
    }
}

impl<T: Copy> vstd::std_specs::convert::FromSpecImpl<(Vec3<T>, T)> for Vec4<T> {
    open spec fn obeys_from_spec() -> bool {
        true
    }

    open spec fn from_spec(arg: (Vec3<T>, T)) -> Self {
        Vec4 { x: arg.0.x, y: arg.0.y, z: arg.0.z, w: arg.1 }
    }
}

} // verus!
