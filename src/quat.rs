//! Rotation quaternions as plain values: a scalar part and three imaginary parts.
use vstd::prelude::*;

verus! {

/// Quaternion `s + x*i + y*j + z*k`.
#[derive(Clone, Copy, Debug, PartialEq)]
pub struct Quat<T> {
    pub s: T,
    pub x: T,
    pub y: T,
    pub z: T,
}

impl<T: Copy> Quat<T> {
    /// Full constructor: scalar part first, then the imaginary parts.
    pub fn new(s: T, x: T, y: T, z: T) -> (r: Self)
        ensures
            r.s == s,
            r.x == x,
            r.y == y,
            r.z == z,
    {
        Quat { s, x, y, z }
    }

    /// Holds when `p` holds of every pair of corresponding parts.
    pub open spec fn all_pairs(self, other: Self, p: spec_fn(T, T) -> bool) -> bool {
        p(self.s, other.s) && p(self.x, other.x) && p(self.y, other.y) && p(self.z, other.z)
    }

    /// Compares part by part with the scalar comparison `f` and requires
    /// every part to pass; stops at the first failing one.
    pub fn eq_by<F: Fn(T, T) -> bool>(&self, other: &Self, f: &F) -> (r: bool)
        requires
            forall|a: T, b: T| f.requires((a, b)),
        ensures
            r ==> self.all_pairs(*other, |a: T, b: T| f.ensures((a, b), true)),
            !r ==> !self.all_pairs(*other, |a: T, b: T| !f.ensures((a, b), false)),
    {
        f(self.s, other.s) && f(self.x, other.x) && f(self.y, other.y) && f(self.z, other.z)
    }
}

impl<T: Copy + Default + From<u8>> Quat<T> {
    /// The identity rotation: scalar part one, imaginary parts zero.
    pub fn identity() -> (r: Self)
        ensures
            call_ensures(T::from, (1u8,), r.s),
            call_ensures(T::default, (), r.x),
            r.y == r.x,
            r.z == r.x,
    {
        let one = T::from(1u8);
        let zero = T::default();
        Quat { s: one, x: zero, y: zero, z: zero }
    }
}

} // verus!
