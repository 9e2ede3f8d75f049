//! Translation + rotation + non-uniform scale transforms.
//!
//! The parts are stored as given; the equivalent matrix is
//! `translation * rotation * scale` (scale first, translation last, acting on
//! column vectors), built on demand by the caller's matrix kernel.
use vstd::prelude::*;

use crate::quat::Quat;
use crate::vector::Vec3;

verus! {

/// A transform held as its three independent parts.
#[derive(Clone, Copy, Debug, PartialEq)]
pub struct Trs<T> {
    /// Translation vector.
    pub t: Vec3<T>,
    /// Rotation quaternion (not normalised).
    pub r: Quat<T>,
    /// Non-uniform scale factors, one per axis; zero is allowed.
    pub s: Vec3<T>,
}

impl<T: Copy> Trs<T> {
    /// Full constructor; stores the parts verbatim.
    pub fn new(t: Vec3<T>, r: Quat<T>, s: Vec3<T>) -> (res: Self)
        ensures
            res.t == t,
            res.r == r,
            res.s == s,
    {
        Trs { t, r, s }
    }

    /// Holds when `p` holds of every pair of corresponding scalars of the
    /// translation, the rotation and the scale.
    pub open spec fn all_pairs(self, other: Self, p: spec_fn(T, T) -> bool) -> bool {
        self.t.all_pairs(other.t, p) && self.r.all_pairs(other.r, p) && self.s.all_pairs(
            other.s,
            p,
        )
    }

    /// Compares the three parts with one and the same scalar comparison `f`
    /// and requires all of them to pass.
    pub fn eq_by<F: Fn(T, T) -> bool>(&self, other: &Self, f: &F) -> (res: bool)
        requires
            forall|a: T, b: T| f.requires((a, b)),
        ensures
            res ==> self.all_pairs(*other, |a: T, b: T| f.ensures((a, b), true)),
            !res ==> !self.all_pairs(*other, |a: T, b: T| !f.ensures((a, b), false)),
    {
        self.t.eq_by(&other.t, f) && self.r.eq_by(&other.r, f) && self.s.eq_by(&other.s, f)
    }
}

impl<T: Copy + Default + From<u8>> Trs<T> {
    /// The identity transform: zero translation, identity rotation, unit scale.
    pub fn identity() -> (res: Self)
        ensures
            call_ensures(T::default, (), res.t.x),
            res.t.y == res.t.x,
            res.t.z == res.t.x,
            res.r.x == res.t.x,
            res.r.y == res.t.x,
            res.r.z == res.t.x,
            call_ensures(T::from, (1u8,), res.r.s),
            res.s.x == res.r.s,
            res.s.y == res.r.s,
            res.s.z == res.r.s,
    {
        let r = Quat::identity();
        let t = Vec3::new(r.x, r.x, r.x);
        let s = Vec3::new(r.s, r.s, r.s);
        Trs { t, r, s }
    }
}

impl<T: Copy + Default + From<u8>> Default for Trs<T> {
    /// The identity transform.
    fn default() -> (res: Self)
        ensures
            call_ensures(T::default, (), res.t.x),
            res.t.y == res.t.x,
            res.t.z == res.t.x,
            res.r.x == res.t.x,
            res.r.y == res.t.x,
            res.r.z == res.t.x,
            call_ensures(T::from, (1u8,), res.r.s),
            res.s.x == res.r.s,
            res.s.y == res.r.s,
            res.s.z == res.r.s,
    {
        Self::identity()
    }
}

} // verus!
