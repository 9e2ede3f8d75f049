//! Algebraic laws of the vector and transform operations, each stated over the
//! scalar's own operator specifications and proved from them.
use vstd::prelude::*;
use vstd::std_specs::convert::FromSpec;
use vstd::std_specs::ops::{AddSpec, MulSpec};
use core::ops::{Add, Mul};

use crate::quat::Quat;
use crate::trs::Trs;
use crate::vector::{Vec2, Vec3, Vec4};

verus! {

/// `a + b == b + a` for 2-component vectors wherever the scalar addition is commutative.
pub proof fn lemma_vec2_add_commutative<T: Copy + Add<Output = T>>(a: Vec2<T>, b: Vec2<T>)
    requires
        forall|p: T, q: T| #[trigger] p.add_spec(q) == q.add_spec(p),
    ensures
        a.add_spec(b) == b.add_spec(a),
{
}

/// `(a + b) + c == a + (b + c)` for 2-component vectors wherever the scalar
/// addition is associative.
pub proof fn lemma_vec2_add_associative<T: Copy + Add<Output = T>>(a: Vec2<T>, b: Vec2<T>, c: Vec2<T>)
    requires
        forall|p: T, q: T, u: T| #[trigger] p.add_spec(q).add_spec(u) == p.add_spec(q.add_spec(u)),
    ensures
        a.add_spec(b).add_spec(c) == a.add_spec(b.add_spec(c)),
{
}

/// `dot(a, b) == dot(b, a)` for 2-component vectors wherever the scalar
/// multiplication is commutative: both sums take their terms in the same order.
pub proof fn lemma_vec2_dot_symmetric<T: Copy + Add<Output = T> + Mul<Output = T>>(
    a: Vec2<T>,
    b: Vec2<T>,
)
    requires
        forall|p: T, q: T| #[trigger] p.mul_spec(q) == q.mul_spec(p),
    ensures
        a.spec_dot(b) == b.spec_dot(a),
{
}

/// Converting a 2-component vector to an array and back gives the same vector,
/// and an array converted to a vector and back gives the same elements.
pub proof fn lemma_vec2_array_round_trip<T: Copy>(v: Vec2<T>, arr: [T; 2])
    ensures
        arr@ == v.view_seq() ==> <Vec2<T> as FromSpec<[T; 2]>>::from_spec(arr) == v,
        <Vec2<T> as FromSpec<[T; 2]>>::from_spec(arr).view_seq() =~= arr@,
{
    if arr@ == v.view_seq() {
        assert(arr@[0] == v.view_seq()[0]);
        assert(arr@[1] == v.view_seq()[1]);
    }
}

/// An equality that holds of every component pair under `p` also holds under any
/// comparison `q` that `p` implies (e.g. an absolute tolerance and a relative one
/// no smaller).
pub proof fn lemma_vec2_all_pairs_weaken<T: Copy>(
    a: Vec2<T>,
    b: Vec2<T>,
    p: spec_fn(T, T) -> bool,
    q: spec_fn(T, T) -> bool,
)
    requires
        forall|u: T, w: T| #[trigger] p(u, w) ==> q(u, w),
        a.all_pairs(b, p),
    ensures
        a.all_pairs(b, q),
{
}

/// `a + b == b + a` for 3-component vectors wherever the scalar addition is commutative.
pub proof fn lemma_vec3_add_commutative<T: Copy + Add<Output = T>>(a: Vec3<T>, b: Vec3<T>)
    requires
        forall|p: T, q: T| #[trigger] p.add_spec(q) == q.add_spec(p),
    ensures
        a.add_spec(b) == b.add_spec(a),
{
}

/// `(a + b) + c == a + (b + c)` for 3-component vectors wherever the scalar
/// addition is associative.
pub proof fn lemma_vec3_add_associative<T: Copy + Add<Output = T>>(a: Vec3<T>, b: Vec3<T>, c: Vec3<T>)
    requires
        forall|p: T, q: T, u: T| #[trigger] p.add_spec(q).add_spec(u) == p.add_spec(q.add_spec(u)),
    ensures
        a.add_spec(b).add_spec(c) == a.add_spec(b.add_spec(c)),
{
}

/// `dot(a, b) == dot(b, a)` for 3-component vectors wherever the scalar
/// multiplication is commutative: both sums take their terms in the same order.
pub proof fn lemma_vec3_dot_symmetric<T: Copy + Add<Output = T> + Mul<Output = T>>(
    a: Vec3<T>,
    b: Vec3<T>,
)
    requires
        forall|p: T, q: T| #[trigger] p.mul_spec(q) == q.mul_spec(p),
    ensures
        a.spec_dot(b) == b.spec_dot(a),
{
}

/// Converting a 3-component vector to an array and back gives the same vector,
/// and an array converted to a vector and back gives the same elements.
pub proof fn lemma_vec3_array_round_trip<T: Copy>(v: Vec3<T>, arr: [T; 3])
    ensures
        arr@ == v.view_seq() ==> <Vec3<T> as FromSpec<[T; 3]>>::from_spec(arr) == v,
        <Vec3<T> as FromSpec<[T; 3]>>::from_spec(arr).view_seq() =~= arr@,
{
    if arr@ == v.view_seq() {
        assert(arr@[0] == v.view_seq()[0]);
        assert(arr@[1] == v.view_seq()[1]);
        assert(arr@[2] == v.view_seq()[2]);
    }
}

/// An equality that holds of every component pair under `p` also holds under any
/// comparison `q` that `p` implies (e.g. an absolute tolerance and a relative one
/// no smaller).
pub proof fn lemma_vec3_all_pairs_weaken<T: Copy>(
    a: Vec3<T>,
    b: Vec3<T>,
    p: spec_fn(T, T) -> bool,
    q: spec_fn(T, T) -> bool,
)
    requires
        forall|u: T, w: T| #[trigger] p(u, w) ==> q(u, w),
        a.all_pairs(b, p),
    ensures
        a.all_pairs(b, q),
{
}

/// `a + b == b + a` for 4-component vectors wherever the scalar addition is commutative.
pub proof fn lemma_vec4_add_commutative<T: Copy + Add<Output = T>>(a: Vec4<T>, b: Vec4<T>)
    requires
        forall|p: T, q: T| #[trigger] p.add_spec(q) == q.add_spec(p),
    ensures
        a.add_spec(b) == b.add_spec(a),
{
}

/// `(a + b) + c == a + (b + c)` for 4-component vectors wherever the scalar
/// addition is associative.
pub proof fn lemma_vec4_add_associative<T: Copy + Add<Output = T>>(a: Vec4<T>, b: Vec4<T>, c: Vec4<T>)
    requires
        forall|p: T, q: T, u: T| #[trigger] p.add_spec(q).add_spec(u) == p.add_spec(q.add_spec(u)),
    ensures
        a.add_spec(b).add_spec(c) == a.add_spec(b.add_spec(c)),
{
}

/// `dot(a, b) == dot(b, a)` for 4-component vectors wherever the scalar
/// multiplication is commutative: both sums take their terms in the same order.
pub proof fn lemma_vec4_dot_symmetric<T: Copy + Add<Output = T> + Mul<Output = T>>(
    a: Vec4<T>,
    b: Vec4<T>,
)
    requires
        forall|p: T, q: T| #[trigger] p.mul_spec(q) == q.mul_spec(p),
    ensures
        a.spec_dot(b) == b.spec_dot(a),
{
}

/// Converting a 4-component vector to an array and back gives the same vector,
/// and an array converted to a vector and back gives the same elements.
pub proof fn lemma_vec4_array_round_trip<T: Copy>(v: Vec4<T>, arr: [T; 4])
    ensures
        arr@ == v.view_seq() ==> <Vec4<T> as FromSpec<[T; 4]>>::from_spec(arr) == v,
        <Vec4<T> as FromSpec<[T; 4]>>::from_spec(arr).view_seq() =~= arr@,
{
    if arr@ == v.view_seq() {
        assert(arr@[0] == v.view_seq()[0]);
        assert(arr@[1] == v.view_seq()[1]);
        assert(arr@[2] == v.view_seq()[2]);
        assert(arr@[3] == v.view_seq()[3]);
    }
}

/// An equality that holds of every component pair under `p` also holds under any
/// comparison `q` that `p` implies (e.g. an absolute tolerance and a relative one
/// no smaller).
pub proof fn lemma_vec4_all_pairs_weaken<T: Copy>(
    a: Vec4<T>,
    b: Vec4<T>,
    p: spec_fn(T, T) -> bool,
    q: spec_fn(T, T) -> bool,
)
    requires
        forall|u: T, w: T| #[trigger] p(u, w) ==> q(u, w),
        a.all_pairs(b, p),
    ensures
        a.all_pairs(b, q),
{
}

/// A transform equality that holds under the scalar comparison `p` also holds
/// under any comparison `q` that `p` implies; the same comparison governs the
/// translation, the rotation and the scale.
pub proof fn lemma_trs_all_pairs_weaken<T: Copy>(
    a: Trs<T>,
    b: Trs<T>,
    p: spec_fn(T, T) -> bool,
    q: spec_fn(T, T) -> bool,
)
    requires
        forall|u: T, w: T| #[trigger] p(u, w) ==> q(u, w),
        a.all_pairs(b, p),
    ensures
        a.all_pairs(b, q),
{
    lemma_vec3_all_pairs_weaken(a.t, b.t, p, q);
    lemma_quat_all_pairs_weaken(a.r, b.r, p, q);
    lemma_vec3_all_pairs_weaken(a.s, b.s, p, q);
}

/// The quaternion case of the weakening law.
pub proof fn lemma_quat_all_pairs_weaken<T: Copy>(
    a: Quat<T>,
    b: Quat<T>,
    p: spec_fn(T, T) -> bool,
    q: spec_fn(T, T) -> bool,
)
    requires
        forall|u: T, w: T| #[trigger] p(u, w) ==> q(u, w),
        a.all_pairs(b, p),
    ensures
        a.all_pairs(b, q),
{
}


/// With exact arithmetic (64-bit integers, no step overflowing) the cross
/// product is orthogonal to both of its factors.
pub proof fn lemma_vec3_cross_orthogonal(a: Vec3<i64>, b: Vec3<i64>)
    requires
        a.cross_req(b),
        a.spec_cross(b).dot_req(a),
        a.spec_cross(b).dot_req(b),
    ensures
        a.spec_cross(b).spec_dot(a) == 0,
        a.spec_cross(b).spec_dot(b) == 0,
{
    let (ax, ay, az) = (a.x as int, a.y as int, a.z as int);
    let (bx, by, bz) = (b.x as int, b.y as int, b.z as int);
    let c = a.spec_cross(b);
    assert(c.x == ay * bz - az * by);
    assert(c.y == az * bx - ax * bz);
    assert(c.z == ax * by - ay * bx);
    let (cx, cy, cz) = (c.x as int, c.y as int, c.z as int);
    assert(cx * ax + cy * ay + cz * az == 0) by (nonlinear_arith)
        requires
            cx == ay * bz - az * by,
            cy == az * bx - ax * bz,
            cz == ax * by - ay * bx,
    ;
    assert(cx * bx + cy * by + cz * bz == 0) by (nonlinear_arith)
        requires
            cx == ay * bz - az * by,
            cy == az * bx - ax * bz,
            cz == ax * by - ay * bx,
    ;
}

} // verus!
