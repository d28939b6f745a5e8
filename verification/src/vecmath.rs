//! Fixed-point 3D vectors and the exact linear algebra the pose solver needs.
//!
//! Coordinates are integers; one unit is a tenth of a millimetre.  All of
//! the solver's orientation math (Gram–Schmidt rejection, cross products)
//! is scale-free, so vectors are kept unnormalised here and only the
//! embedding application, which owns the floating-point boundary, divides
//! by lengths.

use vstd::prelude::*;

verus! {

/// Largest admitted magnitude of a raw input coordinate (positions,
/// knuckle joints): 2^21 units, about 209 metres — a world-size bound
/// that keeps every intermediate product of the solver inside `i128`.
pub const COORD_LIMIT: i64 = 2097152;

/// Bound on a grip direction coordinate: a direction is a sum of two
/// differences of input coordinates, so at most `4 * COORD_LIMIT`.
pub const DIR_LIMIT: i64 = 8388608;

/// Bound on a coordinate of a difference of two positions.
pub const DELTA_LIMIT: i64 = 4194304;

/// Bound on a coordinate of the scaled rejection vector: `6 * 2^68`.
pub const REJECT_LIMIT: i128 = 1770887431076116955136;

/// Bound on a coordinate of the wide cross product: `3 * 2^93`.
pub const CROSS_LIMIT: i128 = 29707691938889633235402361405440;

/// Mathematical model of a 3D vector: unbounded integer coordinates.
pub struct V3 {
    pub x: int,
    pub y: int,
    pub z: int,
}

/// A 3D vector in fixed-point coordinates, as sampled from input.
#[derive(Clone, Copy, PartialEq, Eq, Structural, Debug)]
pub struct Vec3 {
    pub x: i64,
    pub y: i64,
    pub z: i64,
}

/// A 3D vector with wide coordinates, holding the solver's intermediate
/// products (scaled rejections and cross products).
#[derive(Clone, Copy, PartialEq, Eq, Structural, Debug)]
pub struct Vec3Wide {
    pub x: i128,
    pub y: i128,
    pub z: i128,
}

impl View for Vec3 {
    type V = V3;

    open spec fn view(&self) -> V3 {
        V3 { x: self.x as int, y: self.y as int, z: self.z as int }
    }
}

impl View for Vec3Wide {
    type V = V3;

    open spec fn view(&self) -> V3 {
        V3 { x: self.x as int, y: self.y as int, z: self.z as int }
    }
}

pub open spec fn v3_add(a: V3, b: V3) -> V3 {
    V3 { x: a.x + b.x, y: a.y + b.y, z: a.z + b.z }
}

pub open spec fn v3_sub(a: V3, b: V3) -> V3 {
    V3 { x: a.x - b.x, y: a.y - b.y, z: a.z - b.z }
}

pub open spec fn v3_neg(a: V3) -> V3 {
    V3 { x: -a.x, y: -a.y, z: -a.z }
}

pub open spec fn v3_scale(k: int, a: V3) -> V3 {
    V3 { x: k * a.x, y: k * a.y, z: k * a.z }
}

pub open spec fn v3_dot(a: V3, b: V3) -> int {
    a.x * b.x + a.y * b.y + a.z * b.z
}

pub open spec fn v3_cross(a: V3, b: V3) -> V3 {
    V3 {
        x: a.y * b.z - a.z * b.y,
        y: a.z * b.x - a.x * b.z,
        z: a.x * b.y - a.y * b.x,
    }
}

pub open spec fn v3_zero() -> V3 {
    V3 { x: 0, y: 0, z: 0 }
}

/// Every coordinate of `v` lies in `[-b, b]`.
pub open spec fn v3_bounded(v: V3, b: int) -> bool {
    &&& -b <= v.x <= b
    &&& -b <= v.y <= b
    &&& -b <= v.z <= b
}

/// The scaled Gram–Schmidt rejection of `delta` from `d`: a vector with
/// the same direction as `delta - d * (delta.d / d.d)` but scaled by the
/// positive factor `d.d`, so it stays in integers.
pub open spec fn v3_reject_scaled(delta: V3, d: V3) -> V3 {
    v3_sub(v3_scale(v3_dot(d, d), delta), v3_scale(v3_dot(delta, d), d))
}

/// `|a * b| <= aa * bb` whenever `|a| <= aa` and `|b| <= bb`.
pub proof fn lemma_mul_bound(a: int, b: int, aa: int, bb: int)
    by (nonlinear_arith)
    requires
        -aa <= a <= aa,
        -bb <= b <= bb,
    ensures
        -(aa * bb) <= a * b <= aa * bb,
{
}

/// A dot product of vectors bounded by `ba` and `bb` is bounded by
/// `3 * ba * bb`.
pub proof fn lemma_dot_bound(a: V3, b: V3, ba: int, bb: int)
    requires
        v3_bounded(a, ba),
        v3_bounded(b, bb),
    ensures
        -(3 * (ba * bb)) <= v3_dot(a, b) <= 3 * (ba * bb),
{
    lemma_mul_bound(a.x, b.x, ba, bb);
    lemma_mul_bound(a.y, b.y, ba, bb);
    lemma_mul_bound(a.z, b.z, ba, bb);
}

/// The dot product is linear in its left argument over a scaled difference.
pub proof fn lemma_dot_scale_sub(j: int, a: V3, k: int, b: V3, c: V3)
    ensures
        v3_dot(v3_sub(v3_scale(j, a), v3_scale(k, b)), c)
            == j * v3_dot(a, c) - k * v3_dot(b, c),
{
    let s = v3_sub(v3_scale(j, a), v3_scale(k, b));
    let p1: int = a.x * c.x;
    let p2: int = a.y * c.y;
    let p3: int = a.z * c.z;
    let q1: int = b.x * c.x;
    let q2: int = b.y * c.y;
    let q3: int = b.z * c.z;
    assert(s.x * c.x == j * p1 - k * q1) by (nonlinear_arith)
        requires
            s.x == j * a.x - k * b.x,
            p1 == a.x * c.x,
            q1 == b.x * c.x;
    assert(s.y * c.y == j * p2 - k * q2) by (nonlinear_arith)
        requires
            s.y == j * a.y - k * b.y,
            p2 == a.y * c.y,
            q2 == b.y * c.y;
    assert(s.z * c.z == j * p3 - k * q3) by (nonlinear_arith)
        requires
            s.z == j * a.z - k * b.z,
            p3 == a.z * c.z,
            q3 == b.z * c.z;
    assert(j * (p1 + p2 + p3) == j * p1 + j * p2 + j * p3) by (nonlinear_arith);
    assert(k * (q1 + q2 + q3) == k * q1 + k * q2 + k * q3) by (nonlinear_arith);
}

/// The rejection of `delta` from `d` is orthogonal to `d`.
pub proof fn lemma_reject_orthogonal(delta: V3, d: V3)
    ensures
        v3_dot(v3_reject_scaled(delta, d), d) == 0,
{
    lemma_dot_scale_sub(v3_dot(d, d), delta, v3_dot(delta, d), d, d);
    assert(v3_dot(d, d) * v3_dot(delta, d) - v3_dot(delta, d) * v3_dot(d, d) == 0)
        by (nonlinear_arith);
}

/// A cross product is orthogonal to both of its factors.
pub proof fn lemma_cross_orthogonal(a: V3, b: V3)
    ensures
        v3_dot(v3_cross(a, b), a) == 0,
        v3_dot(v3_cross(a, b), b) == 0,
{
    let c = v3_cross(a, b);
    let p: int = a.x * (a.y * b.z);
    let q: int = a.x * (a.z * b.y);
    let r: int = a.y * (a.z * b.x);
    assert(c.x * a.x == p - q) by (nonlinear_arith)
        requires
            c.x == a.y * b.z - a.z * b.y,
            p == a.x * (a.y * b.z),
            q == a.x * (a.z * b.y);
    assert(c.y * a.y == r - p) by (nonlinear_arith)
        requires
            c.y == a.z * b.x - a.x * b.z,
            r == a.y * (a.z * b.x),
            p == a.x * (a.y * b.z);
    assert(c.z * a.z == q - r) by (nonlinear_arith)
        requires
            c.z == a.x * b.y - a.y * b.x,
            q == a.x * (a.z * b.y),
            r == a.y * (a.z * b.x);
    let s: int = b.x * (a.y * b.z);
    let t: int = b.x * (a.z * b.y);
    let u: int = b.y * (a.x * b.z);
    assert(c.x * b.x == s - t) by (nonlinear_arith)
        requires
            c.x == a.y * b.z - a.z * b.y,
            s == b.x * (a.y * b.z),
            t == b.x * (a.z * b.y);
    assert(c.y * b.y == t - u) by (nonlinear_arith)
        requires
            c.y == a.z * b.x - a.x * b.z,
            t == b.x * (a.z * b.y),
            u == b.y * (a.x * b.z);
    assert(c.z * b.z == u - s) by (nonlinear_arith)
        requires
            c.z == a.x * b.y - a.y * b.x,
            u == b.y * (a.x * b.z),
            s == b.x * (a.y * b.z);
}

/// Negating a factor negates a dot product.
pub proof fn lemma_dot_neg(a: V3, b: V3)
    ensures
        v3_dot(v3_neg(a), b) == -v3_dot(a, b),
        v3_dot(a, v3_neg(b)) == -v3_dot(a, b),
{
    assert((-a.x) * b.x == -(a.x * b.x) && (-a.y) * b.y == -(a.y * b.y) && (-a.z) * b.z
        == -(a.z * b.z) && a.x * (-b.x) == -(a.x * b.x) && a.y * (-b.y) == -(a.y * b.y)
        && a.z * (-b.z) == -(a.z * b.z)) by (nonlinear_arith);
}

/// Difference of two position vectors.
pub fn sub_vec3(a: &Vec3, b: &Vec3) -> (r: Vec3)
    requires
        v3_bounded(a@, COORD_LIMIT as int),
        v3_bounded(b@, COORD_LIMIT as int),
    ensures
        r@ == v3_sub(a@, b@),
        v3_bounded(r@, DELTA_LIMIT as int),
{
    Vec3 { x: a.x - b.x, y: a.y - b.y, z: a.z - b.z }
}

/// Dot product computed in wide arithmetic; both arguments bounded by
/// `DIR_LIMIT`, which covers positions, deltas and directions alike.
pub fn dot_wide(a: &Vec3, b: &Vec3) -> (r: i128)
    requires
        v3_bounded(a@, DIR_LIMIT as int),
        v3_bounded(b@, DIR_LIMIT as int),
    ensures
        r == v3_dot(a@, b@),
{
    proof {
        lemma_mul_bound(a.x as int, b.x as int, DIR_LIMIT as int, DIR_LIMIT as int);
        lemma_mul_bound(a.y as int, b.y as int, DIR_LIMIT as int, DIR_LIMIT as int);
        lemma_mul_bound(a.z as int, b.z as int, DIR_LIMIT as int, DIR_LIMIT as int);
    }
    (a.x as i128) * (b.x as i128) + (a.y as i128) * (b.y as i128)
        + (a.z as i128) * (b.z as i128)
}

/// The scaled rejection of `delta` from `d`, exactly as
/// `v3_reject_scaled` states it.
pub fn reject_scaled(delta: &Vec3, d: &Vec3) -> (r: Vec3Wide)
    requires
        v3_bounded(delta@, DELTA_LIMIT as int),
        v3_bounded(d@, DIR_LIMIT as int),
    ensures
        r@ == v3_reject_scaled(delta@, d@),
        v3_bounded(r@, REJECT_LIMIT as int),
{
    let dd: i128 = dot_wide(d, d);
    let dp: i128 = dot_wide(delta, d);
    proof {
        lemma_dot_bound(d@, d@, DIR_LIMIT as int, DIR_LIMIT as int);
        lemma_dot_bound(delta@, d@, DELTA_LIMIT as int, DIR_LIMIT as int);
        lemma_mul_bound(dd as int, delta.x as int, 3 * DIR_LIMIT * DIR_LIMIT, DELTA_LIMIT as int);
        lemma_mul_bound(dd as int, delta.y as int, 3 * DIR_LIMIT * DIR_LIMIT, DELTA_LIMIT as int);
        lemma_mul_bound(dd as int, delta.z as int, 3 * DIR_LIMIT * DIR_LIMIT, DELTA_LIMIT as int);
        lemma_mul_bound(dp as int, d.x as int, 3 * DELTA_LIMIT * DIR_LIMIT, DIR_LIMIT as int);
        lemma_mul_bound(dp as int, d.y as int, 3 * DELTA_LIMIT * DIR_LIMIT, DIR_LIMIT as int);
        lemma_mul_bound(dp as int, d.z as int, 3 * DELTA_LIMIT * DIR_LIMIT, DIR_LIMIT as int);
    }
    Vec3Wide {
        x: dd * (delta.x as i128) - dp * (d.x as i128),
        y: dd * (delta.y as i128) - dp * (d.y as i128),
        z: dd * (delta.z as i128) - dp * (d.z as i128),
    }
}

/// Cross product of a wide vector with a direction vector.
pub fn cross_wide(a: &Vec3Wide, b: &Vec3) -> (r: Vec3Wide)
    requires
        v3_bounded(a@, REJECT_LIMIT as int),
        v3_bounded(b@, DIR_LIMIT as int),
    ensures
        r@ == v3_cross(a@, b@),
        v3_bounded(r@, CROSS_LIMIT as int),
{
    proof {
        lemma_mul_bound(a.x as int, b.y as int, REJECT_LIMIT as int, DIR_LIMIT as int);
        lemma_mul_bound(a.x as int, b.z as int, REJECT_LIMIT as int, DIR_LIMIT as int);
        lemma_mul_bound(a.y as int, b.x as int, REJECT_LIMIT as int, DIR_LIMIT as int);
        lemma_mul_bound(a.y as int, b.z as int, REJECT_LIMIT as int, DIR_LIMIT as int);
        lemma_mul_bound(a.z as int, b.x as int, REJECT_LIMIT as int, DIR_LIMIT as int);
        lemma_mul_bound(a.z as int, b.y as int, REJECT_LIMIT as int, DIR_LIMIT as int);
    }
    Vec3Wide {
        x: a.y * (b.z as i128) - a.z * (b.y as i128),
        y: a.z * (b.x as i128) - a.x * (b.z as i128),
        z: a.x * (b.y as i128) - a.y * (b.x as i128),
    }
}

/// Coordinate-wise negation of a wide vector.
pub fn neg_wide(a: &Vec3Wide) -> (r: Vec3Wide)
    requires
        v3_bounded(a@, CROSS_LIMIT as int),
    ensures
        r@ == v3_neg(a@),
{
    Vec3Wide { x: -a.x, y: -a.y, z: -a.z }
}

/// Whether a wide vector is exactly zero.
pub fn is_zero_wide(a: &Vec3Wide) -> (r: bool)
    ensures
        r == (a@ == v3_zero()),
{
    a.x == 0 && a.y == 0 && a.z == 0
}

} // verus!
