//! Three-component fixed-point vectors, with `y` pointing up.
use vstd::prelude::*;

use crate::fixed::{
    abs, div_toward_zero, fits_i64, floor_sqrt, fmul, is_floor_sqrt, lemma_floor_sqrt_le,
    lemma_fmul_shrink, lemma_mul_abs_bound, lemma_tdiv_bounds, lemma_tdiv_monotone, mul_fx, tdiv, ONE,
};

verus! {

/// The largest component magnitude that the vector operations accept (2^50).
pub const MAG_LIMIT: i64 = 1_125_899_906_842_624;

/// A vector of mathematical integers: the model of [`Vec3`].
pub ghost struct V3 {
    pub x: int,
    pub y: int,
    pub z: int,
}

/// A fixed-point vector; each component counts millionths of a unit.
#[derive(Clone, Copy, Debug, PartialEq, Eq, Structural)]
pub struct Vec3 {
    pub x: i64,
    pub y: i64,
    pub z: i64,
}

impl View for Vec3 {
    type V = V3;

    open spec fn view(&self) -> V3 {
        V3 { x: self.x as int, y: self.y as int, z: self.z as int }
    }
}

pub open spec fn v3(x: int, y: int, z: int) -> V3 {
    V3 { x, y, z }
}

/// Every component of `v` has magnitude at most `b`.
pub open spec fn within(v: V3, b: int) -> bool {
    abs(v.x) <= b && abs(v.y) <= b && abs(v.z) <= b
}

pub open spec fn fits(v: V3) -> bool {
    fits_i64(v.x) && fits_i64(v.y) && fits_i64(v.z)
}

pub open spec fn vadd(a: V3, b: V3) -> V3 {
    v3(a.x + b.x, a.y + b.y, a.z + b.z)
}

pub open spec fn vsub(a: V3, b: V3) -> V3 {
    v3(a.x - b.x, a.y - b.y, a.z - b.z)
}

/// Each component multiplied by the fixed-point scalar `k`.
pub open spec fn scale(v: V3, k: int) -> V3 {
    v3(fmul(v.x, k), fmul(v.y, k), fmul(v.z, k))
}

/// The fixed-point dot product.
pub open spec fn dot(a: V3, b: V3) -> int {
    tdiv(a.x * b.x + a.y * b.y + a.z * b.z, ONE as int)
}

/// The square root of `n`, rounded down.
pub open spec fn sqrt_floor(n: int) -> int {
    choose|r: int| is_floor_sqrt(n, r)
}

/// The length of the horizontal (x, z) part, rounded down.
pub open spec fn length_xz(v: V3) -> int {
    sqrt_floor(v.x * v.x + v.z * v.z)
}

/// The length, rounded down.
pub open spec fn length(v: V3) -> int {
    sqrt_floor(v.x * v.x + v.y * v.y + v.z * v.z)
}

/// The floor square root is unique, so [`sqrt_floor`] names it.
pub proof fn lemma_sqrt_floor_is(n: int, r: int)
    requires
        is_floor_sqrt(n, r),
    ensures
        sqrt_floor(n) == r,
{
    let s = sqrt_floor(n);
    assert(is_floor_sqrt(n, s));
    if s < r {
        assert(false) by (nonlinear_arith)
            requires
                0 <= s < r,
                r * r <= n,
                n < (s + 1) * (s + 1),
        ;
    }
    if r < s {
        assert(false) by (nonlinear_arith)
            requires
                0 <= r < s,
                s * s <= n,
                n < (r + 1) * (r + 1),
        ;
    }
}

/// The squared magnitudes of a bounded vector.
proof fn lemma_squares_bound(v: V3, b: int)
    requires
        within(v, b),
    ensures
        0 <= v.x * v.x <= b * b,
        0 <= v.y * v.y <= b * b,
        0 <= v.z * v.z <= b * b,
{
    lemma_square_bound(v.x, b);
    lemma_square_bound(v.y, b);
    lemma_square_bound(v.z, b);
}

proof fn lemma_square_bound(a: int, b: int)
    requires
        abs(a) <= b,
    ensures
        0 <= a * a <= b * b,
{
    assert(0 <= a * a <= b * b) by (nonlinear_arith)
        requires
            -b <= a <= b,
    ;
}

/// A dot product with a vector of unit-sized components is at most three times the
/// bound of the other.
pub proof fn lemma_dot_bound(a: V3, b: V3, ba: int)
    requires
        within(a, ba),
        within(b, ONE as int),
    ensures
        abs(dot(a, b)) <= 3 * ba,
{
    lemma_mul_abs_bound(a.x, b.x, ba, ONE as int);
    lemma_mul_abs_bound(a.y, b.y, ba, ONE as int);
    lemma_mul_abs_bound(a.z, b.z, ba, ONE as int);
    let s = a.x * b.x + a.y * b.y + a.z * b.z;
    lemma_tdiv_monotone(abs(s), 3 * ba * ONE, ONE as int);
    assert(3 * ba * ONE / (ONE as int) == 3 * ba) by (nonlinear_arith);
    assert(abs(tdiv(s, ONE as int)) == tdiv(abs(s), ONE as int));
}

/// Scaling a vector of unit-sized components by `k` gives components of magnitude at
/// most `|k|`; scaling any vector by a factor of magnitude at most one does not grow it.
pub proof fn lemma_scale_bound(v: V3, k: int)
    ensures
        within(v, ONE as int) ==> within(scale(v, k), abs(k)),
        abs(k) <= ONE ==> abs(scale(v, k).x) <= abs(v.x) && abs(scale(v, k).y) <= abs(v.y)
            && abs(scale(v, k).z) <= abs(v.z),
{
    if within(v, ONE as int) {
        lemma_fmul_shrink(k, v.x);
        lemma_fmul_shrink(k, v.y);
        lemma_fmul_shrink(k, v.z);
    }
    if abs(k) <= ONE {
        lemma_fmul_shrink(v.x, k);
        lemma_fmul_shrink(v.y, k);
        lemma_fmul_shrink(v.z, k);
    }
}

impl Vec3 {
    pub fn new(x: i64, y: i64, z: i64) -> (r: Vec3)
        ensures
            r@ == v3(x as int, y as int, z as int),
    {
        Vec3 { x, y, z }
    }

    pub fn zero() -> (r: Vec3)
        ensures
            r@ == v3(0, 0, 0),
    {
        Vec3 { x: 0, y: 0, z: 0 }
    }

    pub fn add(self, o: Vec3) -> (r: Vec3)
        requires
            fits(vadd(self@, o@)),
        ensures
            r@ == vadd(self@, o@),
    {
        Vec3 { x: self.x + o.x, y: self.y + o.y, z: self.z + o.z }
    }

    pub fn sub(self, o: Vec3) -> (r: Vec3)
        requires
            fits(vsub(self@, o@)),
        ensures
            r@ == vsub(self@, o@),
    {
        Vec3 { x: self.x - o.x, y: self.y - o.y, z: self.z - o.z }
    }

    pub fn scale(self, k: i64) -> (r: Vec3)
        requires
            fits(scale(self@, k as int)),
        ensures
            r@ == scale(self@, k as int),
    {
        Vec3 { x: mul_fx(self.x, k), y: mul_fx(self.y, k), z: mul_fx(self.z, k) }
    }

    /// The fixed-point dot product, for a bounded `self` and an `o` of unit-sized components.
    pub fn dot(self, o: Vec3) -> (r: i64)
        requires
            within(self@, MAG_LIMIT as int),
            within(o@, ONE as int),
        ensures
            r == dot(self@, o@),
            abs(r as int) <= 3 * MAG_LIMIT,
    {
        let ghost a = self@;
        let ghost b = o@;
        proof {
            lemma_mul_abs_bound(a.x, b.x, MAG_LIMIT as int, ONE as int);
            lemma_mul_abs_bound(a.y, b.y, MAG_LIMIT as int, ONE as int);
            lemma_mul_abs_bound(a.z, b.z, MAG_LIMIT as int, ONE as int);
            lemma_tdiv_bounds(a.x * b.x + a.y * b.y + a.z * b.z, ONE as int);
        }
        let s: i128 = (self.x as i128) * (o.x as i128) + (self.y as i128) * (o.y as i128) + (
        self.z as i128) * (o.z as i128);
        let q = div_toward_zero(s, ONE as i128);
        proof {
            assert(abs(s as int) <= 3 * MAG_LIMIT * ONE);
            assert(abs(q as int) * ONE <= 3 * MAG_LIMIT * ONE);
        }
        q as i64
    }

    /// The length of the horizontal (x, z) part, rounded down.
    pub fn length_xz(self) -> (r: i64)
        requires
            within(self@, MAG_LIMIT as int),
        ensures
            r == length_xz(self@),
            0 <= r <= 2 * MAG_LIMIT,
            is_floor_sqrt(self@.x * self@.x + self@.z * self@.z, r as int),
    {
        proof {
            lemma_squares_bound(self@, MAG_LIMIT as int);
        }
        let n: u128 = ((self.x as i128) * (self.x as i128) + (self.z as i128) * (
        self.z as i128)) as u128;
        let r = floor_sqrt(n);
        proof {
            lemma_sqrt_floor_is(n as int, r as int);
            lemma_floor_sqrt_le(n as int, r as int, 2 * MAG_LIMIT);
        }
        r as i64
    }

    /// The length, rounded down.
    pub fn length(self) -> (r: i64)
        requires
            within(self@, MAG_LIMIT as int),
        ensures
            r == length(self@),
            0 <= r <= 2 * MAG_LIMIT,
            is_floor_sqrt(self@.x * self@.x + self@.y * self@.y + self@.z * self@.z, r as int),
    {
        proof {
            lemma_squares_bound(self@, MAG_LIMIT as int);
        }
        let n: u128 = ((self.x as i128) * (self.x as i128) + (self.y as i128) * (
        self.y as i128) + (self.z as i128) * (self.z as i128)) as u128;
        let r = floor_sqrt(n);
        proof {
            lemma_sqrt_floor_is(n as int, r as int);
            lemma_floor_sqrt_le(n as int, r as int, 2 * MAG_LIMIT);
        }
        r as i64
    }
}

} // verus!
