//! Fixed-point scalars: an `i64` counts millionths of a unit.
use vstd::prelude::*;

verus! {

/// The fixed-point representation of `1`.
pub const ONE: i64 = 1_000_000;

/// Division rounding toward zero, as Rust's integer `/` does.
pub open spec fn tdiv(n: int, d: int) -> int {
    if n >= 0 {
        n / d
    } else {
        -((-n) / d)
    }
}

/// The fixed-point product of `a` and `b`, rounded toward zero.
pub open spec fn fmul(a: int, b: int) -> int {
    tdiv(a * b, ONE as int)
}

/// The fixed-point quotient of `a` by `b`, rounded toward zero.
pub open spec fn fdiv(a: int, b: int) -> int {
    tdiv(a * ONE, b)
}

pub open spec fn abs(a: int) -> int {
    if a < 0 {
        -a
    } else {
        a
    }
}

pub open spec fn min(a: int, b: int) -> int {
    if a <= b {
        a
    } else {
        b
    }
}

pub open spec fn max(a: int, b: int) -> int {
    if a >= b {
        a
    } else {
        b
    }
}

pub open spec fn clamp(a: int, lo: int, hi: int) -> int {
    max(lo, min(a, hi))
}

/// `r` is the square root of `n`, rounded down.
pub open spec fn is_floor_sqrt(n: int, r: int) -> bool {
    0 <= r && r * r <= n && n < (r + 1) * (r + 1)
}

/// An `i64` holds `a`.
pub open spec fn fits_i64(a: int) -> bool {
    i64::MIN <= a <= i64::MAX
}

pub proof fn lemma_tdiv_bounds(n: int, d: int)
    requires
        d > 0,
    ensures
        abs(tdiv(n, d)) <= abs(n),
        abs(tdiv(n, d)) * d <= abs(n),
        n >= 0 ==> tdiv(n, d) >= 0,
        n <= 0 ==> tdiv(n, d) <= 0,
{
    if n >= 0 {
        assert(0 <= n / d <= n) by (nonlinear_arith)
            requires
                n >= 0,
                d > 0,
        ;
        assert((n / d) * d <= n) by (nonlinear_arith)
            requires
                n >= 0,
                d > 0,
        ;
    } else {
        let m = -n;
        assert(0 <= m / d <= m) by (nonlinear_arith)
            requires
                m >= 0,
                d > 0,
        ;
        assert((m / d) * d <= m) by (nonlinear_arith)
            requires
                m >= 0,
                d > 0,
        ;
    }
}

/// Dividing a larger magnitude gives a larger magnitude.
pub proof fn lemma_tdiv_monotone(n: int, m: int, d: int)
    requires
        d > 0,
        0 <= n <= m,
    ensures
        0 <= tdiv(n, d) <= tdiv(m, d),
{
    assert(0 <= n / d <= m / d) by (nonlinear_arith)
        requires
            d > 0,
            0 <= n <= m,
    ;
}

pub proof fn lemma_mul_abs_bound(a: int, b: int, ba: int, bb: int)
    requires
        abs(a) <= ba,
        abs(b) <= bb,
    ensures
        abs(a * b) <= ba * bb,
        abs(a * b) == abs(a) * abs(b),
{
    assert(abs(a * b) == abs(a) * abs(b)) by (nonlinear_arith);
    assert(abs(a) * abs(b) <= ba * bb) by (nonlinear_arith)
        requires
            0 <= abs(a) <= ba,
            0 <= abs(b) <= bb,
    ;
}

/// A fixed-point product is bounded by the product of the bounds.
pub proof fn lemma_fmul_bound(a: int, b: int, ba: int, bb: int)
    requires
        abs(a) <= ba,
        abs(b) <= bb,
    ensures
        abs(fmul(a, b)) <= ba * bb / (ONE as int),
{
    lemma_mul_abs_bound(a, b, ba, bb);
    let p = a * b;
    lemma_tdiv_monotone(abs(p), ba * bb, ONE as int);
    assert(abs(tdiv(p, ONE as int)) == tdiv(abs(p), ONE as int));
}

/// Scaling by a factor in `[0, 1]` keeps the sign and does not grow the magnitude.
pub proof fn lemma_fmul_unit(a: int, f: int)
    requires
        0 <= f <= ONE,
    ensures
        a >= 0 ==> 0 <= fmul(a, f) <= a,
        a <= 0 ==> a <= fmul(a, f) <= 0,
        abs(fmul(a, f)) <= abs(a),
{
    lemma_mul_abs_bound(a, f, abs(a), ONE as int);
    lemma_tdiv_monotone(abs(a * f), abs(a) * ONE, ONE as int);
    assert(abs(a) * ONE / (ONE as int) == abs(a)) by (nonlinear_arith);
    assert(a >= 0 ==> a * f >= 0) by (nonlinear_arith)
        requires
            f >= 0,
    ;
    assert(a <= 0 ==> a * f <= 0) by (nonlinear_arith)
        requires
            f >= 0,
    ;
    assert(abs(tdiv(a * f, ONE as int)) == tdiv(abs(a * f), ONE as int));
}

/// Scaling by a factor of magnitude at most one does not grow the magnitude.
pub proof fn lemma_fmul_shrink(a: int, f: int)
    requires
        abs(f) <= ONE,
    ensures
        abs(fmul(a, f)) <= abs(a),
        abs(fmul(f, a)) <= abs(a),
{
    lemma_fmul_bound(a, f, abs(a), ONE as int);
    assert(abs(a) * ONE / (ONE as int) == abs(a)) by (nonlinear_arith);
    assert(a * f == f * a) by (nonlinear_arith);
}

/// A quotient whose magnitude is covered by `d * ONE` has magnitude at most `ONE`.
pub proof fn lemma_tdiv_unit(n: int, d: int)
    requires
        d > 0,
        abs(n) <= d * ONE,
    ensures
        abs(tdiv(n, d)) <= ONE,
{
    lemma_tdiv_monotone(abs(n), d * ONE, d);
    assert(d * ONE / d == ONE as int) by (nonlinear_arith)
        requires
            d > 0,
    ;
    assert(abs(tdiv(n, d)) == tdiv(abs(n), d));
}

/// Multiplying by one changes nothing.
pub proof fn lemma_fmul_one(a: int)
    ensures
        fmul(a, ONE as int) == a,
        fmul(ONE as int, a) == a,
        fmul(a, 0) == 0,
        fmul(0, a) == 0,
{
    assert(a * ONE / (ONE as int) == a) by (nonlinear_arith);
    assert((-a) * ONE / (ONE as int) == -a) by (nonlinear_arith);
    assert(a * ONE == ONE * a) by (nonlinear_arith);
}

/// A floor square root is at least the magnitude of any number whose square it covers.
pub proof fn lemma_floor_sqrt_ge(n: int, r: int, a: int)
    requires
        is_floor_sqrt(n, r),
        a * a <= n,
    ensures
        abs(a) <= r,
{
    assert(abs(a) <= r) by (nonlinear_arith)
        requires
            0 <= r,
            a * a <= n,
            n < (r + 1) * (r + 1),
    ;
}

/// A floor square root is at most the bound of a number whose square covers it.
pub proof fn lemma_floor_sqrt_le(n: int, r: int, b: int)
    requires
        is_floor_sqrt(n, r),
        0 <= b,
        n <= b * b,
    ensures
        r <= b,
{
    assert(r <= b) by (nonlinear_arith)
        requires
            0 <= r,
            0 <= b,
            r * r <= n,
            n <= b * b,
    ;
}

/// The fixed-point product of `a` and `b`, rounded toward zero.
pub fn mul_fx(a: i64, b: i64) -> (r: i64)
    requires
        fits_i64(fmul(a as int, b as int)),
    ensures
        r == fmul(a as int, b as int),
{
    let p: i128 = (a as i128) * (b as i128);
    div_toward_zero(p, ONE as i128) as i64
}

/// `n / d` rounded toward zero, for a positive `d`.
pub fn div_toward_zero(n: i128, d: i128) -> (r: i128)
    requires
        d > 0,
        n > i128::MIN,
    ensures
        r == tdiv(n as int, d as int),
{
    proof {
        lemma_tdiv_bounds(n as int, d as int);
    }
    if n >= 0 {
        let q: u128 = (n as u128) / (d as u128);
        q as i128
    } else {
        let m: u128 = (-n) as u128;
        let q: u128 = m / (d as u128);
        -(q as i128)
    }
}

/// The square root of `n`, rounded down.
pub fn floor_sqrt(n: u128) -> (r: u128)
    requires
        n < 0x1_0000_0000_0000_0000_0000_0000_0000,
    ensures
        is_floor_sqrt(n as int, r as int),
        r <= 0x1_0000_0000_0000_00,
{
    let mut lo: u128 = 0;
    let mut hi: u128 = 0x1_0000_0000_0000_00;
    assert(hi * hi == 0x1_0000_0000_0000_0000_0000_0000_0000);
    while hi - lo > 1
        invariant
            lo < hi <= 0x1_0000_0000_0000_00,
            lo * lo <= n,
            n < hi * hi,
        decreases hi - lo,
    {
        let mid: u128 = lo + (hi - lo) / 2;
        assert(mid * mid <= hi * hi) by (nonlinear_arith)
            requires
                mid <= hi,
        ;
        assert(hi * hi <= 0x1_0000_0000_0000_0000_0000_0000_0000) by (nonlinear_arith)
            requires
                hi <= 0x1_0000_0000_0000_00,
        ;
        if mid * mid <= n {
            lo = mid;
        } else {
            hi = mid;
        }
    }
    assert(hi == lo + 1);
    lo
}

} // verus!
