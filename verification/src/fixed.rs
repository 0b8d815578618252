//! Fixed-point scalars.
//!
//! A scalar is an `i64` holding the real value scaled by [`FX_ONE`] = 2^32.
//! All operations saturate at the `i64` range instead of overflowing, and
//! every operation's contract states its result exactly over mathematical
//! integers: truncating (round-toward-zero) division and the floor square
//! root are the two rounding primitives.

use vstd::prelude::*;

verus! {

/// The fixed-point representation of the real number 1 (2^32).
pub const FX_ONE: i64 = 4294967296;

/// Absolute value of a mathematical integer.
pub open spec fn abs_int(a: int) -> int {
    if a < 0 {
        -a
    } else {
        a
    }
}

/// Saturation of a mathematical integer to the `i64` range.
pub open spec fn sat_i64(v: int) -> int {
    if v < i64::MIN {
        i64::MIN as int
    } else if v > i64::MAX {
        i64::MAX as int
    } else {
        v
    }
}

/// Truncating (round-toward-zero) division, the rounding used by every
/// fixed-point operation. Unspecified when `b == 0`.
pub open spec fn tz_div(a: int, b: int) -> int
    recommends
        b != 0,
{
    let q = abs_int(a) / abs_int(b);
    if (a < 0) <==> (b < 0) {
        q
    } else {
        -q
    }
}

/// `r` is the floor of the real square root of `n`.
pub open spec fn is_sqrt_floor(n: int, r: int) -> bool {
    &&& 0 <= r
    &&& r * r <= n
    &&& n < (r + 1) * (r + 1)
}

/// The floor of the real square root of `n` (for `n >= 0`).
pub open spec fn sqrt_floor(n: int) -> int {
    choose|r: int| is_sqrt_floor(n, r)
}

/// Saturating addition.
pub open spec fn sat_add(a: int, b: int) -> int {
    sat_i64(a + b)
}

/// Saturating subtraction.
pub open spec fn sat_sub(a: int, b: int) -> int {
    sat_i64(a - b)
}

/// Saturating negation.
pub open spec fn sat_neg(a: int) -> int {
    sat_i64(-a)
}

/// Fixed-point product: `a * b` rescaled by `FX_ONE`, truncated and saturated.
pub open spec fn fx_mul_spec(a: int, b: int) -> int {
    sat_i64(tz_div(a * b, FX_ONE as int))
}

/// Fixed-point quotient: `a / b` rescaled by `FX_ONE`, truncated and
/// saturated. Unspecified when `b == 0`.
pub open spec fn fx_div_spec(a: int, b: int) -> int
    recommends
        b != 0,
{
    sat_i64(tz_div(a * FX_ONE as int, b))
}

/// Fixed-point square root: the floor square root of `a * FX_ONE`, which
/// represents the real square root of the value `a` stands for.
pub open spec fn fx_sqrt_spec(a: int) -> int
    recommends
        a >= 0,
{
    sqrt_floor(a * FX_ONE as int)
}

proof fn lemma_sqrt_floor_witness(n: int) -> (r: int)
    requires
        n >= 0,
    ensures
        is_sqrt_floor(n, r),
    decreases n,
{
    if n == 0 {
        assert(is_sqrt_floor(0, 0)) by (nonlinear_arith);
        0
    } else {
        let p = lemma_sqrt_floor_witness(n - 1);
        if n < (p + 1) * (p + 1) {
            assert(p * p <= n);
            p
        } else {
            assert(n == (p + 1) * (p + 1));
            assert((p + 2) * (p + 2) > (p + 1) * (p + 1)) by (nonlinear_arith)
                requires
                    p >= 0,
            ;
            assert(is_sqrt_floor(n, p + 1));
            p + 1
        }
    }
}

/// The floor square root exists: `sqrt_floor(n)` satisfies its defining
/// predicate whenever `n >= 0`.
pub proof fn lemma_sqrt_floor_is(n: int)
    requires
        n >= 0,
    ensures
        is_sqrt_floor(n, sqrt_floor(n)),
{
    let w = lemma_sqrt_floor_witness(n);
    assert(is_sqrt_floor(n, w));
}

/// The floor square root is unique: any `r` satisfying the defining
/// predicate equals `sqrt_floor(n)`.
pub proof fn lemma_sqrt_floor_unique(n: int, r: int)
    requires
        is_sqrt_floor(n, r),
    ensures
        r == sqrt_floor(n),
{
    let s = sqrt_floor(n);
    assert(is_sqrt_floor(n, s));
    assert(r < s ==> (r + 1) * (r + 1) <= s * s) by (nonlinear_arith)
        requires
            0 <= r,
            0 <= s,
    ;
    assert(s < r ==> (s + 1) * (s + 1) <= r * r) by (nonlinear_arith)
        requires
            0 <= r,
            0 <= s,
    ;
}

/// The floor square root does not decrease when its argument grows.
pub proof fn lemma_sqrt_floor_monotone(m: int, n: int)
    requires
        0 <= m <= n,
    ensures
        sqrt_floor(m) <= sqrt_floor(n),
{
    lemma_sqrt_floor_is(m);
    lemma_sqrt_floor_is(n);
    let a = sqrt_floor(m);
    let b = sqrt_floor(n);
    assert(b < a ==> (b + 1) * (b + 1) <= a * a) by (nonlinear_arith)
        requires
            0 <= a,
            0 <= b,
    ;
}

/// The floor square root of a perfect square is its root.
pub proof fn lemma_sqrt_floor_square(d: int)
    requires
        d >= 0,
    ensures
        sqrt_floor(d * d) == d,
{
    assert(d * d < (d + 1) * (d + 1)) by (nonlinear_arith)
        requires
            d >= 0,
    ;
    assert(d * d >= 0) by (nonlinear_arith);
    lemma_sqrt_floor_unique(d * d, d);
}

/// The floor square root of a sum is at most one more than the sum of
/// the floor square roots.
pub proof fn lemma_sqrt_floor_subadd(x: int, y: int)
    requires
        x >= 0,
        y >= 0,
    ensures
        sqrt_floor(x + y) <= sqrt_floor(x) + sqrt_floor(y) + 1,
{
    lemma_sqrt_floor_is(x);
    lemma_sqrt_floor_is(y);
    lemma_sqrt_floor_is(x + y);
    let sx = sqrt_floor(x);
    let sy = sqrt_floor(y);
    let s = sqrt_floor(x + y);
    assert((sx + sy + 2) * (sx + sy + 2) > x + y) by (nonlinear_arith)
        requires
            sx >= 0,
            sy >= 0,
            x < (sx + 1) * (sx + 1),
            y < (sy + 1) * (sy + 1),
    ;
    assert(s > sx + sy + 1 ==> s * s >= (sx + sy + 2) * (sx + sy + 2)) by (nonlinear_arith)
        requires
            sx >= 0,
            sy >= 0,
            s >= 0,
    ;
}

/// Any nonnegative `t` whose square is at most `x` is at most the floor
/// square root of `x`.
pub proof fn lemma_sqrt_floor_lower(x: int, t: int)
    requires
        t >= 0,
        t * t <= x,
    ensures
        sqrt_floor(x) >= t,
{
    assert(x >= 0) by (nonlinear_arith)
        requires
            t * t <= x,
            t >= 0,
    ;
    lemma_sqrt_floor_is(x);
    let s = sqrt_floor(x);
    assert(s < t ==> (s + 1) * (s + 1) <= t * t) by (nonlinear_arith)
        requires
            s >= 0,
            t >= 0,
    ;
}

/// Multiplying by the fixed-point one is exact: it changes nothing.
pub proof fn lemma_fx_mul_one(k: int)
    requires
        i64::MIN <= k <= i64::MAX,
    ensures
        fx_mul_spec(k, FX_ONE as int) == k,
        fx_mul_spec(FX_ONE as int, k) == k,
{
    let s = FX_ONE as int;
    assert(abs_int(k * s) == abs_int(k) * s) by (nonlinear_arith)
        requires
            s > 0,
    ;
    assert(abs_int(s * k) == s * abs_int(k)) by (nonlinear_arith)
        requires
            s > 0,
    ;
    vstd::arithmetic::div_mod::lemma_div_multiples_vanish(abs_int(k), s);
    assert(abs_int(k) * s == s * abs_int(k)) by (nonlinear_arith);
    assert((k * s < 0) <==> (k < 0)) by (nonlinear_arith)
        requires
            s > 0,
    ;
    assert((s * k < 0) <==> (k < 0)) by (nonlinear_arith)
        requires
            s > 0,
    ;
}

/// Multiplying by zero is exact: the product is zero.
pub proof fn lemma_fx_mul_zero(k: int)
    ensures
        fx_mul_spec(k, 0) == 0,
        fx_mul_spec(0, k) == 0,
{
    assert(k * 0 == 0) by (nonlinear_arith);
    assert(0 * k == 0) by (nonlinear_arith);
    assert(abs_int(0) / abs_int(FX_ONE as int) == 0);
}

/// Saturate an `i128` into the `i64` range.
fn sat_to_i64(s: i128) -> (r: i64)
    ensures
        r as int == sat_i64(s as int),
{
    if s > i64::MAX as i128 {
        i64::MAX
    } else if s < i64::MIN as i128 {
        i64::MIN
    } else {
        s as i64
    }
}

/// Truncating division on `i128`, computed over unsigned magnitudes.
fn tz_div_i128(a: i128, b: i128) -> (r: i128)
    requires
        b != 0,
        a != i128::MIN,
        b != i128::MIN,
    ensures
        r as int == tz_div(a as int, b as int),
        abs_int(r as int) <= abs_int(a as int),
{
    let ua: u128 = if a < 0 {
        (-a) as u128
    } else {
        a as u128
    };
    let ub: u128 = if b < 0 {
        (-b) as u128
    } else {
        b as u128
    };
    let q: u128 = ua / ub;
    assert(ua as int == abs_int(a as int));
    assert(ub as int == abs_int(b as int));
    assert(q as int == abs_int(a as int) / abs_int(b as int));
    assert(q <= ua) by {
        vstd::arithmetic::div_mod::lemma_div_nonincreasing(ua as int, ub as int);
        vstd::arithmetic::div_mod::lemma_div_pos_is_pos(ua as int, ub as int);
    }
    if (a < 0) != (b < 0) {
        -(q as i128)
    } else {
        q as i128
    }
}

/// Saturating addition of two fixed-point scalars.
pub fn fx_add(a: i64, b: i64) -> (r: i64)
    ensures
        r as int == sat_add(a as int, b as int),
{
    sat_to_i64(a as i128 + b as i128)
}

/// Saturating subtraction of two fixed-point scalars.
pub fn fx_sub(a: i64, b: i64) -> (r: i64)
    ensures
        r as int == sat_sub(a as int, b as int),
{
    sat_to_i64(a as i128 - b as i128)
}

/// Saturating negation of a fixed-point scalar.
pub fn fx_neg(a: i64) -> (r: i64)
    ensures
        r as int == sat_neg(a as int),
{
    if a == i64::MIN {
        i64::MAX
    } else {
        -a
    }
}

/// Fixed-point multiplication: exact product rescaled by `FX_ONE`,
/// truncated toward zero and saturated.
pub fn fx_mul(a: i64, b: i64) -> (r: i64)
    ensures
        r as int == fx_mul_spec(a as int, b as int),
{
    proof {
        assert(i128::MIN < (a as int) * (b as int) && (a as int) * (b as int) < i128::MAX)
            by (nonlinear_arith)
            requires
                i64::MIN <= a <= i64::MAX,
                i64::MIN <= b <= i64::MAX,
        ;
    }
    let p: i128 = (a as i128) * (b as i128);
    let q = tz_div_i128(p, FX_ONE as i128);
    sat_to_i64(q)
}

/// Fixed-point division: `a / b` rescaled by `FX_ONE`, truncated toward
/// zero and saturated.
pub fn fx_div(a: i64, b: i64) -> (r: i64)
    requires
        b != 0,
    ensures
        r as int == fx_div_spec(a as int, b as int),
{
    proof {
        assert(i128::MIN < (a as int) * (FX_ONE as int) && (a as int) * (FX_ONE as int)
            < i128::MAX) by (nonlinear_arith)
            requires
                i64::MIN <= a <= i64::MAX,
                FX_ONE == 4294967296,
        ;
    }
    let p: i128 = (a as i128) * (FX_ONE as i128);
    let q = tz_div_i128(p, b as i128);
    sat_to_i64(q)
}

/// Truncating division of two plain `i64` values (no rescaling), saturated
/// (saturation only matters for `i64::MIN / -1`).
pub fn tz_div_i64(a: i64, b: i64) -> (r: i64)
    requires
        b != 0,
    ensures
        r as int == sat_i64(tz_div(a as int, b as int)),
{
    let q = tz_div_i128(a as i128, b as i128);
    sat_to_i64(q)
}

/// Floor square root over `u128`, by binary search.
fn isqrt_u128(n: u128) -> (r: u128)
    ensures
        is_sqrt_floor(n as int, r as int),
{
    if n == 0 {
        return 0;
    }
    let mut lo: u128 = 0;
    let mut hi: u128 = 18446744073709551616;  // 2^64
    assert((n as int) < (hi as int) * (hi as int)) by (nonlinear_arith)
        requires
            hi == 18446744073709551616u128,
            n <= u128::MAX,
    ;
    while hi - lo > 1
        invariant
            0 <= lo < hi <= 18446744073709551616u128,
            (lo as int) * (lo as int) <= n as int,
            (n as int) < (hi as int) * (hi as int),
        decreases hi - lo,
    {
        let mid: u128 = lo + (hi - lo) / 2;
        assert(lo < mid < hi);
        assert((mid as int) * (mid as int) <= u128::MAX as int) by (nonlinear_arith)
            requires
                0 <= mid as int <= 18446744073709551615int,
        ;
        if mid * mid <= n {
            lo = mid;
        } else {
            hi = mid;
        }
    }
    lo
}

/// Fixed-point square root of a nonnegative scalar: the floor square root
/// of `a * FX_ONE`.
pub fn fx_sqrt(a: i64) -> (r: i64)
    requires
        a >= 0,
    ensures
        r as int == fx_sqrt_spec(a as int),
        is_sqrt_floor(a * FX_ONE as int, r as int),
        r >= 0,
{
    proof {
        assert((a as int) * (FX_ONE as int) <= 0x8000_0000_0000_0000_0000_0000int)
            by (nonlinear_arith)
            requires
                0 <= a <= i64::MAX,
                FX_ONE == 4294967296,
        ;
    }
    let n: u128 = (a as u128) * (FX_ONE as u128);
    let s = isqrt_u128(n);
    assert(s as int * s as int <= n as int);
    assert(s <= 281474976710656) by {  // 2^48
        assert(n as int <= 0x8000_0000_0000_0000_0000_0000int) by (nonlinear_arith)
            requires
                n as int == a as int * FX_ONE as int,
                0 <= a as int <= i64::MAX,
                FX_ONE == 4294967296,
        ;
        assert(s as int > 281474976710656 ==> s as int * s as int
            > 0x8000_0000_0000_0000_0000_0000int) by (nonlinear_arith);
    }
    proof {
        lemma_sqrt_floor_unique(n as int, s as int);
    }
    s as i64
}

} // verus!
