//! The smooth-maximum blend and the best-two fold the soft operators use.

use vstd::prelude::*;

use crate::fixed::{
    FX_ONE, sat_i64, sat_add, sat_sub, tz_div, fx_mul_spec, fx_sqrt_spec, sqrt_floor,
    lemma_sqrt_floor_is, lemma_sqrt_floor_monotone, lemma_sqrt_floor_square,
    lemma_sqrt_floor_subadd, lemma_sqrt_floor_lower, abs_int, fx_add, fx_sub, fx_mul, fx_sqrt,
    tz_div_i64, fx_neg,
};
use crate::math::Vec3;
use crate::objects::{Object, wf, best_two_spec, best_two_prefix};

verus! {

/// The smooth maximum unit of `a` and `b` with smoothing `e`:
/// `(a + b + sqrt((a - b)^2 + e)) / 2`, evaluated in fixed point.
pub open spec fn smu_spec(a: int, b: int, e: int) -> int
    recommends
        e >= 0,
{
    let d = sat_sub(a, b);
    let arg = sat_add(fx_mul_spec(d, d), e);
    sat_i64(tz_div(sat_add(sat_add(a, b), fx_sqrt_spec(arg)), 2))
}

/// One step of the best-two fold: slot `cur` into the running best and
/// second-best values (strict comparisons, so earlier values win ties).
pub open spec fn best_two_step(best: int, second: int, cur: int) -> (int, int) {
    if cur < best {
        (cur, best)
    } else if cur < second {
        (best, cur)
    } else {
        (best, second)
    }
}

/// A fixed-point square is never negative.
pub proof fn lemma_fx_square_nonneg(d: int)
    ensures
        fx_mul_spec(d, d) >= 0,
{
    assert(d * d >= 0) by (nonlinear_arith);
}

/// Truncating division by two lands within one of the exact double.
proof fn lemma_halving_error(t: int)
    ensures
        abs_int(2 * tz_div(t, 2) - t) <= 1,
{
    if t >= 0 {
        vstd::arithmetic::div_mod::lemma_fundamental_div_mod(t, 2);
        vstd::arithmetic::div_mod::lemma_mod_division_less_than_divisor(t, 2);
        assert(tz_div(t, 2) == t / 2);
    } else {
        vstd::arithmetic::div_mod::lemma_fundamental_div_mod(-t, 2);
        vstd::arithmetic::div_mod::lemma_mod_division_less_than_divisor(-t, 2);
        assert(tz_div(t, 2) == -((-t) / 2));
    }
}

/// The smooth maximum unit stays within a shrinking band of the exact
/// maximum: twice the gap between `smu` and `max` is bounded by the
/// fixed-point square root of the smoothing parameter plus one unit of
/// resolution. As the smoothing parameter goes to zero the band
/// collapses to the rounding floor of the representation.
pub proof fn lemma_smu_close_to_max(a: int, b: int, e: int)
    requires
        abs_int(a) <= 1099511627776,
        abs_int(b) <= 1099511627776,
        0 <= e <= 1099511627776,
    ensures
        abs_int(2 * (smu_spec(a, b, e) - vstd::math::max(a, b))) <= sqrt_floor(
            e * FX_ONE as int,
        ) + 65538,
{
    let s_one = FX_ONE as int;
    let d = sat_sub(a, b);
    assert(d == a - b);
    let abs_d = abs_int(d);
    let dd = d * d;
    assert(dd == abs_d * abs_d && dd >= 0 && dd <= 4835703278458516698824704)
        by (nonlinear_arith)
        requires
            abs_d == abs_int(d),
            abs_d <= 2199023255552,
            dd == d * d,
    ;
    // The fixed-point square of the difference: dd / FX_ONE, unsaturated.
    assert(tz_div(dd, s_one) == dd / s_one);
    vstd::arithmetic::div_mod::lemma_div_pos_is_pos(dd, s_one);
    vstd::arithmetic::div_mod::lemma_div_is_ordered(dd, 4835703278458516698824704, s_one);
    vstd::arithmetic::div_mod::lemma_div_multiples_vanish(1125899906842624, s_one);
    assert(s_one * 1125899906842624 == 4835703278458516698824704) by (nonlinear_arith)
        requires
            s_one == 4294967296,
    ;
    let sq = fx_mul_spec(d, d);
    assert(sq == dd / s_one);
    vstd::arithmetic::div_mod::lemma_fundamental_div_mod(dd, s_one);
    vstd::arithmetic::div_mod::lemma_mod_division_less_than_divisor(dd, s_one);
    assert(s_one * sq <= dd < s_one * sq + s_one);
    let arg = sat_add(sq, e);
    assert(arg == sq + e);
    let es = e * s_one;
    assert(es >= 0 && es <= 4722366482869645213696) by (nonlinear_arith)
        requires
            es == e * s_one,
            0 <= e <= 1099511627776,
            s_one == 4294967296,
    ;
    let s = fx_sqrt_spec(arg);
    // Upper bound: s <= abs_d + sqrt_floor(e * FX_ONE) + 1.
    assert(arg * s_one == s_one * sq + es) by (nonlinear_arith)
        requires
            arg == sq + e,
            es == e * s_one,
    ;
    assert(arg * s_one <= dd + es);
    lemma_sqrt_floor_monotone(arg * s_one, dd + es);
    lemma_sqrt_floor_subadd(dd, es);
    lemma_sqrt_floor_square(abs_d);
    assert(s <= abs_d + sqrt_floor(es) + 1);
    // Lower bound: s >= abs_d - 65536.
    assert(arg * s_one >= 0) by (nonlinear_arith)
        requires
            arg >= 0,
            s_one > 0,
    ;
    crate::fixed::lemma_sqrt_floor_is(arg * s_one);
    if abs_d >= 65536 {
        assert((abs_d - 65536) * (abs_d - 65536) <= dd - s_one + 1) by (nonlinear_arith)
            requires
                abs_d >= 65536,
                s_one == 4294967296,
                dd == abs_d * abs_d,
        ;
        assert(dd - s_one + 1 <= s_one * sq);
        assert(s_one * sq <= arg * s_one) by (nonlinear_arith)
            requires
                arg == sq + e,
                e >= 0,
                s_one > 0,
        ;
        crate::fixed::lemma_sqrt_floor_lower(arg * s_one, abs_d - 65536);
    }
    assert(s >= abs_d - 65536);
    // Bound the square root of the smoothing term by a constant.
    lemma_sqrt_floor_monotone(es, 4722366482869645213696);
    lemma_sqrt_floor_square(68719476736);
    assert(4722366482869645213696 == 68719476736 * 68719476736) by (nonlinear_arith);
    assert(sqrt_floor(es) <= 68719476736);
    lemma_sqrt_floor_is(es);
    assert(sqrt_floor(es) >= 0);
    // The halved sum is exact up to one unit.
    let tv = sat_add(sat_add(a, b), s);
    assert(tv == a + b + s);
    lemma_halving_error(tv);
    let smu = smu_spec(a, b, e);
    assert(smu == sat_i64(tz_div(tv, 2)));
    assert(abs_int(tz_div(tv, 2)) <= abs_int(tv)) by {
        if tv >= 0 {
            vstd::arithmetic::div_mod::lemma_div_pos_is_pos(tv, 2);
            vstd::arithmetic::div_mod::lemma_div_nonincreasing(tv, 2);
        } else {
            vstd::arithmetic::div_mod::lemma_div_pos_is_pos(-tv, 2);
            vstd::arithmetic::div_mod::lemma_div_nonincreasing(-tv, 2);
        }
    }
    assert(smu == tz_div(tv, 2));
    assert(2 * vstd::math::max(a, b) == a + b + abs_d);
    assert(abs_int(2 * (smu - vstd::math::max(a, b))) <= sqrt_floor(es) + 65538);
}

/// The smooth maximum unit: a differentiable blend of two values that
/// approaches their maximum as the smoothing parameter shrinks.
pub fn smooth_maximum_unit(a: i64, b: i64, epsilon: i64) -> (r: i64)
    requires
        epsilon >= 0,
    ensures
        r as int == smu_spec(a as int, b as int, epsilon as int),
{
    let d = fx_sub(a, b);
    let sq = fx_mul(d, d);
    proof {
        lemma_fx_square_nonneg(sat_sub(a as int, b as int));
    }
    let arg = fx_add(sq, epsilon);
    let s = fx_sqrt(arg);
    tz_div_i64(fx_add(fx_add(a, b), s), 2)
}

/// The two smallest (when `looking_for_min`) or two largest signed
/// distances from `position` to the given nodes, best first; ties go to
/// the earlier node. With fewer than two nodes the missing slots hold
/// `i64::MAX` (or its negation when looking for the largest).
pub fn best_two_distances(objects: &Vec<Object>, position: &Vec3, looking_for_min: bool) -> (r: (
    i64,
    i64,
))
    requires
        forall|i: int| 0 <= i < objects.len() ==> wf(#[trigger] objects[i]),
    ensures
        r.0 as int == best_two_spec(objects@, *position, looking_for_min).0,
        r.1 as int == best_two_spec(objects@, *position, looking_for_min).1,
    decreases objects@, 0int,
{
    let mut best: i64 = i64::MAX;
    let mut second: i64 = i64::MAX;
    let n = objects.len();
    let mut i: usize = 0;
    while i < n
        invariant
            0 <= i <= n,
            n == objects.len(),
            forall|k: int| 0 <= k < objects.len() ==> wf(#[trigger] objects[k]),
            best as int == best_two_prefix(objects@, *position, looking_for_min, i as int).0,
            second as int == best_two_prefix(objects@, *position, looking_for_min, i as int).1,
        decreases n - i,
    {
        let d = objects[i].signed_distance_function(position);
        let cur = if looking_for_min {
            d
        } else {
            fx_neg(d)
        };
        if cur < best {
            second = best;
            best = cur;
        } else if cur < second {
            second = cur;
        }
        i += 1;
    }
    if looking_for_min {
        (best, second)
    } else {
        (fx_neg(best), fx_neg(second))
    }
}

} // verus!
