//! Saturating fixed-point arithmetic with eight decimal places.
//!
//! Every amount the library handles (prices, quantities, balances,
//! percentages, ratios) is an `i128` counting atoms of `1 / SCALE` of a unit.
//! Multiplication and division truncate toward zero and saturate at `±CAP`,
//! so every operation is total and deterministic: the same inputs always give
//! the same result, which the contracts pin down exactly.

use vstd::prelude::*;
use vstd::arithmetic::div_mod::{
    lemma_div_is_ordered, lemma_div_multiples_vanish, lemma_div_of0, lemma_div_pos_is_pos,
    lemma_fundamental_div_mod, lemma_fundamental_div_mod_converse_div, lemma_mod_bound,
    lemma_mod_multiples_basic,
    lemma_small_mod,
};
use vstd::arithmetic::mul::lemma_mul_inequality;

verus! {

/// Number of atoms in one whole unit: values carry eight decimal places.
pub const SCALE: i128 = 100_000_000;

/// Largest magnitude an arithmetic result may take (ten billion units).
pub const CAP: i128 = 1_000_000_000_000_000_000;

/// Largest exchange increment the rounding helpers accept (ten thousand units).
pub const MAX_STEP: i128 = 1_000_000_000_000;

/// Magnitude bound accepted by the arithmetic helpers; rounding a value to an
/// increment can leave the `±CAP` range by less than eight increments.
pub const BIG: i128 = CAP + 8 * MAX_STEP;

/// Magnitude bound accepted by the rounding helpers.
pub const ROUND_IN: i128 = CAP + 7 * MAX_STEP;

/// Absolute value.
pub open spec fn fx_abs(x: int) -> int {
    if x < 0 {
        -x
    } else {
        x
    }
}

/// Saturation: clamp into `[-CAP, CAP]`.
pub open spec fn clamp_cap(x: int) -> int {
    if x > CAP {
        CAP as int
    } else if x < -(CAP as int) {
        -(CAP as int)
    } else {
        x
    }
}

/// Product of two fixed-point values: magnitudes are multiplied, scaled back
/// down with truncation, saturated at `CAP`, and the sign is reapplied.
pub open spec fn spec_fx_mul(a: int, b: int) -> int {
    let m = clamp_cap(fx_abs(a) * fx_abs(b) / (SCALE as int));
    if (a < 0) != (b < 0) {
        -m
    } else {
        m
    }
}

/// Quotient of two fixed-point values, truncated toward zero and saturated at
/// `CAP`. A zero divisor saturates to `CAP`, standing in for an unbounded
/// ratio, so the operation is total.
pub open spec fn spec_fx_div(a: int, b: int) -> int {
    if b == 0 {
        CAP as int
    } else {
        let q = clamp_cap(fx_abs(a) * (SCALE as int) / fx_abs(b));
        if (a < 0) != (b < 0) {
            -q
        } else {
            q
        }
    }
}

/// Saturating sum.
pub open spec fn spec_fx_add(a: int, b: int) -> int {
    clamp_cap(a + b)
}

/// Saturating difference.
pub open spec fn spec_fx_sub(a: int, b: int) -> int {
    clamp_cap(a - b)
}

/// Largest multiple of `step` at or below `v` (`step > 0`).
pub open spec fn spec_round_dn(v: int, step: int) -> int {
    (v / step) * step
}

/// Smallest multiple of `step` at or above `v` (`step > 0`).
pub open spec fn spec_round_up(v: int, step: int) -> int {
    -spec_round_dn(-v, step)
}

/// Multiple of `step` nearest to `v`, ties away from zero (`step > 0`).
pub open spec fn spec_round_nr(v: int, step: int) -> int {
    if v >= 0 {
        ((2 * v + step) / (2 * step)) * step
    } else {
        -(((2 * (-v) + step) / (2 * step)) * step)
    }
}

pub open spec fn spec_max(a: int, b: int) -> int {
    if a >= b {
        a
    } else {
        b
    }
}

pub open spec fn spec_min(a: int, b: int) -> int {
    if a <= b {
        a
    } else {
        b
    }
}

/// Fixed-point product.
pub fn fx_mul(a: i128, b: i128) -> (r: i128)
    requires
        -BIG <= a <= BIG,
        -BIG <= b <= BIG,
    ensures
        r == spec_fx_mul(a as int, b as int),
        -CAP <= r <= CAP,
{
    let neg: bool = (a < 0) != (b < 0);
    let ma: u128 = (if a < 0 {
        -a
    } else {
        a
    }) as u128;
    let mb: u128 = (if b < 0 {
        -b
    } else {
        b
    }) as u128;
    proof {
        assert(ma * mb <= 1_000_016_000_064_000_000_000_000_000_000_000_000u128) by (nonlinear_arith)
            requires
                ma <= 1_000_008_000_000_000_000u128,
                mb <= 1_000_008_000_000_000_000u128,
        ;
    }
    let p: u128 = (ma * mb) / (SCALE as u128);
    let c: i128 = if p > (CAP as u128) {
        CAP
    } else {
        p as i128
    };
    if neg {
        -c
    } else {
        c
    }
}

/// Fixed-point quotient; a zero divisor yields `CAP`.
pub fn fx_div(a: i128, b: i128) -> (r: i128)
    requires
        -BIG <= a <= BIG,
        -BIG <= b <= BIG,
    ensures
        r == spec_fx_div(a as int, b as int),
        -CAP <= r <= CAP,
{
    if b == 0 {
        return CAP;
    }
    let neg: bool = (a < 0) != (b < 0);
    let ma: u128 = (if a < 0 {
        -a
    } else {
        a
    }) as u128;
    let mb: u128 = (if b < 0 {
        -b
    } else {
        b
    }) as u128;
    proof {
        assert(ma * (SCALE as u128) <= 100_000_800_000_000_000_000_000_000u128) by (nonlinear_arith)
            requires
                ma <= 1_000_008_000_000_000_000u128,
                (SCALE as u128) == 100_000_000u128,
        ;
    }
    let num: u128 = ma * (SCALE as u128);
    let q: u128 = num / mb;
    let c: i128 = if q > (CAP as u128) {
        CAP
    } else {
        q as i128
    };
    if neg {
        -c
    } else {
        c
    }
}

/// Saturating sum.
pub fn fx_add(a: i128, b: i128) -> (r: i128)
    requires
        -BIG <= a <= BIG,
        -BIG <= b <= BIG,
    ensures
        r == spec_fx_add(a as int, b as int),
        -CAP <= r <= CAP,
{
    let s: i128 = a + b;
    if s > CAP {
        CAP
    } else if s < -CAP {
        -CAP
    } else {
        s
    }
}

/// Saturating difference.
pub fn fx_sub(a: i128, b: i128) -> (r: i128)
    requires
        -BIG <= a <= BIG,
        -BIG <= b <= BIG,
    ensures
        r == spec_fx_sub(a as int, b as int),
        -CAP <= r <= CAP,
{
    let s: i128 = a - b;
    if s > CAP {
        CAP
    } else if s < -CAP {
        -CAP
    } else {
        s
    }
}

/// Larger of two values.
pub fn fx_max(a: i128, b: i128) -> (r: i128)
    ensures
        r == spec_max(a as int, b as int),
{
    if a >= b {
        a
    } else {
        b
    }
}

/// Smaller of two values.
pub fn fx_min(a: i128, b: i128) -> (r: i128)
    ensures
        r == spec_min(a as int, b as int),
{
    if a <= b {
        a
    } else {
        b
    }
}

/// Round `v` down to a multiple of `step`.
pub fn round_dn(v: i128, step: i128) -> (r: i128)
    requires
        -ROUND_IN <= v <= ROUND_IN,
        0 < step <= MAX_STEP,
    ensures
        r == spec_round_dn(v as int, step as int),
        v - step < r <= v,
        (r as int) % (step as int) == 0,
{
    let su: u128 = step as u128;
    if v >= 0 {
        let vu: u128 = v as u128;
        let rm: u128 = vu % su;
        proof {
            lemma_fundamental_div_mod(v as int, step as int);
            lemma_mod_multiples_basic(v as int / step as int, step as int);
        }
        let w: u128 = vu - rm;
        w as i128
    } else {
        let m: u128 = (-v) as u128;
        let t: u128 = m + su - 1;
        let rm: u128 = t % su;
        proof {
            let s: int = step as int;
            let dd: int = v as int / s;
            lemma_fundamental_div_mod(v as int, s);
            let rr: int = v as int % s;
            assert(t as int == (-dd) * s + (s - 1 - rr)) by (nonlinear_arith)
                requires
                    t as int == -(v as int) + s - 1,
                    v as int == s * dd + rr,
            ;
            lemma_fundamental_div_mod_converse_div(t as int, s, -dd, s - 1 - rr);
            lemma_fundamental_div_mod(t as int, s);
            assert(t as int - t as int % s == s * (-dd));
            assert(s * (-dd) == -(dd * s)) by (nonlinear_arith);
            lemma_mod_multiples_basic(dd, s);
            lemma_mod_multiples_basic(-dd, s);
        }
        let w: u128 = t - rm;
        -(w as i128)
    }
}

/// Round `v` up to a multiple of `step`.
pub fn round_up(v: i128, step: i128) -> (r: i128)
    requires
        -ROUND_IN <= v <= ROUND_IN,
        0 < step <= MAX_STEP,
    ensures
        r == spec_round_up(v as int, step as int),
        v <= r < v + step,
        (r as int) % (step as int) == 0,
{
    let d: i128 = round_dn(-v, step);
    proof {
        let s: int = step as int;
        assert((-(d as int)) % s == 0) by {
            lemma_fundamental_div_mod(-(v as int), s);
            lemma_mod_multiples_basic(-((-(v as int)) / s), s);
            assert((-((-(v as int)) / s)) * s == -(((-(v as int)) / s) * s)) by (nonlinear_arith);
        }
    }
    -d
}

/// Round `v` to the nearest multiple of `step`, ties away from zero.
pub fn round_nr(v: i128, step: i128) -> (r: i128)
    requires
        -ROUND_IN <= v <= ROUND_IN,
        0 < step <= MAX_STEP,
    ensures
        r == spec_round_nr(v as int, step as int),
        fx_abs(r as int) <= fx_abs(v as int) + step,
        v >= 0 ==> r >= 0,
        v <= 0 ==> r <= 0,
        (r as int) % (step as int) == 0,
{
    let neg: bool = v < 0;
    let m: u128 = (if v < 0 {
        -v
    } else {
        v
    }) as u128;
    let su: u128 = step as u128;
    let t: u128 = 2 * m + su;
    let rm: u128 = t % (2 * su);
    proof {
        let s: int = step as int;
        let mi: int = m as int;
        let qi: int = (2 * mi + s) / (2 * s);
        lemma_fundamental_div_mod(2 * mi + s, 2 * s);
        lemma_div_pos_is_pos(2 * mi + s, 2 * s);
        assert(2 * s * qi >= 0) by (nonlinear_arith)
            requires
                s > 0,
                qi >= 0,
        ;
        if mi == 0 {
            lemma_small_mod((2 * mi + s) as nat, (2 * s) as nat);
        }
        assert(t as int - rm as int == 2 * s * qi);
        assert(2 * s * qi == 2 * (s * qi)) by (nonlinear_arith);
        assert((t as int - rm as int) / 2 == s * qi);
        lemma_mod_multiples_basic(qi, s);
        lemma_mod_multiples_basic(-qi, s);
        assert((-qi) * s == -(qi * s)) by (nonlinear_arith);
        assert(qi * s == s * qi) by (nonlinear_arith);
    }
    let u: u128 = (t - rm) / 2;
    if neg {
        -(u as i128)
    } else {
        u as i128
    }
}

/// A product of non-negative values is non-negative (and capped).
pub proof fn lemma_fx_mul_nonneg(a: int, b: int)
    requires
        0 <= a,
        0 <= b,
    ensures
        0 <= spec_fx_mul(a, b) <= CAP,
{
    assert(a * b >= 0) by (nonlinear_arith)
        requires
            a >= 0,
            b >= 0,
    ;
    lemma_div_pos_is_pos(a * b, SCALE as int);
}

/// A product of a non-negative and a non-positive value is non-positive.
pub proof fn lemma_fx_mul_nonpos(a: int, b: int)
    requires
        0 <= a,
        b <= 0,
    ensures
        -(CAP as int) <= spec_fx_mul(a, b) <= 0,
{
    if b < 0 {
        assert(a * (-b) >= 0) by (nonlinear_arith)
            requires
                a >= 0,
                -b >= 0,
        ;
        lemma_div_pos_is_pos(a * (-b), SCALE as int);
    } else {
        assert(fx_abs(b) == 0);
        assert(fx_abs(a) * 0 == 0) by (nonlinear_arith);
        lemma_div_of0(SCALE as int);
    }
}

/// Scaling by a factor of at most one does not increase a non-negative
/// value.
pub proof fn lemma_fx_mul_pct_le(a: int, b: int)
    requires
        0 <= a <= CAP,
        0 <= b <= SCALE,
    ensures
        0 <= spec_fx_mul(a, b) <= a,
{
    lemma_fx_mul_nonneg(a, b);
    lemma_mul_inequality(b, SCALE as int, a);
    assert(b * a == a * b) by (nonlinear_arith);
    assert(SCALE as int * a == a * SCALE) by (nonlinear_arith);
    lemma_div_is_ordered(a * b, a * (SCALE as int), SCALE as int);
    lemma_div_multiples_vanish(a, SCALE as int);
    assert((SCALE as int) * a == a * (SCALE as int)) by (nonlinear_arith);
}

/// Scaling by a factor of at least one does not decrease a non-negative
/// value (up to the cap).
pub proof fn lemma_fx_mul_pct_ge(a: int, b: int)
    requires
        0 <= a <= CAP,
        SCALE <= b,
    ensures
        a <= spec_fx_mul(a, b) <= CAP,
{
    lemma_fx_mul_nonneg(a, b);
    lemma_mul_inequality(SCALE as int, b, a);
    assert((SCALE as int) * a == a * (SCALE as int)) by (nonlinear_arith);
    assert(b * a == a * b) by (nonlinear_arith);
    lemma_div_is_ordered(a * (SCALE as int), a * b, SCALE as int);
    lemma_div_multiples_vanish(a, SCALE as int);
}

/// A quotient of non-negative values is non-negative (a zero divisor
/// saturates high).
pub proof fn lemma_fx_div_nonneg(a: int, b: int)
    requires
        0 <= a,
        0 <= b,
    ensures
        0 <= spec_fx_div(a, b) <= CAP,
{
    if b != 0 {
        lemma_div_pos_is_pos(a * (SCALE as int), b);
    }
}

/// A quotient of a non-positive value by a positive one is non-positive.
pub proof fn lemma_fx_div_nonpos(a: int, b: int)
    requires
        a <= 0,
        0 < b,
    ensures
        -(CAP as int) <= spec_fx_div(a, b) <= 0,
{
    lemma_div_pos_is_pos((-a) * (SCALE as int), b);
}

/// Rounding down lands on a multiple of the step, at most one step below.
pub proof fn lemma_round_dn_props(v: int, s: int)
    requires
        0 < s,
    ensures
        spec_round_dn(v, s) % s == 0,
        v - s < spec_round_dn(v, s) <= v,
        v >= 0 ==> spec_round_dn(v, s) >= 0,
{
    lemma_fundamental_div_mod(v, s);
    lemma_mod_bound(v, s);
    lemma_mod_multiples_basic(v / s, s);
    assert(s * (v / s) == (v / s) * s) by (nonlinear_arith);
    if v >= 0 {
        lemma_div_pos_is_pos(v, s);
        assert((v / s) * s >= 0) by (nonlinear_arith)
            requires
                v / s >= 0,
                s > 0,
        ;
    }
}

/// Rounding up lands on a multiple of the step, at most one step above.
pub proof fn lemma_round_up_props(v: int, s: int)
    requires
        0 < s,
    ensures
        spec_round_up(v, s) % s == 0,
        v <= spec_round_up(v, s) < v + s,
        v >= 0 ==> spec_round_up(v, s) >= 0,
{
    lemma_round_dn_props(-v, s);
    lemma_mod_multiples_basic(-((-v) / s), s);
    assert((-((-v) / s)) * s == -(((-v) / s) * s)) by (nonlinear_arith);
}

/// Rounding to nearest lands on a multiple of the step, within half a step,
/// and keeps the sign.
pub proof fn lemma_round_nr_props(v: int, s: int)
    requires
        0 < s,
    ensures
        spec_round_nr(v, s) % s == 0,
        2 * fx_abs(spec_round_nr(v, s) - v) <= s,
        v >= 0 ==> spec_round_nr(v, s) >= 0,
        v <= 0 ==> spec_round_nr(v, s) <= 0,
{
    let m = fx_abs(v);
    let q = (2 * m + s) / (2 * s);
    lemma_fundamental_div_mod(2 * m + s, 2 * s);
    lemma_div_pos_is_pos(2 * m + s, 2 * s);
    assert(2 * s * q == 2 * (q * s)) by (nonlinear_arith);
    assert(q * s >= 0) by (nonlinear_arith)
        requires
            q >= 0,
            s > 0,
    ;
    lemma_mod_multiples_basic(q, s);
    lemma_mod_multiples_basic(-q, s);
    assert((-q) * s == -(q * s)) by (nonlinear_arith);
    if v == 0 {
        assert(q == 0) by (nonlinear_arith)
            requires
                s > 0,
                2 * m + s == 2 * s * q + ((2 * m + s) % (2 * s)),
                (2 * m + s) % (2 * s) >= 0,
                m == 0,
                q >= 0,
        ;
    }
}

} // verus!
