//! The pool-growth multiplier: a concave factor in `[1.0, 1.0 + max_boost]`
//! rewarding growth of the prize pool (or of a locked amount over the unit
//! price), in `GROWTH_SCALE` fixed point.
//!
//! The real-valued curve is `1 + max_boost * (1 - r^(-curvature))` for the
//! pool ratio `r = final / initial > 1`. Here it is computed in exact integer
//! arithmetic: the inverse ratio `y = 1/r` is held in `POW_SCALE` fixed
//! point, the whole part of the exponent is applied by repeated fixed-point
//! multiplication, and the fractional part is rounded to 128ths and applied
//! through a chain of fixed-point square roots. Every step rounds down and is
//! monotone, so the whole multiplier is a non-decreasing function of the
//! final value.

use vstd::prelude::*;
use crate::constants::{GROWTH_SCALE, MAX_BOOST_LIMIT, MAX_CURVATURE, POW_SCALE};
use vstd::arithmetic::div_mod::{
    lemma_div_by_multiple, lemma_div_denominator, lemma_div_is_ordered,
    lemma_div_is_ordered_by_denominator,
};
use vstd::arithmetic::mul::{lemma_mul_inequality, lemma_mul_upper_bound};

verus! {

/// The floor of the square root of `x`.
pub open spec fn sqrt_floor(x: nat) -> nat
    decreases x,
{
    if x == 0 {
        0
    } else {
        let s = sqrt_floor((x - 1) as nat);
        if (s + 1) * (s + 1) <= x {
            s + 1
        } else {
            s
        }
    }
}

/// `sqrt_floor` squares to at most its argument, and one more overshoots.
proof fn lemma_sqrt_floor_props(x: nat)
    ensures
        sqrt_floor(x) * sqrt_floor(x) <= x,
        x < (sqrt_floor(x) + 1) * (sqrt_floor(x) + 1),
    decreases x,
{
    if x == 0 {
        assert(sqrt_floor(x) == 0);
        assert((sqrt_floor(x) + 1) * (sqrt_floor(x) + 1) == 1) by (nonlinear_arith)
            requires sqrt_floor(x) == 0;
    } else {
        lemma_sqrt_floor_props((x - 1) as nat);
        let s = sqrt_floor((x - 1) as nat);
        if (s + 1) * (s + 1) <= x {
            assert(sqrt_floor(x) == s + 1);
            assert(x <= (s + 1) * (s + 1));
            assert((s + 1) * (s + 1) < (s + 2) * (s + 2)) by (nonlinear_arith);
            assert(x < (sqrt_floor(x) + 1) * (sqrt_floor(x) + 1));
        } else {
            assert(sqrt_floor(x) == s);
            assert(sqrt_floor(x) * sqrt_floor(x) <= x);
            assert(x < (sqrt_floor(x) + 1) * (sqrt_floor(x) + 1));
        }
    }
}

/// Only one value squares to at most `x` while one more overshoots.
proof fn lemma_sqrt_floor_unique(x: nat, r: nat)
    requires
        r * r <= x,
        x < (r + 1) * (r + 1),
    ensures
        sqrt_floor(x) == r,
{
    lemma_sqrt_floor_props(x);
    let s = sqrt_floor(x);
    if s < r {
        lemma_mul_inequality(s as int + 1, r as int, s as int + 1);
        lemma_mul_inequality(s as int + 1, r as int, r as int);
    }
    if r < s {
        lemma_mul_inequality(r as int + 1, s as int, r as int + 1);
        lemma_mul_inequality(r as int + 1, s as int, s as int);
    }
}

/// The floor square root is monotone.
proof fn lemma_sqrt_floor_monotone(x: nat, y: nat)
    requires
        x <= y,
    ensures
        sqrt_floor(x) <= sqrt_floor(y),
    decreases y,
{
    if x < y {
        lemma_sqrt_floor_monotone(x, (y - 1) as nat);
    }
}

/// Square root of the `POW_SCALE` fixed-point number `s`, in the same scale.
pub open spec fn sqrt_fixed(s: nat) -> nat {
    sqrt_floor(s * (POW_SCALE as nat))
}

/// `sqrt_fixed` stays within the unit interval of the scale.
proof fn lemma_sqrt_fixed_le(s: nat)
    requires
        s <= POW_SCALE,
    ensures
        sqrt_fixed(s) <= POW_SCALE,
{
    lemma_mul_inequality(s as int, POW_SCALE as int, POW_SCALE as int);
    lemma_sqrt_floor_monotone(s * (POW_SCALE as nat), (POW_SCALE as nat) * (POW_SCALE as nat));
    assert((POW_SCALE as nat) * (POW_SCALE as nat)
        < (POW_SCALE as nat + 1) * (POW_SCALE as nat + 1)) by (nonlinear_arith);
    lemma_sqrt_floor_unique((POW_SCALE as nat) * (POW_SCALE as nat), POW_SCALE as nat);
}

/// `sqrt_fixed` is monotone.
proof fn lemma_sqrt_fixed_monotone(s1: nat, s2: nat)
    requires
        s1 <= s2,
    ensures
        sqrt_fixed(s1) <= sqrt_fixed(s2),
{
    lemma_mul_inequality(s1 as int, s2 as int, POW_SCALE as int);
    lemma_sqrt_floor_monotone(s1 * (POW_SCALE as nat), s2 * (POW_SCALE as nat));
}

/// `y^m` for the `POW_SCALE` fixed-point number `y`, rounding down after
/// each multiplication.
pub open spec fn pow_whole(y: nat, m: nat) -> nat
    decreases m,
{
    if m == 0 {
        POW_SCALE as nat
    } else {
        pow_whole(y, (m - 1) as nat) * y / (POW_SCALE as nat)
    }
}

/// Whole-exponent powers of a unit-interval number stay in the unit interval.
proof fn lemma_pow_whole_le(y: nat, m: nat)
    requires
        y <= POW_SCALE,
    ensures
        pow_whole(y, m) <= POW_SCALE,
    decreases m,
{
    if m > 0 {
        lemma_pow_whole_le(y, (m - 1) as nat);
        lemma_mul_upper_bound(
            pow_whole(y, (m - 1) as nat) as int,
            POW_SCALE as int,
            y as int,
            POW_SCALE as int,
        );
        lemma_div_is_ordered(
            (pow_whole(y, (m - 1) as nat) * y) as int,
            (POW_SCALE * POW_SCALE) as int,
            POW_SCALE as int,
        );
        lemma_div_by_multiple(POW_SCALE as int, POW_SCALE as int);
    }
}

/// Whole-exponent powers are monotone in the base.
proof fn lemma_pow_whole_monotone(y1: nat, y2: nat, m: nat)
    requires
        y1 <= y2,
    ensures
        pow_whole(y1, m) <= pow_whole(y2, m),
    decreases m,
{
    if m > 0 {
        lemma_pow_whole_monotone(y1, y2, (m - 1) as nat);
        lemma_mul_upper_bound(
            pow_whole(y1, (m - 1) as nat) as int,
            pow_whole(y2, (m - 1) as nat) as int,
            y1 as int,
            y2 as int,
        );
        lemma_div_is_ordered(
            (pow_whole(y1, (m - 1) as nat) * y1) as int,
            (pow_whole(y2, (m - 1) as nat) * y2) as int,
            POW_SCALE as int,
        );
    }
}

/// Applies the fractional exponent bits of `b` (in 128ths, scanned from the
/// `64` weight down) to the running product `p`, where `s` is the current
/// iterated square root of the base.
pub open spec fn pow_frac(s: nat, p: nat, b: nat, weight: nat) -> nat
    decreases weight,
{
    if weight == 0 {
        p
    } else {
        let s2 = sqrt_fixed(s);
        let p2 = if (b / weight) % 2 == 1 {
            p * s2 / (POW_SCALE as nat)
        } else {
            p
        };
        pow_frac(s2, p2, b, weight / 2)
    }
}

/// The fractional-exponent product stays in the unit interval.
proof fn lemma_pow_frac_le(s: nat, p: nat, b: nat, weight: nat)
    requires
        s <= POW_SCALE,
        p <= POW_SCALE,
    ensures
        pow_frac(s, p, b, weight) <= POW_SCALE,
    decreases weight,
{
    if weight > 0 {
        let s2 = sqrt_fixed(s);
        lemma_sqrt_fixed_le(s);
        if (b / weight) % 2 == 1 {
            lemma_mul_upper_bound(p as int, POW_SCALE as int, s2 as int, POW_SCALE as int);
            lemma_div_is_ordered((p * s2) as int, (POW_SCALE * POW_SCALE) as int, POW_SCALE as int);
            lemma_div_by_multiple(POW_SCALE as int, POW_SCALE as int);
            lemma_pow_frac_le(s2, p * s2 / (POW_SCALE as nat), b, weight / 2);
        } else {
            lemma_pow_frac_le(s2, p, b, weight / 2);
        }
    }
}

/// The fractional-exponent product is monotone in the base and the product.
proof fn lemma_pow_frac_monotone(s1: nat, p1: nat, s2: nat, p2: nat, b: nat, weight: nat)
    requires
        s1 <= s2,
        p1 <= p2,
    ensures
        pow_frac(s1, p1, b, weight) <= pow_frac(s2, p2, b, weight),
    decreases weight,
{
    if weight > 0 {
        lemma_sqrt_fixed_monotone(s1, s2);
        let r1 = sqrt_fixed(s1);
        let r2 = sqrt_fixed(s2);
        if (b / weight) % 2 == 1 {
            lemma_mul_upper_bound(p1 as int, p2 as int, r1 as int, r2 as int);
            lemma_div_is_ordered((p1 * r1) as int, (p2 * r2) as int, POW_SCALE as int);
            lemma_pow_frac_monotone(
                r1,
                p1 * r1 / (POW_SCALE as nat),
                r2,
                p2 * r2 / (POW_SCALE as nat),
                b,
                weight / 2,
            );
        } else {
            lemma_pow_frac_monotone(r1, p1, r2, p2, b, weight / 2);
        }
    }
}

/// `(y / POW_SCALE) ^ (curvature / 100)` in `POW_SCALE` fixed point: the
/// whole exponent applied exactly, the fractional hundredths rounded to the
/// nearest 128th and applied through the square-root chain.
pub open spec fn pow_curved(y: nat, curvature: nat) -> nat {
    let whole = curvature / 100;
    let b = ((curvature % 100) * 128 + 50) / 100;
    pow_frac(y, pow_whole(y, whole), b, 64)
}

/// The curved power of a unit-interval number stays in the unit interval.
proof fn lemma_pow_curved_le(y: nat, curvature: nat)
    requires
        y <= POW_SCALE,
    ensures
        pow_curved(y, curvature) <= POW_SCALE,
{
    lemma_pow_whole_le(y, curvature / 100);
    lemma_pow_frac_le(y, pow_whole(y, curvature / 100), ((curvature % 100) * 128 + 50) / 100, 64);
}

/// The curved power is monotone in the base.
proof fn lemma_pow_curved_monotone(y1: nat, y2: nat, curvature: nat)
    requires
        y1 <= y2,
    ensures
        pow_curved(y1, curvature) <= pow_curved(y2, curvature),
{
    let whole = curvature / 100;
    let b = ((curvature % 100) * 128 + 50) / 100;
    lemma_pow_whole_monotone(y1, y2, whole);
    lemma_pow_frac_monotone(y1, pow_whole(y1, whole), y2, pow_whole(y2, whole), b, 64);
}

/// The growth factor, in `GROWTH_SCALE` fixed point: exactly `1.0` when the
/// pool did not grow (or started empty), otherwise `1.0` plus the boost term
/// `max_boost * (1 - (initial/final)^curvature)`, with `max_boost` and
/// `curvature` in hundredths.
pub open spec fn growth_factor_spec(
    initial_value: nat,
    final_value: nat,
    max_boost: nat,
    curvature: nat,
) -> nat {
    if final_value <= initial_value || initial_value == 0 {
        GROWTH_SCALE as nat
    } else {
        let y = initial_value * (POW_SCALE as nat) / final_value;
        let p = pow_curved(y, curvature);
        let shortfall = if p <= POW_SCALE {
            (POW_SCALE - p) as nat
        } else {
            0
        };
        (GROWTH_SCALE + max_boost * shortfall * GROWTH_SCALE / (100 * POW_SCALE)) as nat
    }
}

/// The inverse pool ratio lies in the unit interval once the pool grew.
proof fn lemma_ratio_le(initial_value: nat, final_value: nat)
    requires
        0 < initial_value < final_value,
    ensures
        initial_value * (POW_SCALE as nat) / final_value < POW_SCALE,
{
    let s = POW_SCALE as int;
    let fv = final_value as int;
    let iv = initial_value as int;
    assert(iv * s < fv * s) by (nonlinear_arith)
        requires iv < fv, s > 0;
    vstd::arithmetic::div_mod::lemma_div_by_multiple_is_strongly_ordered(iv * s, fv * s, s, fv);
    vstd::arithmetic::div_mod::lemma_div_multiples_vanish(s, fv);
}

/// The boost term never exceeds `max_boost` hundredths of the scale, so the
/// growth factor is bounded by `1.0 + max_boost`.
proof fn lemma_boost_term_bound(max_boost: nat, shortfall: nat)
    requires
        shortfall <= POW_SCALE,
    ensures
        max_boost * shortfall * GROWTH_SCALE / (100 * POW_SCALE)
            <= max_boost * (GROWTH_SCALE as nat) / 100,
{
    let g = GROWTH_SCALE as nat;
    let s = POW_SCALE as nat;
    lemma_mul_inequality(shortfall as int, s as int, max_boost as int);
    lemma_mul_inequality((max_boost * shortfall) as int, (max_boost * s) as int, g as int);
    lemma_div_is_ordered((max_boost * shortfall * g) as int, (max_boost * s * g) as int, (100 * s) as int);
    assert(max_boost * s * g / (100 * s) == max_boost * g / 100) by {
        let a = (max_boost * g) as int;
        assert(max_boost as int * s as int * g as int == a * s as int) by (nonlinear_arith)
            requires a == max_boost as int * g as int;
        lemma_div_denominator(a * s as int, s as int, 100);
        lemma_div_by_multiple(a, s as int);
        assert(s as int * 100 == 100 * s as int);
    }
}

/// The growth factor is `1.0` exactly whenever the final value does not
/// exceed the initial one or the initial value is zero, never falls below
/// `1.0`, never exceeds `1.0 + max_boost`, and is a non-decreasing function
/// of the final value. (In any finite-precision arithmetic it cannot be
/// strictly increasing: far from the origin, neighbouring final values round
/// to the same factor, and a zero `max_boost` flattens the curve entirely.)
pub proof fn lemma_growth_factor_monotone(
    initial_value: nat,
    final_low: nat,
    final_high: nat,
    max_boost: nat,
    curvature: nat,
)
    requires
        final_low <= final_high,
    ensures
        growth_factor_spec(initial_value, final_low, max_boost, curvature)
            <= growth_factor_spec(initial_value, final_high, max_boost, curvature),
        growth_factor_spec(initial_value, final_low, max_boost, curvature) >= GROWTH_SCALE,
{
    lemma_growth_factor_bounds(initial_value, final_low, max_boost, curvature);
    lemma_growth_factor_bounds(initial_value, final_high, max_boost, curvature);
    if initial_value == 0 || final_high <= initial_value {
        // both sides are the base factor
    } else if final_low <= initial_value {
        // the low side is the base factor and the high side is at least it
    } else {
        let y1 = initial_value * (POW_SCALE as nat) / final_low;
        let y2 = initial_value * (POW_SCALE as nat) / final_high;
        lemma_div_is_ordered_by_denominator(
            (initial_value * POW_SCALE) as int,
            final_low as int,
            final_high as int,
        );
        lemma_pow_curved_monotone(y2, y1, curvature);
        lemma_ratio_le(initial_value, final_low);
        lemma_ratio_le(initial_value, final_high);
        lemma_pow_curved_le(y1, curvature);
        lemma_pow_curved_le(y2, curvature);
        let p1 = pow_curved(y1, curvature);
        let p2 = pow_curved(y2, curvature);
        let short1 = (POW_SCALE - p1) as nat;
        let short2 = (POW_SCALE - p2) as nat;
        lemma_mul_inequality(short1 as int, short2 as int, max_boost as int);
        lemma_mul_inequality(
            (max_boost * short1) as int,
            (max_boost * short2) as int,
            GROWTH_SCALE as int,
        );
        lemma_div_is_ordered(
            (max_boost * short1 * GROWTH_SCALE) as int,
            (max_boost * short2 * GROWTH_SCALE) as int,
            (100 * POW_SCALE) as int,
        );
    }
}

/// The growth factor lies in `[1.0, 1.0 + max_boost]`.
pub proof fn lemma_growth_factor_bounds(
    initial_value: nat,
    final_value: nat,
    max_boost: nat,
    curvature: nat,
)
    ensures
        GROWTH_SCALE
            <= growth_factor_spec(initial_value, final_value, max_boost, curvature)
            <= GROWTH_SCALE + max_boost * (GROWTH_SCALE as nat) / 100,
{
    if final_value <= initial_value || initial_value == 0 {
        // the base factor
    } else {
        let y = initial_value * (POW_SCALE as nat) / final_value;
        let p = pow_curved(y, curvature);
        let shortfall = if p <= POW_SCALE {
            (POW_SCALE - p) as nat
        } else {
            0
        };
        lemma_boost_term_bound(max_boost, shortfall);
    }
}

/// Floor square root of `x`, by binary search over the root.
fn isqrt(x: u128) -> (r: u64)
    requires
        x <= (POW_SCALE as u128) * (POW_SCALE as u128),
    ensures
        r as nat == sqrt_floor(x as nat),
        r <= POW_SCALE,
{
    let mut lo: u64 = 0;
    let mut hi: u64 = POW_SCALE;
    proof {
        assert((POW_SCALE as nat) * (POW_SCALE as nat)
            < (POW_SCALE as nat + 1) * (POW_SCALE as nat + 1)) by (nonlinear_arith);
    }
    while lo < hi
        invariant
            lo <= hi <= POW_SCALE,
            x <= (POW_SCALE as u128) * (POW_SCALE as u128),
            (lo as nat) * (lo as nat) <= x as nat,
            (x as nat) < (hi as nat + 1) * (hi as nat + 1),
        decreases hi - lo,
    {
        let mid = lo + (hi - lo + 1) / 2;
        proof {
            assert(mid as int * mid as int <= POW_SCALE as int * POW_SCALE as int)
                by (nonlinear_arith)
                requires mid <= POW_SCALE;
        }
        let sq = (mid as u128) * (mid as u128);
        if sq <= x {
            lo = mid;
        } else {
            hi = mid - 1;
        }
    }
    proof {
        lemma_sqrt_floor_unique(x as nat, lo as nat);
    }
    lo
}

/// `(y / POW_SCALE) ^ (curvature / 100)` in `POW_SCALE` fixed point.
fn pow_curved_exec(y: u64, curvature: u64) -> (r: u64)
    requires
        y <= POW_SCALE,
        curvature <= MAX_CURVATURE,
    ensures
        r as nat == pow_curved(y as nat, curvature as nat),
        r <= POW_SCALE,
{
    let whole = curvature / 100;
    let b = ((curvature % 100) * 128 + 50) / 100;
    let mut p: u64 = POW_SCALE;
    let mut m: u64 = 0;
    while m < whole
        invariant
            y <= POW_SCALE,
            m <= whole,
            p as nat == pow_whole(y as nat, m as nat),
            p <= POW_SCALE,
        decreases whole - m,
    {
        proof {
            lemma_mul_upper_bound(p as int, POW_SCALE as int, y as int, POW_SCALE as int);
            lemma_div_is_ordered(
                (p as nat * y as nat) as int,
                ((POW_SCALE as nat) * (POW_SCALE as nat)) as int,
                POW_SCALE as int,
            );
            lemma_div_by_multiple(POW_SCALE as int, POW_SCALE as int);
        }
        let next = (p as u128) * (y as u128) / (POW_SCALE as u128);
        p = next as u64;
        m = m + 1;
    }
    proof {
        lemma_pow_whole_le(y as nat, whole as nat);
    }
    let mut s: u64 = y;
    let mut weight: u64 = 64;
    while weight >= 1
        invariant
            s <= POW_SCALE,
            p <= POW_SCALE,
            pow_frac(s as nat, p as nat, b as nat, weight as nat)
                == pow_curved(y as nat, curvature as nat),
        decreases weight,
    {
        proof {
            lemma_mul_inequality(s as int, POW_SCALE as int, POW_SCALE as int);
        }
        let s2 = isqrt((s as u128) * (POW_SCALE as u128));
        proof {
            lemma_sqrt_fixed_le(s as nat);
        }
        if (b / weight) % 2 == 1 {
            proof {
                lemma_mul_upper_bound(p as int, POW_SCALE as int, s2 as int, POW_SCALE as int);
                lemma_div_is_ordered(
                    (p as nat * s2 as nat) as int,
                    (POW_SCALE * POW_SCALE) as int,
                    POW_SCALE as int,
                );
                lemma_div_by_multiple(POW_SCALE as int, POW_SCALE as int);
            }
            let next = (p as u128) * (s2 as u128) / (POW_SCALE as u128);
            p = next as u64;
        }
        s = s2;
        weight = weight / 2;
    }
    p
}

/// The growth factor for a pool that started at `initial_value` and
/// accumulated to `final_value`, in `GROWTH_SCALE` fixed point: `1.0` when
/// the pool did not grow, otherwise boosted by at most `max_boost`
/// hundredths, concavely in the growth ratio.
pub fn calculate_growth_factor(
    initial_value: u64,
    final_value: u64,
    max_boost: u64,
    curvature: u64,
) -> (r: u64)
    requires
        max_boost <= MAX_BOOST_LIMIT,
        curvature <= MAX_CURVATURE,
    ensures
        r as nat == growth_factor_spec(
            initial_value as nat,
            final_value as nat,
            max_boost as nat,
            curvature as nat,
        ),
        (final_value <= initial_value || initial_value == 0) ==> r == GROWTH_SCALE,
        GROWTH_SCALE <= r,
        r as nat <= GROWTH_SCALE + max_boost * (GROWTH_SCALE as nat) / 100,
{
    proof {
        lemma_growth_factor_bounds(
            initial_value as nat,
            final_value as nat,
            max_boost as nat,
            curvature as nat,
        );
    }
    if final_value <= initial_value || initial_value == 0 {
        return GROWTH_SCALE;
    }
    proof {
        lemma_mul_upper_bound(
            initial_value as int,
            u64::MAX as int,
            POW_SCALE as int,
            POW_SCALE as int,
        );
    }
    let y128 = (initial_value as u128) * (POW_SCALE as u128) / (final_value as u128);
    proof {
        lemma_ratio_le(initial_value as nat, final_value as nat);
    }
    let y = y128 as u64;
    let p = pow_curved_exec(y, curvature);
    let shortfall = POW_SCALE - p;
    proof {
        lemma_mul_upper_bound(
            max_boost as int,
            MAX_BOOST_LIMIT as int,
            shortfall as int,
            POW_SCALE as int,
        );
        lemma_mul_upper_bound(
            (max_boost * shortfall) as int,
            MAX_BOOST_LIMIT as int * POW_SCALE as int,
            GROWTH_SCALE as int,
            GROWTH_SCALE as int,
        );
    }
    let boost_term = (max_boost as u128) * (shortfall as u128) * (GROWTH_SCALE as u128)
        / (100u128 * (POW_SCALE as u128));
    proof {
        lemma_boost_term_bound(max_boost as nat, shortfall as nat);
    }
    GROWTH_SCALE + boost_term as u64
}

} // verus!
