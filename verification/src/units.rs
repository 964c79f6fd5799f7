//! Fixed-point lengths and the conversion between points and millimetres.

use vstd::prelude::*;
use vstd::arithmetic::div_mod::{lemma_fundamental_div_mod, lemma_fundamental_div_mod_converse};

verus! {

/// How many units make one millimetre, or one point: a length is a whole
/// number of millionths of its unit.
pub const SCALE: i64 = 1_000_000;

/// The quotient `n / d` rounded to the nearest integer, a tie rounded up.
pub open spec fn round_div(n: int, d: int) -> int
    recommends
        d > 0,
{
    (2 * n + d) / (2 * d)
}

/// Half of `v`, rounded down.
pub open spec fn half(v: int) -> int {
    v / 2
}

/// A length in points as a length in millimetres: one point is 25.4 / 72,
/// that is 127 / 360, of a millimetre.
pub open spec fn spec_pt_to_mm(pt: int) -> int {
    round_div(pt * 127, 360)
}

/// A length in millimetres as a length in points: one millimetre is
/// 72 / 25.4, that is 360 / 127, of a point.
pub open spec fn spec_mm_to_pt(mm: int) -> int {
    round_div(mm * 360, 127)
}

/// `round_div(n, d)` is the integer nearest to `n / d`: it differs from the
/// exact quotient by at most one half, and by less than that downwards.
pub proof fn lemma_round_div_nearest(n: int, d: int)
    requires
        d > 0,
    ensures
        2 * n - d < 2 * (round_div(n, d) * d) <= 2 * n + d,
{
    let q = round_div(n, d);
    lemma_fundamental_div_mod(2 * n + d, 2 * d);
    assert(2 * n + d == (2 * d) * q + (2 * n + d) % (2 * d));
    assert(0 <= (2 * n + d) % (2 * d) < 2 * d);
    assert((2 * d) * q == 2 * (q * d)) by (nonlinear_arith);
}

/// Whatever lies within half a step of `n / d`, the upper end left out, is
/// `round_div(n, d)`.
pub proof fn lemma_round_div_unique(n: int, d: int, q: int)
    requires
        d > 0,
        2 * n - d < 2 * (q * d) <= 2 * n + d,
    ensures
        q == round_div(n, d),
{
    let r = 2 * n + d - 2 * (q * d);
    assert(2 * (q * d) == q * (2 * d)) by (nonlinear_arith);
    lemma_fundamental_div_mod_converse(2 * n + d, 2 * d, q, r);
}

/// A quotient and its remainder give the rounded quotient.
pub proof fn lemma_round_div_from_remainder(n: int, d: int)
    requires
        d > 0,
    ensures
        round_div(n, d) == n / d + if 2 * (n % d) >= d { 1int } else { 0int },
{
    let q = n / d;
    let r = n % d;
    lemma_fundamental_div_mod(n, d);
    assert(n == d * q + r);
    assert(d * q == q * d) by (nonlinear_arith);
    if 2 * r >= d {
        assert((q + 1) * d == q * d + d) by (nonlinear_arith);
        lemma_round_div_unique(n, d, q + 1);
    } else {
        lemma_round_div_unique(n, d, q);
    }
}

/// Rounding is monotonic in the numerator.
pub proof fn lemma_round_div_monotonic(a: int, b: int, d: int)
    requires
        d > 0,
        a <= b,
    ensures
        round_div(a, d) <= round_div(b, d),
{
    let qa = round_div(a, d);
    let qb = round_div(b, d);
    lemma_round_div_nearest(a, d);
    lemma_round_div_nearest(b, d);
    if qa > qb {
        assert(qa * d >= (qb + 1) * d) by (nonlinear_arith)
            requires
                qa >= qb + 1,
                d > 0,
        ;
        assert((qb + 1) * d == qb * d + d) by (nonlinear_arith);
    }
}

/// A whole multiple divides without rounding.
pub proof fn lemma_round_div_exact(q: int, d: int)
    requires
        d > 0,
    ensures
        round_div(q * d, d) == q,
{
    lemma_round_div_unique(q * d, d, q);
}

/// The product `a * b` divided by `d`, rounded to the nearest integer.
pub(crate) fn mul_div_round(a: i64, b: i64, d: i64) -> (q: i128)
    requires
        d > 0,
    ensures
        q == round_div(a * b, d as int),
        -0x4000_0000_0000_0000_0000_0000_0000_0000 <= q <= 0x4000_0000_0000_0000_0000_0000_0000_0000,
{
    proof {
        assert(-0x4000_0000_0000_0000_0000_0000_0000_0000 <= a * b
            <= 0x4000_0000_0000_0000_0000_0000_0000_0000) by (nonlinear_arith)
            requires
                -0x8000_0000_0000_0000 <= a <= 0x7fff_ffff_ffff_ffff,
                -0x8000_0000_0000_0000 <= b <= 0x7fff_ffff_ffff_ffff,
        ;
    }
    let n: i128 = (a as i128) * (b as i128);
    let wide: i128 = d as i128;
    proof {
        lemma_fundamental_div_mod(n as int, wide as int);
        lemma_round_div_from_remainder(n as int, wide as int);
        lemma_quotient_bound(n as int, wide as int);
    }
    let quotient = n.checked_div_euclid(wide);
    let remainder = n.checked_rem_euclid(wide);
    match (quotient, remainder) {
        (Some(q0), Some(r)) => {
            if 2 * r >= wide {
                q0 + 1
            } else {
                q0
            }
        },
        _ => {
            assert(false);
            0
        },
    }
}

/// A quotient by a positive divisor is no larger in magnitude than what was
/// divided.
proof fn lemma_quotient_bound(n: int, d: int)
    requires
        d > 0,
    ensures
        n >= 0 ==> 0 <= n / d <= n,
        n < 0 ==> n <= n / d < 0,
        0 <= n % d < d,
{
    lemma_fundamental_div_mod(n, d);
    let q = n / d;
    let r = n % d;
    assert(n == d * q + r);
    if n >= 0 {
        if q < 0 {
            assert(d * q <= -d) by (nonlinear_arith)
                requires
                    q <= -1,
                    d > 0,
            ;
        }
        if q > n {
            assert(d * q >= q) by (nonlinear_arith)
                requires
                    q >= 0,
                    d >= 1,
            ;
        }
    } else {
        if q >= 0 {
            assert(d * q >= 0) by (nonlinear_arith)
                requires
                    q >= 0,
                    d > 0,
            ;
        }
        if q < n {
            assert(d * q <= d * (n - 1)) by (nonlinear_arith)
                requires
                    q <= n - 1,
                    d >= 1,
            ;
            assert(d * (n - 1) + d == d * n) by (nonlinear_arith);
            assert(d * n <= n) by (nonlinear_arith)
                requires
                    n < 0,
                    d >= 1,
            ;
        }
    }
}

/// Converts a length in points to millimetres, rounding to the nearest unit.
pub fn pt_to_mm(pt: i64) -> (mm: i64)
    ensures
        mm == spec_pt_to_mm(pt as int),
{
    let q = mul_div_round(pt, 127, 360);
    proof {
        lemma_round_div_nearest(pt * 127, 360);
    }
    q as i64
}

/// The largest length in millimetres, in either direction, whose measure in
/// points fits in an `i64`.
pub const MM_TO_PT_LIMIT: i64 = 3_253_800_690_779_323_687;

/// Converts a length in millimetres to points, rounding to the nearest unit.
///
/// The result is nearly three times the argument, so the argument must lie
/// within [`MM_TO_PT_LIMIT`] of zero: those are the lengths whose measure in
/// points fits in an `i64`.
pub fn mm_to_pt(mm: i64) -> (pt: i64)
    requires
        -MM_TO_PT_LIMIT <= mm <= MM_TO_PT_LIMIT,
    ensures
        pt == spec_mm_to_pt(mm as int),
{
    let q = mul_div_round(mm, 360, 127);
    proof {
        lemma_mm_to_pt_fits(mm as int);
    }
    q as i64
}

/// The measure in points of a length in millimetres fits in an `i64` for
/// the lengths within [`MM_TO_PT_LIMIT`] of zero, and for no others.
pub proof fn lemma_mm_to_pt_fits(mm: int)
    ensures
        -MM_TO_PT_LIMIT <= mm <= MM_TO_PT_LIMIT <==> i64::MIN <= spec_mm_to_pt(mm) <= i64::MAX,
{
    let limit: int = 3_253_800_690_779_323_687;
    lemma_round_div_unique(limit * 360, 127, 9_223_372_036_854_775_806);
    lemma_round_div_unique((limit + 1) * 360, 127, 9_223_372_036_854_775_809);
    lemma_round_div_unique(-limit * 360, 127, -9_223_372_036_854_775_806);
    lemma_round_div_unique((-limit - 1) * 360, 127, -9_223_372_036_854_775_809);
    if mm <= limit {
        lemma_round_div_monotonic(mm * 360, limit * 360, 127);
    } else {
        lemma_round_div_monotonic((limit + 1) * 360, mm * 360, 127);
    }
    if mm >= -limit {
        lemma_round_div_monotonic(-limit * 360, mm * 360, 127);
    } else {
        lemma_round_div_monotonic(mm * 360, (-limit - 1) * 360, 127);
    }
}

/// The two conversions undo each other as far as rounding allows: a length
/// in millimetres is the same after a conversion to points and back, and a
/// length in points is within one unit of itself after a conversion to
/// millimetres and back.
pub proof fn lemma_conversions_round_trip(v: int)
    ensures
        spec_pt_to_mm(spec_mm_to_pt(v)) == v,
        v - 1 <= spec_mm_to_pt(spec_pt_to_mm(v)) <= v + 1,
{
    let pt = spec_mm_to_pt(v);
    lemma_round_div_nearest(v * 360, 127);
    lemma_round_div_unique(pt * 127, 360, v);
    let mm = spec_pt_to_mm(v);
    lemma_round_div_nearest(v * 127, 360);
    lemma_round_div_nearest(mm * 360, 127);
}

} // verus!
