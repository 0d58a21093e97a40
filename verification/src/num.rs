//! Small integer helpers used throughout the simulation: absolute value,
//! sign-aware truncating and ceiling division, and an integer square root.
//! All divisions in the crate act on magnitudes, with the sign put back
//! explicitly, so the specification functions here are defined the same way.

use vstd::arithmetic::div_mod::{lemma_fundamental_div_mod, lemma_mod_division_less_than_divisor};
use vstd::prelude::*;

verus! {

/// Absolute value of a mathematical integer.
pub open spec fn iabs(a: int) -> int {
    if a < 0 {
        -a
    } else {
        a
    }
}

/// Division of `a` by `b > 0`, rounding the magnitude down (truncation
/// towards zero).
pub open spec fn tdiv(a: int, b: int) -> int {
    if a >= 0 {
        a / b
    } else {
        -((-a) / b)
    }
}

/// Division of `a` by `b > 0`, rounding the magnitude up (away from zero).
pub open spec fn cdiv_mag(a: int, b: int) -> int {
    if a >= 0 {
        (a + b - 1) / b
    } else {
        -((-a + b - 1) / b)
    }
}

/// The integer square root: the largest `r` with `r * r <= n` (and 0 for
/// negative `n`).
pub open spec fn sqrt_floor(n: int) -> int
    decreases n,
{
    if n <= 0 {
        0
    } else {
        let r = sqrt_floor(n - 1);
        if (r + 1) * (r + 1) <= n {
            r + 1
        } else {
            r
        }
    }
}

/// For a nonnegative dividend and positive divisor, Euclidean division
/// rounds down: `b * (p / b)` is the largest multiple of `b` not above `p`.
pub proof fn lemma_floor_mag(p: int, b: int)
    requires
        p >= 0,
        b >= 1,
    ensures
        p / b >= 0,
        b * (p / b) <= p,
        p < b * (p / b + 1),
{
    lemma_fundamental_div_mod(p, b);
    lemma_mod_division_less_than_divisor(p, b);
    assert(p / b >= 0) by (nonlinear_arith)
        requires
            p >= 0,
            b >= 1,
            p == b * (p / b) + p % b,
            0 <= p % b < b,
    ;
    assert(b * (p / b + 1) == b * (p / b) + b) by (nonlinear_arith);
}

/// The ceiling written as `(p + b - 1) / b`: the smallest `q` with
/// `b * q >= p`.
pub proof fn lemma_ceil_mag(p: int, b: int)
    requires
        p >= 0,
        b >= 1,
    ensures
        (p + b - 1) / b >= 0,
        b * ((p + b - 1) / b) >= p,
        b * ((p + b - 1) / b) < p + b,
{
    lemma_floor_mag(p + b - 1, b);
    let q = (p + b - 1) / b;
    assert(b * (q + 1) == b * q + b) by (nonlinear_arith);
}

/// Facts about truncating division by `b >= 1`: the result keeps the sign of
/// `a`, and its magnitude `q` satisfies `b * q <= iabs(a) < b * (q + 1)`.
pub proof fn lemma_tdiv_facts(a: int, b: int)
    requires
        b >= 1,
    ensures
        a >= 0 ==> tdiv(a, b) >= 0,
        a <= 0 ==> tdiv(a, b) <= 0,
        b * iabs(tdiv(a, b)) <= iabs(a),
        iabs(a) < b * (iabs(tdiv(a, b)) + 1),
{
    if a >= 0 {
        lemma_floor_mag(a, b);
    } else {
        lemma_floor_mag(-a, b);
    }
}

/// Facts about ceiling division by `b >= 1`: the result keeps the sign of
/// `a`, and its magnitude `q` satisfies `iabs(a) <= b * q < iabs(a) + b`.
pub proof fn lemma_cdiv_facts(a: int, b: int)
    requires
        b >= 1,
    ensures
        a >= 0 ==> cdiv_mag(a, b) >= 0,
        a <= 0 ==> cdiv_mag(a, b) <= 0,
        b * iabs(cdiv_mag(a, b)) >= iabs(a),
        b * iabs(cdiv_mag(a, b)) < iabs(a) + b,
{
    if a >= 0 {
        lemma_ceil_mag(a, b);
        if a == 0 {
            assert((b - 1) / b == 0) by (nonlinear_arith)
                requires
                    b >= 1,
                    (b - 1) / b >= 0,
                    b * ((b - 1) / b) < b,
            ;
        }
    } else {
        lemma_ceil_mag(-a, b);
    }
}

/// If `iabs(a) <= b * c`, truncating division by `b` stays within `c`.
pub proof fn lemma_tdiv_le(a: int, b: int, c: int)
    requires
        b >= 1,
        c >= 0,
        iabs(a) <= b * c,
    ensures
        iabs(tdiv(a, b)) <= c,
{
    lemma_tdiv_facts(a, b);
    let q = iabs(tdiv(a, b));
    assert(q <= c) by (nonlinear_arith)
        requires
            b >= 1,
            c >= 0,
            q >= 0,
            b * q <= b * c,
    ;
}

/// If `iabs(a) <= b * c`, ceiling division by `b` stays within `c`.
pub proof fn lemma_cdiv_le(a: int, b: int, c: int)
    requires
        b >= 1,
        c >= 0,
        iabs(a) <= b * c,
    ensures
        iabs(cdiv_mag(a, b)) <= c,
{
    lemma_cdiv_facts(a, b);
    let q = iabs(cdiv_mag(a, b));
    assert(b * q < b * (c + 1)) by (nonlinear_arith)
        requires
            b * q < iabs(a) + b,
            iabs(a) <= b * c,
    ;
    assert(q <= c) by (nonlinear_arith)
        requires
            b >= 1,
            c >= 0,
            q >= 0,
            b * q < b * (c + 1),
    ;
}

/// `sqrt_floor(n)` really is the integer square root: it is nonnegative,
/// its square is at most `n`, and the next square is beyond `n`.
pub proof fn lemma_sqrt_floor_bounds(n: int)
    requires
        n >= 0,
    ensures
        sqrt_floor(n) >= 0,
        sqrt_floor(n) * sqrt_floor(n) <= n,
        n < (sqrt_floor(n) + 1) * (sqrt_floor(n) + 1),
    decreases n,
{
    if n > 0 {
        lemma_sqrt_floor_bounds(n - 1);
        let r = sqrt_floor(n - 1);
        if (r + 1) * (r + 1) <= n {
            assert(n < (r + 2) * (r + 2)) by (nonlinear_arith)
                requires
                    r >= 0,
                    n - 1 < (r + 1) * (r + 1),
            ;
        }
    }
}

/// Any `r` whose square brackets `n` is the integer square root of `n`.
pub proof fn lemma_sqrt_floor_unique(n: int, r: int)
    requires
        n >= 0,
        r >= 0,
        r * r <= n,
        n < (r + 1) * (r + 1),
    ensures
        r == sqrt_floor(n),
{
    lemma_sqrt_floor_bounds(n);
    let s = sqrt_floor(n);
    assert(r == s) by (nonlinear_arith)
        requires
            r >= 0,
            s >= 0,
            r * r <= n,
            n < (r + 1) * (r + 1),
            s * s <= n,
            n < (s + 1) * (s + 1),
    ;
}

/// The integer square root of `n`, by binary search on the answer.
pub fn isqrt(n: u64) -> (r: u64)
    ensures
        r == sqrt_floor(n as int),
{
    let mut lo: u64 = 0;
    let mut hi: u64 = 4294967296;
    proof {
        assert((4294967296int) * (4294967296int) > u64::MAX) by (nonlinear_arith);
    }
    while lo + 1 < hi
        invariant
            0 <= lo < hi <= 4294967296,
            (lo as int) * (lo as int) <= n as int,
            (n as int) < (hi as int) * (hi as int),
        decreases hi - lo,
    {
        let mid = lo + (hi - lo) / 2;
        proof {
            assert((mid as int) * (mid as int) < (4294967296int) * (4294967296int))
                by (nonlinear_arith)
                requires
                    0 <= mid < 4294967296,
            ;
        }
        if (mid as u128) * (mid as u128) <= n as u128 {
            lo = mid;
        } else {
            hi = mid;
        }
    }
    proof {
        lemma_sqrt_floor_unique(n as int, lo as int);
    }
    lo
}

/// Truncating division on machine integers; the callers put the sign back
/// on a magnitude quotient, exactly as `tdiv` is defined.
pub fn div_trunc(a: i128, b: i128) -> (q: i128)
    requires
        b >= 1,
        a > i128::MIN,
    ensures
        q == tdiv(a as int, b as int),
{
    proof {
        lemma_tdiv_facts(a as int, b as int);
        assert(iabs(a as int) <= (b as int) * iabs(a as int)) by (nonlinear_arith)
            requires
                b >= 1,
                iabs(a as int) >= 0,
        ;
        lemma_tdiv_le(a as int, b as int, iabs(a as int));
    }
    if a >= 0 {
        let q = (a as u128) / (b as u128);
        q as i128
    } else {
        let q = ((-a) as u128) / (b as u128);
        -(q as i128)
    }
}

/// Ceiling-of-magnitude division on machine integers, matching `cdiv_mag`.
pub fn div_ceil_mag(a: i128, b: i128) -> (q: i128)
    requires
        b >= 1,
        iabs(a as int) + b <= i128::MAX,
    ensures
        q == cdiv_mag(a as int, b as int),
{
    proof {
        lemma_cdiv_facts(a as int, b as int);
        assert(iabs(a as int) <= (b as int) * (iabs(a as int) + 1)) by (nonlinear_arith)
            requires
                b >= 1,
                iabs(a as int) >= 0,
        ;
        lemma_cdiv_le(a as int, b as int, iabs(a as int) + 1);
    }
    if a >= 0 {
        let q = ((a as u128) + (b as u128) - 1) / (b as u128);
        q as i128
    } else {
        let q = (((-a) as u128) + (b as u128) - 1) / (b as u128);
        -(q as i128)
    }
}

} // verus!
