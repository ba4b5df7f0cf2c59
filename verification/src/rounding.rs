//! Cash rounding to the nearest multiple of 5 (HUF cash payments have no
//! 1 or 2 forint coins), and rounding division helpers used by the totals
//! calculator.

use vstd::prelude::*;

verus! {

/// Magnitude part of the cash rounding: nearest multiple of 5 for a
/// non-negative amount.
pub open spec fn spec_round5_mag(a: int) -> int {
    let m = a % 10;
    if m == 1 || m == 2 {
        a - m
    } else if m == 3 || m == 4 {
        a + (5 - m)
    } else if m == 6 || m == 7 {
        a - (m - 5)
    } else if m == 8 || m == 9 {
        a + (10 - m)
    } else {
        a
    }
}

/// Cash rounding: round to the nearest multiple of 5, by magnitude, then
/// reapply the sign.
pub open spec fn spec_round_huf(n: int) -> int {
    if n < 0 {
        -spec_round5_mag(-n)
    } else {
        spec_round5_mag(n)
    }
}

/// Round an amount in HUF to the nearest multiple of 5, as cash payments
/// are settled in Hungary.
pub fn round_huf(n: i32) -> (r: i32)
    requires
        n > i32::MIN,
    ensures
        r == spec_round_huf(n as int),
{
    let a = if n < 0 {
        -n
    } else {
        n
    };
    let sign: i32 = if n < 0 {
        -1
    } else {
        1
    };
    let m = a % 10;
    let mag = if m == 1 || m == 2 {
        a - m
    } else if m == 3 || m == 4 {
        a + (5 - m)
    } else if m == 6 || m == 7 {
        a - (m - 5)
    } else if m == 8 || m == 9 {
        a + (10 - m)
    } else {
        a
    };
    sign * mag
}

/// The cash rounding always lands on a multiple of 5, and moves the amount
/// by at most 2.
pub proof fn lemma_round_huf_nearest(n: int)
    ensures
        spec_round_huf(n) % 5 == 0,
        -2 <= spec_round_huf(n) - n <= 2,
{
}

/// Cash rounding is idempotent: rounding an already rounded amount changes
/// nothing.
pub proof fn lemma_round_huf_idempotent(n: int)
    ensures
        spec_round_huf(spec_round_huf(n)) == spec_round_huf(n),
{
}

/// Cash rounding is sign-symmetric: a negative amount rounds by magnitude
/// and keeps its sign.
pub proof fn lemma_round_huf_sign_symmetric(n: int)
    ensures
        spec_round_huf(-n) == -spec_round_huf(n),
{
}

/// Division of `a` by `b`, rounded half away from zero, for non-negative
/// `a`. This is the exact-integer counterpart of computing `a / b` in
/// floating point and rounding the quotient to the nearest integer.
pub open spec fn rdiv(a: int, b: int) -> int
    recommends
        a >= 0,
        b > 0,
{
    (2 * a + b) / (2 * b)
}

/// `rdiv` stays between 0 and `a` for a positive divisor.
pub proof fn lemma_rdiv_range(a: int, b: int)
    requires
        a >= 0,
        b >= 1,
    ensures
        0 <= rdiv(a, b) <= a,
{
    let q = (2 * a + b) / (2 * b);
    assert(0 <= q <= a) by (nonlinear_arith)
        requires
            a >= 0,
            b >= 1,
            q == (2 * a + b) / (2 * b),
    ;
}

} // verus!
