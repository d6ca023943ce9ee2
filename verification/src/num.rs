//! Integer helpers shared by the simulation: a floor square root and a
//! truncating division, with the spec-level functions the contracts use.
//!
//! The simulation works in scaled integer units (see the crate root), so the
//! only non-trivial numerics it needs are the integer square root used for
//! distances and a division that truncates toward zero like Rust's `/`.

use vstd::prelude::*;

verus! {

use vstd::arithmetic::div_mod::lemma_div_is_ordered_by_denominator;
use vstd::arithmetic::div_mod::lemma_div_basics;

/// `r` is the square root of `n` rounded down: the largest `r` with `r * r <= n`.
pub open spec fn is_sqrt_floor(n: int, r: int) -> bool {
    &&& 0 <= r
    &&& r * r <= n
    &&& n < (r + 1) * (r + 1)
}

/// The square root of `n` rounded down (0 for negative `n`).
pub closed spec fn sqrt_floor(n: int) -> int
    decreases n,
{
    if n <= 0 {
        0
    } else {
        let p = sqrt_floor(n - 1);
        if (p + 1) * (p + 1) <= n {
            p + 1
        } else {
            p
        }
    }
}

pub proof fn lemma_sqrt_floor_is_sqrt(n: int)
    requires
        n >= 0,
    ensures
        is_sqrt_floor(n, sqrt_floor(n)),
    decreases n,
{
    if n > 0 {
        lemma_sqrt_floor_is_sqrt(n - 1);
        let p = sqrt_floor(n - 1);
        if (p + 1) * (p + 1) <= n {
            assert(n < (p + 2) * (p + 2)) by (nonlinear_arith)
                requires
                    n - 1 < (p + 1) * (p + 1),
                    p >= 0;
        }
    }
}

pub proof fn lemma_sqrt_floor_unique(n: int, r: int)
    requires
        is_sqrt_floor(n, r),
    ensures
        r == sqrt_floor(n),
{
    lemma_sqrt_floor_is_sqrt(n);
    let s = sqrt_floor(n);
    assert(r == s) by (nonlinear_arith)
        requires
            0 <= r,
            r * r <= n,
            n < (r + 1) * (r + 1),
            0 <= s,
            s * s <= n,
            n < (s + 1) * (s + 1);
}

/// The floor square root is at least any `k` whose square is below `n`.
pub proof fn lemma_sqrt_floor_at_least(n: int, r: int, k: int)
    requires
        is_sqrt_floor(n, r),
        0 <= k,
        k * k <= n,
    ensures
        k <= r,
{
    assert(k <= r) by (nonlinear_arith)
        requires
            0 <= r,
            n < (r + 1) * (r + 1),
            0 <= k,
            k * k <= n;
}

/// The square root of `n`, rounded down, by bisection.
pub fn isqrt(n: u128) -> (r: u64)
    ensures
        is_sqrt_floor(n as int, r as int),
        r as int == sqrt_floor(n as int),
{
    let mut lo: u128 = 0;
    let mut hi: u128 = 0x1_0000_0000_0000_0000;
    proof {
        assert(0x1_0000_0000_0000_0000int * 0x1_0000_0000_0000_0000int
            == 0x1_0000_0000_0000_0000_0000_0000_0000_0000int) by (nonlinear_arith);
    }
    while lo + 1 < hi
        invariant
            lo < hi <= 0x1_0000_0000_0000_0000u128,
            (lo as int) * (lo as int) <= n as int,
            (n as int) < (hi as int) * (hi as int),
        decreases hi - lo,
    {
        let mid = lo + (hi - lo) / 2;
        proof {
            assert((mid as int) * (mid as int) <= u128::MAX as int) by (nonlinear_arith)
                requires
                    mid <= 0xffff_ffff_ffff_ffffu128;
        }
        let sq = mid * mid;
        if sq <= n {
            lo = mid;
        } else {
            hi = mid;
        }
    }
    proof {
        lemma_sqrt_floor_unique(n as int, lo as int);
    }
    lo as u64
}

/// Division truncating toward zero (the behaviour of `/` on machine integers),
/// meaningful for positive divisors.
pub open spec fn tdiv(x: int, d: int) -> int {
    if x >= 0 {
        x / d
    } else {
        -((-x) / d)
    }
}

/// Truncating division never grows a value's magnitude.
pub proof fn lemma_tdiv_bounds(x: int, d: int)
    requires
        1 <= d,
    ensures
        0 <= x ==> 0 <= tdiv(x, d) <= x,
        x < 0 ==> x <= tdiv(x, d) <= 0,
{
    if x >= 0 {
        vstd::arithmetic::div_mod::lemma_div_pos_is_pos(x, d);
        vstd::arithmetic::div_mod::lemma_div_nonincreasing(x, d);
    } else {
        vstd::arithmetic::div_mod::lemma_div_pos_is_pos(-x, d);
        vstd::arithmetic::div_mod::lemma_div_nonincreasing(-x, d);
    }
}

/// Truncating division of a signed value by a positive divisor.
pub fn tdiv_i128(x: i128, d: u128) -> (r: i128)
    requires
        1 <= d,
        i128::MIN < x,
    ensures
        r as int == tdiv(x as int, d as int),
{
    if x >= 0 {
        let q = (x as u128) / d;
        proof {
            lemma_div_is_ordered_by_denominator(x as int, 1, d as int);
            lemma_div_basics(x as int);
        }
        q as i128
    } else {
        let m = (-x) as u128;
        let q = m / d;
        proof {
            lemma_div_is_ordered_by_denominator(m as int, 1, d as int);
            lemma_div_basics(m as int);
        }
        -(q as i128)
    }
}

} // verus!
