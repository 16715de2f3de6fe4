//! Integer square roots, rounded up.

use vstd::prelude::*;

verus! {

/// `r` is the least natural number whose square is at least `s`.
pub open spec fn is_ceil_sqrt(s: int, r: int) -> bool {
    &&& r >= 0
    &&& r * r >= s
    &&& (r == 0 || (r - 1) * (r - 1) < s)
}

/// The square root of `s`, rounded up to a whole number.
pub open spec fn ceil_sqrt(s: int) -> int {
    choose|r: int| is_ceil_sqrt(s, r)
}

/// At most one number is the rounded-up square root of `s`.
pub proof fn lemma_ceil_sqrt_unique(s: int, r1: int, r2: int)
    requires
        is_ceil_sqrt(s, r1),
        is_ceil_sqrt(s, r2),
    ensures
        r1 == r2,
{
    if r1 < r2 {
        assert(r1 * r1 <= (r2 - 1) * (r2 - 1)) by (nonlinear_arith)
            requires
                0 <= r1 <= r2 - 1,
        ;
    } else if r2 < r1 {
        assert(r2 * r2 <= (r1 - 1) * (r1 - 1)) by (nonlinear_arith)
            requires
                0 <= r2 <= r1 - 1,
        ;
    }
}

/// A number that meets the definition is the rounded-up square root.
pub proof fn lemma_ceil_sqrt_is(s: int, r: int)
    requires
        is_ceil_sqrt(s, r),
    ensures
        ceil_sqrt(s) == r,
{
    lemma_ceil_sqrt_unique(s, r, ceil_sqrt(s));
}

/// Every natural number has a rounded-up square root.
pub proof fn lemma_ceil_sqrt_exists(s: int)
    requires
        s >= 0,
    ensures
        is_ceil_sqrt(s, ceil_sqrt(s)),
{
    let r = lemma_ceil_sqrt_witness(s);
    assert(is_ceil_sqrt(s, r));
}

/// Finds the rounded-up square root of a natural number, one step at a time.
proof fn lemma_ceil_sqrt_witness(s: int) -> (r: int)
    requires
        s >= 0,
    ensures
        is_ceil_sqrt(s, r),
    decreases s,
{
    if s == 0 {
        0
    } else {
        let r0 = lemma_ceil_sqrt_witness(s - 1);
        if r0 * r0 >= s {
            assert(r0 >= 1) by (nonlinear_arith)
                requires
                    r0 >= 0,
                    r0 * r0 >= s,
                    s >= 1,
            ;
            r0
        } else {
            assert((r0 + 1) * (r0 + 1) >= s) by (nonlinear_arith)
                requires
                    r0 >= 0,
                    r0 * r0 >= s - 1,
            ;
            r0 + 1
        }
    }
}

/// The largest whole number whose square is at most `s`.
pub fn floor_root(s: u128) -> (r: u128)
    ensures
        r * r <= s < (r + 1) * (r + 1),
        r < 0x1_0000_0000_0000_0000,
{
    let mut lo: u128 = 0;
    let mut hi: u128 = 0x1_0000_0000_0000_0000;
    assert(hi * hi > s) by (nonlinear_arith)
        requires
            hi == 0x1_0000_0000_0000_0000,
            s <= u128::MAX,
    ;
    while hi - lo > 1
        invariant
            lo < hi <= 0x1_0000_0000_0000_0000,
            lo * lo <= s < hi * hi,
        decreases hi - lo,
    {
        let mid: u128 = lo + (hi - lo) / 2;
        assert(mid * mid <= u128::MAX) by (nonlinear_arith)
            requires
                0 <= mid <= 0xFFFF_FFFF_FFFF_FFFF,
        ;
        if mid * mid <= s {
            lo = mid;
        } else {
            hi = mid;
        }
    }
    lo
}

/// The square root of `s`, rounded up to a whole number.
pub fn ceil_root(s: u128) -> (r: u128)
    ensures
        r == ceil_sqrt(s as int),
        is_ceil_sqrt(s as int, r as int),
        r <= 0x1_0000_0000_0000_0000,
{
    let f: u128 = floor_root(s);
    assert(f * f <= u128::MAX) by (nonlinear_arith)
        requires
            0 <= f <= 0xFFFF_FFFF_FFFF_FFFF,
    ;
    let r: u128 = if f * f == s {
        f
    } else {
        f + 1
    };
    proof {
        if f * f == s && f > 0 {
            assert((f - 1) * (f - 1) < f * f) by (nonlinear_arith)
                requires
                    f > 0,
            ;
        }
        assert(is_ceil_sqrt(s as int, r as int));
        lemma_ceil_sqrt_is(s as int, r as int);
    }
    r
}

} // verus!
