//! Integer helpers the geometry is stated with: truncating division (the
//! semantics of Rust's `/` on signed integers) and the integer square root.

use vstd::prelude::*;

verus! {

/// Truncating (round-toward-zero) division for a positive divisor; this is
/// what Rust's `/` computes on signed integers.
pub open spec fn div_trunc(a: int, b: int) -> int
    recommends
        b > 0,
{
    if a >= 0 {
        a / b
    } else {
        -((-a) / b)
    }
}

/// `r` is the floor of the real square root of `n`.
pub open spec fn is_sqrt(n: int, r: int) -> bool {
    0 <= r && r * r <= n && n < (r + 1) * (r + 1)
}

/// The integer square root of a non-negative integer.
pub open spec fn spec_isqrt(n: int) -> int {
    choose|r: int| is_sqrt(n, r)
}

/// Every non-negative integer has an integer square root.
pub proof fn lemma_sqrt_exists(n: int)
    requires
        n >= 0,
    ensures
        exists|r: int| is_sqrt(n, r),
    decreases n,
{
    if n == 0 {
        assert(is_sqrt(0, 0));
    } else {
        lemma_sqrt_exists(n - 1);
        let r = choose|r: int| #[trigger] is_sqrt(n - 1, r);
        if n < (r + 1) * (r + 1) {
            assert(is_sqrt(n, r));
        } else {
            assert(n == (r + 1) * (r + 1));
            assert((r + 1) * (r + 1) < (r + 2) * (r + 2)) by (nonlinear_arith)
                requires
                    r >= 0,
            ;
            assert(is_sqrt(n, r + 1));
        }
    }
}

/// The integer square root is unique.
pub proof fn lemma_sqrt_unique(n: int, r1: int, r2: int)
    requires
        is_sqrt(n, r1),
        is_sqrt(n, r2),
    ensures
        r1 == r2,
{
    assert(r1 == r2) by (nonlinear_arith)
        requires
            0 <= r1 && r1 * r1 <= n && n < (r1 + 1) * (r1 + 1),
            0 <= r2 && r2 * r2 <= n && n < (r2 + 1) * (r2 + 1),
    ;
}

/// `spec_isqrt` satisfies the square-root characterization.
pub proof fn lemma_isqrt_is(n: int)
    requires
        n >= 0,
    ensures
        is_sqrt(n, spec_isqrt(n)),
{
    lemma_sqrt_exists(n);
}

/// Magnitude bound for truncating division: if `|a| <= b * c` then
/// `|div_trunc(a, b)| <= c`.
pub proof fn lemma_div_trunc_bound(a: int, b: int, c: int)
    requires
        b > 0,
        c >= 0,
        -(b * c) <= a <= b * c,
    ensures
        -c <= div_trunc(a, b) <= c,
{
    let m = if a >= 0 {
        a
    } else {
        -a
    };
    let q = m / b;
    vstd::arithmetic::div_mod::lemma_fundamental_div_mod(m, b);
    vstd::arithmetic::div_mod::lemma_mod_pos_bound(m, b);
    assert(0 <= q <= c) by (nonlinear_arith)
        requires
            m == b * q + m % b,
            0 <= m % b < b,
            0 <= m <= b * c,
            b > 0,
            c >= 0,
    ;
}

/// Magnitude bound for a product of bounded factors.
pub proof fn lemma_mul_bound(a: int, b: int, aa: int, bb: int)
    requires
        -aa <= a <= aa,
        -bb <= b <= bb,
        0 <= aa,
        0 <= bb,
    ensures
        -(aa * bb) <= a * b <= aa * bb,
{
    assert(-(aa * bb) <= a * b <= aa * bb) by (nonlinear_arith)
        requires
            -aa <= a <= aa,
            -bb <= b <= bb,
            0 <= aa,
            0 <= bb,
    ;
}

/// Truncating division of `i128` values by a positive divisor.
pub fn div_fix(a: i128, b: i128) -> (q: i128)
    requires
        b > 0,
        a > i128::MIN,
    ensures
        q == div_trunc(a as int, b as int),
{
    if a >= 0 {
        proof {
            vstd::arithmetic::div_mod::lemma_div_nonincreasing(a as int, b as int);
            vstd::arithmetic::div_mod::lemma_div_pos_is_pos(a as int, b as int);
        }
        let q = (a as u128) / (b as u128);
        q as i128
    } else {
        proof {
            vstd::arithmetic::div_mod::lemma_div_nonincreasing(-(a as int), b as int);
            vstd::arithmetic::div_mod::lemma_div_pos_is_pos(-(a as int), b as int);
        }
        let q = ((-a) as u128) / (b as u128);
        -(q as i128)
    }
}

/// The integer square root of a `u128`, by binary search.
pub fn isqrt(n: u128) -> (r: u64)
    requires
        n < 0x4000_0000_0000_0000_0000_0000_0000_0000u128,
    ensures
        r == spec_isqrt(n as int),
        is_sqrt(n as int, r as int),
{
    let mut lo: u64 = 0;
    let mut hi: u64 = u64::MAX;
    proof {
        assert((hi as int) * (hi as int) > n) by (nonlinear_arith)
            requires
                hi == 0xffff_ffff_ffff_ffffu64,
                n < 0x4000_0000_0000_0000_0000_0000_0000_0000u128,
        ;
    }
    while lo + 1 < hi
        invariant
            lo < hi,
            (lo as int) * (lo as int) <= n,
            n < (hi as int) * (hi as int),
        decreases hi - lo,
    {
        let mid = lo + (hi - lo) / 2;
        proof {
            assert((mid as int) * (mid as int) < 0xffff_ffff_ffff_ffff_ffff_ffff_ffff_ffffu128)
                by (nonlinear_arith)
                requires
                    0 <= (mid as int) < 0xffff_ffff_ffff_ffffu64,
            ;
        }
        if (mid as u128) * (mid as u128) <= n {
            lo = mid;
        } else {
            hi = mid;
        }
    }
    proof {
        assert(is_sqrt(n as int, lo as int));
        lemma_isqrt_is(n as int);
        lemma_sqrt_unique(n as int, lo as int, spec_isqrt(n as int));
    }
    lo
}

} // verus!
