use vstd::prelude::*;

verus! {

/// `r` is the integer square root of `n`: the largest value whose square
/// does not exceed `n`.
pub open spec fn is_isqrt(n: int, r: int) -> bool {
    0 <= r && r * r <= n && n < (r + 1) * (r + 1)
}

/// The integer square root of `n`, for `n >= 0`.
pub open spec fn sqrt_floor(n: int) -> int {
    choose|r: int| is_isqrt(n, r)
}

/// The integer square root is monotone in its argument.
pub proof fn lemma_isqrt_monotone(n1: int, r1: int, n2: int, r2: int)
    requires
        n1 <= n2,
        is_isqrt(n1, r1),
        is_isqrt(n2, r2),
    ensures
        r1 <= r2,
{
    if r1 > r2 {
        assert((r2 + 1) * (r2 + 1) <= r1 * r1) by (nonlinear_arith)
            requires r1 >= r2 + 1, r2 >= 0;
    }
}

/// The integer square root is unique.
pub proof fn lemma_isqrt_unique(n: int, r1: int, r2: int)
    requires
        is_isqrt(n, r1),
        is_isqrt(n, r2),
    ensures
        r1 == r2,
{
    lemma_isqrt_monotone(n, r1, n, r2);
    lemma_isqrt_monotone(n, r2, n, r1);
}

/// The integer square root of a perfect square is its root.
pub proof fn lemma_sqrt_floor_of_square(k: int)
    requires
        k >= 0,
    ensures
        is_isqrt(k * k, k),
        sqrt_floor(k * k) == k,
{
    assert(k * k < (k + 1) * (k + 1)) by (nonlinear_arith)
        requires k >= 0;
    assert(is_isqrt(k * k, k));
    lemma_isqrt_unique(k * k, k, sqrt_floor(k * k));
}

/// Some root not above `k` exists for every `n` below `(k + 1) * (k + 1)`.
proof fn lemma_root_below(n: int, k: int)
    requires
        0 <= n,
        0 <= k,
        n < (k + 1) * (k + 1),
    ensures
        exists|r: int| is_isqrt(n, r),
    decreases k,
{
    if k * k <= n {
        assert(is_isqrt(n, k));
    } else {
        assert(k > 0) by (nonlinear_arith)
            requires k * k > n, n >= 0, k >= 0;
        lemma_root_below(n, k - 1);
    }
}

/// `sqrt_floor` is the integer square root of every non-negative value.
pub proof fn lemma_sqrt_floor(n: int)
    requires
        n >= 0,
    ensures
        is_isqrt(n, sqrt_floor(n)),
{
    assert(n < (n + 1) * (n + 1)) by (nonlinear_arith)
        requires n >= 0;
    lemma_root_below(n, n);
}

/// Integer square root of `n`, by bisection.
pub fn isqrt(n: u128) -> (r: u64)
    ensures
        is_isqrt(n as int, r as int),
        r == sqrt_floor(n as int),
{
    // invariant: lo * lo <= n < hi * hi
    let mut lo: u128 = 0;
    let mut hi: u128 = 0x1_0000_0000_0000_0000;
    assert(n < hi * hi) by (nonlinear_arith)
        requires hi == 0x1_0000_0000_0000_0000u128, n <= u128::MAX;
    while hi - lo > 1
        invariant
            lo < hi,
            hi <= 0x1_0000_0000_0000_0000,
            lo * lo <= n,
            n < hi * hi,
        decreases hi - lo,
    {
        let mid: u128 = lo + (hi - lo) / 2;
        assert(mid * mid < 0x1_0000_0000_0000_0000 * 0x1_0000_0000_0000_0000) by (nonlinear_arith)
            requires mid < 0x1_0000_0000_0000_0000;
        if mid * mid <= n {
            lo = mid;
        } else {
            hi = mid;
        }
    }
    assert(hi == lo + 1);
    proof {
        assert(is_isqrt(n as int, lo as int));
        lemma_isqrt_unique(n as int, lo as int, sqrt_floor(n as int));
    }
    lo as u64
}

} // verus!
