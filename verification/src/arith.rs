//! Arithmetic facts the pool's proofs rest on.

use vstd::prelude::*;
use vstd::arithmetic::div_mod::{lemma_fundamental_div_mod, lemma_div_is_ordered};
use vstd::arithmetic::mul::{lemma_mul_inequality, lemma_mul_upper_bound};

verus! {

/// `r` is the integer square root of `n`.
pub open spec fn is_isqrt(n: int, r: int) -> bool {
    0 <= r && r * r <= n && n < (r + 1) * (r + 1)
}

/// The integer square root of `n`: the largest `r` with `r * r <= n`.
pub open spec fn isqrt(n: nat) -> nat
    decreases n,
{
    if n == 0 {
        0
    } else {
        let r = isqrt((n - 1) as nat);
        if (r + 1) * (r + 1) <= n {
            r + 1
        } else {
            r
        }
    }
}

/// `isqrt(n)` is an integer square root of `n`.
pub proof fn lemma_isqrt_is_root(n: nat)
    ensures
        is_isqrt(n as int, isqrt(n) as int),
        isqrt(n) <= n,
    decreases n,
{
    if n > 0 {
        lemma_isqrt_is_root((n - 1) as nat);
        let r = isqrt((n - 1) as nat) as int;
        assert((r + 1) * (r + 1) < (r + 2) * (r + 2)) by (nonlinear_arith)
            requires
                r >= 0,
        ;
    }
}

/// An integer square root is unique.
pub proof fn lemma_isqrt_unique(n: int, r1: int, r2: int)
    requires
        is_isqrt(n, r1),
        is_isqrt(n, r2),
    ensures
        r1 == r2,
{
    if r1 < r2 {
        lemma_mul_upper_bound(r1 + 1, r2, r1 + 1, r2);
    } else if r2 < r1 {
        lemma_mul_upper_bound(r2 + 1, r1, r2 + 1, r1);
    }
}

/// The integer square root never decreases: a larger `n` has a root at
/// least as large.
pub proof fn lemma_isqrt_monotonic(n1: int, n2: int, r1: int, r2: int)
    requires
        n1 <= n2,
        is_isqrt(n1, r1),
        is_isqrt(n2, r2),
    ensures
        r1 <= r2,
{
    if r1 > r2 {
        lemma_mul_upper_bound(r2 + 1, r1, r2 + 1, r1);
    }
}

/// Every `r` with `r * r <= n` is at most one Newton step `(x + n / x) / 2`
/// taken from any positive `x`.
pub proof fn lemma_newton_step_bounds_root(n: int, x: int, r: int)
    requires
        0 <= n,
        1 <= x,
        0 <= r,
        r * r <= n,
    ensures
        r <= (x + n / x) / 2,
{
    let q = n / x;
    let m = n % x;
    lemma_fundamental_div_mod(n, x);
    assert(n == x * q + m && 0 <= m < x);
    if x + q < 2 * r {
        assert(q + 1 <= 2 * r - x);
        assert(x * (q + 1) <= x * (2 * r - x)) by {
            lemma_mul_inequality(q + 1, 2 * r - x, x);
            assert(x * (q + 1) == (q + 1) * x) by (nonlinear_arith);
            assert(x * (2 * r - x) == (2 * r - x) * x) by (nonlinear_arith);
        }
        assert(x * (2 * r - x) <= r * r) by (nonlinear_arith) {
            assert(r * r - x * (2 * r - x) == (r - x) * (r - x));
            assert((r - x) * (r - x) >= 0);
        }
        assert(x * (q + 1) == x * q + x) by (nonlinear_arith);
        assert(false);
    }
}

/// One Newton step from `x` with `1 <= x <= n` never exceeds `n + 1`.
pub proof fn lemma_newton_step_no_overflow(n: int, x: int)
    requires
        1 <= x <= n,
    ensures
        x + n / x <= n + 1,
        1 <= n / x,
{
    let q = n / x;
    lemma_fundamental_div_mod(n, x);
    assert(x * q <= n);
    assert(q >= 1) by {
        lemma_div_is_ordered(x, n, x);
        assert(x / x == 1) by (nonlinear_arith)
            requires
                x >= 1,
        ;
    }
    assert(x + q <= x * q + 1) by (nonlinear_arith)
        requires
            x >= 1,
            q >= 1,
    {
        assert((x - 1) * (q - 1) >= 0);
    }
}

/// A Newton step from above the root moves strictly down.
pub proof fn lemma_newton_step_decreases(n: int, x: int)
    requires
        0 <= n,
        1 <= x,
        n < x * x,
    ensures
        (x + n / x) / 2 < x,
        n / x < x,
{
    let q = n / x;
    lemma_fundamental_div_mod(n, x);
    assert(x * q <= n);
    if q >= x {
        assert(x * q >= x * x) by {
            lemma_mul_inequality(x, q, x);
            assert(x * q == q * x) by (nonlinear_arith);
        }
    }
}


/// Floor division: `(x / d) * d <= x < (x / d + 1) * d`.
pub proof fn lemma_floor_div_bounds(x: int, d: int)
    requires
        0 <= x,
        0 < d,
    ensures
        (x / d) * d <= x,
        x < (x / d + 1) * d,
        0 <= x / d,
{
    lemma_fundamental_div_mod(x, d);
    assert((x / d) * d == d * (x / d)) by (nonlinear_arith);
    assert((x / d + 1) * d == d * (x / d) + d) by (nonlinear_arith);
    assert(x / d >= 0) by {
        lemma_div_is_ordered(0, x, d);
    }
}

/// A quotient is at most `c` when the dividend is at most `c * d`.
pub proof fn lemma_div_at_most(x: int, d: int, c: int)
    requires
        0 <= x,
        0 < d,
        x <= c * d,
    ensures
        x / d <= c,
{
    lemma_floor_div_bounds(x, d);
    if x / d > c {
        assert((x / d) * d >= (c + 1) * d) by {
            lemma_mul_inequality(c + 1, x / d, d);
        }
        assert((c + 1) * d == c * d + d) by (nonlinear_arith);
    }
}

/// `x * y / y == x` for positive `y`.
pub proof fn lemma_mul_div_cancel(x: int, y: int)
    requires
        0 < y,
    ensures
        (x * y) / y == x,
{
    assert(x * y == y * x) by (nonlinear_arith);
    vstd::arithmetic::div_mod::lemma_div_multiples_vanish(x, y);
}

} // verus!
