use vstd::prelude::*;
use vstd::arithmetic::div_mod::{lemma_fundamental_div_mod, lemma_fundamental_div_mod_converse_div};

verus! {

/// `n / d` rounded up: the number of groups of `d` needed to hold `n` items.
pub open spec fn ceil_div(n: int, d: int) -> int {
    (n + d - 1) / d
}

/// The rounded-up quotient is the least `q` with `q * d >= n`.
pub proof fn lemma_ceil_div_is_least_cover(n: int, d: int)
    requires
        n >= 0,
        d > 0,
    ensures
        ceil_div(n, d) >= 0,
        ceil_div(n, d) * d >= n,
        (ceil_div(n, d) - 1) * d < n || n == 0 && ceil_div(n, d) == 0,
        n == 0 <==> ceil_div(n, d) == 0,
        ceil_div(n, d) == n / d + if n % d == 0 { 0int } else { 1int },
{
    let q = n / d;
    let r = n % d;
    lemma_fundamental_div_mod(n, d);
    assert(0 <= r < d);
    if r == 0 {
        assert(n + d - 1 == q * d + (d - 1)) by (nonlinear_arith)
            requires n == d * q + r, r == 0;
        lemma_fundamental_div_mod_converse_div(n + d - 1, d, q, d - 1);
    } else {
        assert(n + d - 1 == (q + 1) * d + (r - 1)) by (nonlinear_arith)
            requires n == d * q + r;
        lemma_fundamental_div_mod_converse_div(n + d - 1, d, q + 1, r - 1);
    }
    let c = ceil_div(n, d);
    assert(q >= 0) by (nonlinear_arith)
        requires n == d * q + r, 0 <= r < d, n >= 0, d > 0;
    assert(c * d >= n) by (nonlinear_arith)
        requires n == d * q + r, 0 <= r < d, (r == 0 ==> c == q), (r != 0 ==> c == q + 1);
    assert((c - 1) * d < n || n == 0 && c == 0) by (nonlinear_arith)
        requires n == d * q + r, 0 <= r < d, q >= 0, (r == 0 ==> c == q), (r != 0 ==> c == q + 1);
    assert(n == 0 <==> c == 0) by (nonlinear_arith)
        requires n == d * q + r, 0 <= r < d, q >= 0, n >= 0, d > 0, (r == 0 ==> c == q), (r != 0 ==> c == q + 1);
}

/// `n / d` rounded up, computed without overflow.
pub fn div_ceil_u32(n: u32, d: u32) -> (q: u32)
    requires
        d > 0,
    ensures
        q == ceil_div(n as int, d as int),
{
    let q = n / d;
    let r = n % d;
    if r == 0 {
        proof {
            lemma_ceil_div_is_least_cover(n as int, d as int);
        }
        q
    } else {
        proof {
            lemma_ceil_div_is_least_cover(n as int, d as int);
            lemma_fundamental_div_mod(n as int, d as int);
            assert(q < u32::MAX) by (nonlinear_arith)
                requires n == d * q + r, 0 < r < d, n <= u32::MAX;
        }
        q + 1
    }
}

/// The smaller of two values.
pub fn min_u32(a: u32, b: u32) -> (m: u32)
    ensures
        m == (if a <= b { a } else { b }),
{
    if a <= b {
        a
    } else {
        b
    }
}

} // verus!
