//! Rounding up the number of storage elements that a bit vector's capacity takes.
use vstd::prelude::*;

verus! {

/// `n / rhs`, rounded up.
pub fn div_ceil(n: usize, rhs: usize) -> (r: usize)
    requires
        rhs > 0,
    ensures
        r == (n + rhs - 1) / rhs as int,
{
    let d = n / rhs;
    let r = n % rhs;
    proof {
        vstd::arithmetic::div_mod::lemma_fundamental_div_mod(n as int, rhs as int);
    }
    if r > 0 {
        proof {
            lemma_ceil_up(n as int, rhs as int);
        }
        d + 1
    } else {
        proof {
            lemma_ceil_exact(n as int, rhs as int);
        }
        d
    }
}

proof fn lemma_ceil_up(n: int, d: int)
    requires
        n >= 0,
        d > 0,
        n % d > 0,
    ensures
        (n + d - 1) / d == n / d + 1,
        n / d < n,
{
    vstd::arithmetic::div_mod::lemma_fundamental_div_mod(n, d);
    vstd::arithmetic::div_mod::lemma_fundamental_div_mod(n + d - 1, d);
    let q = n / d;
    let r = n % d;
    assert(n + d - 1 == (q + 1) * d + (r - 1)) by (nonlinear_arith)
        requires
            n == d * q + r,
    ;
    vstd::arithmetic::div_mod::lemma_fundamental_div_mod_converse(n + d - 1, d, q + 1, r - 1);
    if d == 1 {
        assert(false);
    } else {
        assert(q * d <= n) by (nonlinear_arith)
            requires
                n == d * q + r,
                r >= 0,
        ;
        assert(q < n) by (nonlinear_arith)
            requires
                q * d <= n,
                d >= 2,
                n > 0,
                q >= 0,
        ;
    }
}

proof fn lemma_ceil_exact(n: int, d: int)
    requires
        n >= 0,
        d > 0,
        n % d == 0,
    ensures
        (n + d - 1) / d == n / d,
{
    vstd::arithmetic::div_mod::lemma_fundamental_div_mod(n, d);
    let q = n / d;
    assert(n + d - 1 == q * d + (d - 1)) by (nonlinear_arith)
        requires
            n == d * q + n % d,
            n % d == 0,
    ;
    vstd::arithmetic::div_mod::lemma_fundamental_div_mod_converse(n + d - 1, d, q, d - 1);
}

} // verus!
