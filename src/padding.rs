//! The power-of-two dimension that the proof engine asks for.

use vstd::prelude::*;

verus! {

/// `p` is 2^k for some k.
pub open spec fn is_power_of_two(p: nat) -> bool
    decreases p,
{
    if p == 0 {
        false
    } else if p == 1 {
        true
    } else {
        p % 2 == 0 && is_power_of_two((p / 2) as nat)
    }
}

/// Doubles `p` until it reaches `n`.
pub open spec fn double_until(p: nat, n: nat) -> nat
    decreases (if p < n { n - p } else { 0 }),
{
    if p == 0 || p >= n {
        p
    } else {
        double_until(2 * p, n)
    }
}

/// The least power of two that is at least `n` (1 for 0).
pub open spec fn padded_len(n: nat) -> nat {
    double_until(1, n)
}

proof fn lemma_double_power(p: nat)
    requires
        is_power_of_two(p),
    ensures
        is_power_of_two(2 * p),
{
    assert((2 * p) % 2 == 0 && (2 * p) / 2 == p) by (nonlinear_arith);
}

proof fn lemma_power_gap(p: nat, q: nat)
    requires
        is_power_of_two(p),
        is_power_of_two(q),
        p < q,
    ensures
        2 * p <= q,
    decreases q,
{
    if p > 1 {
        lemma_power_gap((p / 2) as nat, (q / 2) as nat);
    }
}

proof fn lemma_double_until(p: nat, n: nat)
    requires
        is_power_of_two(p),
    ensures
        is_power_of_two(double_until(p, n)),
        n <= double_until(p, n),
        double_until(p, n) == p || double_until(p, n) / 2 < n,
        is_power_of_two(n) && p <= n ==> double_until(p, n) == n,
    decreases (if p < n { n - p } else { 0 }),
{
    if p < n {
        lemma_double_power(p);
        lemma_double_until(2 * p, n);
        if is_power_of_two(n) {
            lemma_power_gap(p, n);
        }
    }
}

/// The padded dimension is a power of two, at least `n`, the least such, and
/// `n` itself where `n` is already a power of two.
pub proof fn lemma_padded_dimension(n: nat)
    ensures
        is_power_of_two(padded_len(n)),
        n <= padded_len(n),
        padded_len(n) == 1 || padded_len(n) / 2 < n,
        is_power_of_two(n) ==> padded_len(n) == n,
{
    lemma_double_until(1, n);
    if is_power_of_two(n) {
        assert(n >= 1);
    }
}

/// The least power of two that is at least `n`.
pub fn padded_size(n: usize) -> (r: usize)
    requires
        n <= usize::MAX / 2 + 1,
    ensures
        r == padded_len(n as nat),
        is_power_of_two(r as nat),
        n <= r,
{
    proof {
        lemma_padded_dimension(n as nat);
    }
    let mut p: usize = 1;
    while p < n
        invariant
            1 <= p,
            n <= usize::MAX / 2 + 1,
            double_until(p as nat, n as nat) == padded_len(n as nat),
        decreases (if p < n { n - p } else { 0 }),
    {
        p = p * 2;
    }
    p
}

} // verus!
