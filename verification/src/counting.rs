//! Counting residues: how often a position comes up when a cursor walks a
//! cycle.

use vstd::prelude::*;

verus! {

/// How many of the integers `0, 1, .., x - 1` leave remainder `k` when
/// divided by `n`.
pub open spec fn residues_below(x: nat, n: nat, k: nat) -> nat
    recommends
        n > 0,
        k < n,
{
    x / n + if k < x % n {
        1nat
    } else {
        0nat
    }
}

/// Counting one integer further adds one exactly when that integer leaves
/// the remainder counted.
pub proof fn lemma_residues_step(x: nat, n: nat, k: nat)
    requires
        n > 0,
        k < n,
    ensures
        residues_below(x + 1, n, k) == residues_below(x, n, k) + if x % n == k {
            1nat
        } else {
            0nat
        },
{
    let q = x / n;
    let r = x % n;
    assert(x == q * n + r && 0 <= r < n) by (nonlinear_arith)
        requires
            q == x / n,
            r == x % n,
            n > 0,
    ;
    if r + 1 == n {
        assert((x + 1) / n == q + 1 && (x + 1) % n == 0) by (nonlinear_arith)
            requires
                x == q * n + r,
                r + 1 == n,
                n > 0,
        ;
    } else {
        assert((x + 1) / n == q && (x + 1) % n == r + 1) by (nonlinear_arith)
            requires
                x == q * n + r,
                0 <= r,
                r + 1 < n,
        ;
    }
}

/// A whole number of cycles adds that number to the count, wherever the
/// walk starts.
pub proof fn lemma_residues_cycles(x: nat, n: nat, k: nat, cycles: nat)
    requires
        n > 0,
        k < n,
    ensures
        residues_below(x + cycles * n, n, k) == residues_below(x, n, k) + cycles,
{
    assert((x + cycles * n) / n == x / n + cycles && (x + cycles * n) % n == x % n)
        by (nonlinear_arith)
        requires
            n > 0,
    ;
}

/// How many of the integers `0, 1, .., x - 1` leave a remainder in
/// `[low, high)` when divided by `n`.
pub open spec fn slots_below(x: nat, n: nat, low: nat, high: nat) -> nat
    recommends
        n > 0,
        low <= high <= n,
{
    let rest = x % n;
    (x / n) * ((high - low) as nat) + if rest <= low {
        0nat
    } else if rest >= high {
        (high - low) as nat
    } else {
        (rest - low) as nat
    }
}

/// Counting one integer further adds one exactly when that integer leaves
/// a remainder in the range counted.
pub proof fn lemma_slots_step(x: nat, n: nat, low: nat, high: nat)
    requires
        n > 0,
        low <= high <= n,
    ensures
        slots_below(x + 1, n, low, high) == slots_below(x, n, low, high) + if low <= x % n < high {
            1nat
        } else {
            0nat
        },
{
    let q = x / n;
    let r = x % n;
    let width = (high - low) as nat;
    assert(x == q * n + r && 0 <= r < n) by (nonlinear_arith)
        requires
            q == x / n,
            r == x % n,
            n > 0,
    ;
    if r + 1 == n {
        assert((x + 1) / n == q + 1 && (x + 1) % n == 0) by (nonlinear_arith)
            requires
                x == q * n + r,
                r + 1 == n,
                n > 0,
        ;
        assert((q + 1) * width == q * width + width) by (nonlinear_arith);
    } else {
        assert((x + 1) / n == q && (x + 1) % n == r + 1) by (nonlinear_arith)
            requires
                x == q * n + r,
                0 <= r,
                r + 1 < n,
        ;
    }
}

/// Over a whole number of cycles from zero, a range of remainders is met
/// once per cycle for each remainder in it.
pub proof fn lemma_slots_cycles(n: nat, low: nat, high: nat, cycles: nat)
    requires
        n > 0,
        low <= high <= n,
    ensures
        slots_below(cycles * n, n, low, high) == cycles * (high - low),
{
    assert((cycles * n) / n == cycles && (cycles * n) % n == 0) by (nonlinear_arith)
        requires
            n > 0,
    ;
}

} // verus!
