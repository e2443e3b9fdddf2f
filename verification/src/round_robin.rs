//! Round-robin: the backends take turns in pool order.

use crate::algorithm::{share, Algorithm};
use crate::counting::{lemma_residues_cycles, lemma_residues_step, residues_below};
use crate::load_balancer::PickServerError;
use crate::server::SyncServer;
use std::sync::Arc;
use vstd::prelude::*;

verus! {

/// Round-robin scheduler: a cursor into the pool.
pub struct RoundRobin {
    index: usize,
}

impl RoundRobin {
    /// The cursor: the pool position the next pick returns.
    pub closed spec fn cursor(&self) -> nat {
        self.index as nat
    }

    /// The position picked from cursor `cursor` on a pool of `n` backends.
    pub open spec fn pick_at(cursor: nat, n: nat) -> nat
        recommends
            n > 0,
    {
        cursor % n
    }

    /// The cursor after a pick from cursor `cursor` on a pool of `n` backends.
    pub open spec fn advance(cursor: nat, n: nat) -> nat
        recommends
            n > 0,
    {
        (cursor % n + 1) % n
    }
}

impl RoundRobin {
    /// The cursor after `count` picks that began at cursor `start`.
    pub open spec fn cursor_after(start: nat, n: nat, count: nat) -> nat
        decreases count,
    {
        if count == 0 {
            start
        } else {
            Self::advance(Self::cursor_after(start, n, (count - 1) as nat), n)
        }
    }

    /// The position that pick number `t`, counted from 0, returns in a run
    /// of picks that began at cursor `start`.
    pub open spec fn nth_pick(start: nat, n: nat, t: nat) -> nat {
        Self::pick_at(Self::cursor_after(start, n, t), n)
    }

    /// How many of the first `count` picks of such a run return position `k`.
    pub open spec fn times_picked(start: nat, n: nat, count: nat, k: nat) -> nat
        decreases count,
    {
        if count == 0 {
            0
        } else {
            Self::times_picked(start, n, (count - 1) as nat, k) + if Self::nth_pick(
                start,
                n,
                (count - 1) as nat,
            ) == k {
                1nat
            } else {
                0nat
            }
        }
    }

    /// Pick number `t` of a run returns the position `t` steps after the
    /// start, counted round the pool.
    pub proof fn lemma_nth_pick(start: nat, n: nat, t: nat)
        requires
            n > 0,
        ensures
            Self::nth_pick(start, n, t) == (start + t) % n,
            t > 0 ==> Self::cursor_after(start, n, t) == (start + t) % n,
        decreases t,
    {
        if t > 0 {
            let before = (t - 1) as nat;
            Self::lemma_nth_pick(start, n, before);
            assert(Self::cursor_after(start, n, t) == ((start + before) % n + 1) % n);
            assert(((start + before) % n + 1) % n == (start + before + 1) % n)
                by (nonlinear_arith)
                requires
                    n > 0,
            ;
            assert(((start + t) % n) % n == (start + t) % n) by (nonlinear_arith)
                requires
                    n > 0,
            ;
        }
    }

    /// The count of a position over a run is the count of its remainder
    /// among the integers from `start` up to `start + count`.
    pub proof fn lemma_times_picked(start: nat, n: nat, count: nat, k: nat)
        requires
            n > 0,
            k < n,
        ensures
            Self::times_picked(start, n, count, k) + residues_below(start, n, k)
                == residues_below(start + count, n, k),
        decreases count,
    {
        if count > 0 {
            let before = (count - 1) as nat;
            Self::lemma_times_picked(start, n, before, k);
            Self::lemma_nth_pick(start, n, before);
            lemma_residues_step(start + before, n, k);
        }
    }

    /// Over any window of `cycles * n` consecutive picks on a pool of `n`
    /// backends, wherever the cursor stood at its start, every position is
    /// returned exactly `cycles` times.
    pub proof fn lemma_window_is_even(start: nat, n: nat, cycles: nat, k: nat)
        requires
            n > 0,
            k < n,
        ensures
            Self::times_picked(start, n, cycles * n, k) == cycles,
    {
        Self::lemma_times_picked(start, n, cycles * n, k);
        lemma_residues_cycles(start, n, k, cycles);
    }

    /// After `count` picks by a fresh scheduler on a pool of `n` backends,
    /// position `k` has been returned `count / n` times, and once more if
    /// `k` lies below the remainder: always the quotient rounded down or
    /// rounded up.
    pub proof fn lemma_fresh_picks_are_fair(n: nat, count: nat, k: nat)
        requires
            n > 0,
            k < n,
        ensures
            Self::times_picked(0, n, count, k) == count / n + if k < count % n {
                1nat
            } else {
                0nat
            },
            Self::times_picked(0, n, count, k) == count / n || Self::times_picked(0, n, count, k)
                == (count + n - 1) / (n as int),
    {
        Self::lemma_times_picked(0, n, count, k);
        assert(0nat / n == 0 && 0nat % n == 0) by (nonlinear_arith)
            requires
                n > 0,
        ;
        if k < count % n {
            let q = count / n;
            let r = count % n;
            assert((count + n - 1) / (n as int) == q + 1) by (nonlinear_arith)
                requires
                    q == count / n,
                    r == count % n,
                    0 < r < n,
            ;
        }
    }
}

impl Algorithm for RoundRobin {
    open spec fn accepts(&self, pool: Seq<SyncServer>) -> bool {
        true
    }

    fn new() -> (made: Self)
        ensures
            made.cursor() == 0,
    {
        RoundRobin { index: 0 }
    }

    /// Returns the backend under the cursor and moves the cursor one
    /// position on, wrapping at the end of the pool. The client address
    /// plays no part. On an empty pool the cursor stays.
    fn pick_server(&mut self, servers: Arc<Vec<SyncServer>>, client_addr: &str) -> (picked: Result<
        (usize, SyncServer),
        PickServerError,
    >)
        ensures
            picked matches Ok((index, _)) ==> index == Self::pick_at(
                old(self).cursor(),
                servers@.len(),
            ),
            picked is Ok ==> final(self).cursor() == Self::advance(
                old(self).cursor(),
                servers@.len(),
            ),
            picked is Err ==> *final(self) == *old(self),
    {
        let n = servers.len();
        if n == 0 {
            return Err(PickServerError::EmptyPool);
        }
        let index = self.index % n;
        let server = share(&servers[index]);
        self.index = (index + 1) % n;
        Ok((index, server))
    }
}

} // verus!
