//! Weighted round-robin: each backend takes as many turns in a row as its
//! weight says, then the next one does.

use crate::algorithm::{share, weights_of, Algorithm};
use crate::counting::{lemma_slots_cycles, lemma_slots_step, slots_below};
use crate::load_balancer::PickServerError;
use crate::server::SyncServer;
use std::sync::Arc;
use vstd::prelude::*;

verus! {

/// Whether some backend has a positive weight.
pub open spec fn some_weight(weights: Seq<nat>) -> bool {
    exists|k: int| 0 <= k < weights.len() && #[trigger] weights[k] > 0
}

/// The first position with a positive weight among `from`, `from + 1`, ..
/// taken round the pool, looking at no more than `budget` positions.
pub open spec fn next_eligible(weights: Seq<nat>, from: nat, budget: nat) -> nat
    recommends
        from < weights.len(),
    decreases budget,
{
    if budget == 0 || weights[from as int] > 0 {
        from
    } else {
        next_eligible(weights, (from + 1) % weights.len(), (budget - 1) as nat)
    }
}

/// The state after one pick from the state `(index, used)`: the position in
/// turn and the number of turns it has taken. The first component is the
/// position that the pick returns.
///
/// The position in turn keeps its turn while it has used fewer turns than
/// its weight; then the turn passes to the next position round the pool
/// that has a positive weight.
pub open spec fn weighted_pick(weights: Seq<nat>, index: nat, used: nat) -> (nat, nat)
    recommends
        weights.len() > 0,
{
    let here = index % weights.len();
    if used < weights[here as int] {
        (here, used + 1)
    } else {
        (next_eligible(weights, (here + 1) % weights.len(), weights.len()), 1)
    }
}

/// One step of a scan over a position of weight zero leaves the target one
/// position nearer.
pub proof fn lemma_scan_step(weights: Seq<nat>, from: nat, budget: nat, target: nat)
    requires
        from < weights.len(),
        target < weights.len(),
        weights[target as int] > 0,
        weights[from as int] == 0,
        (target + weights.len() - from) % (weights.len() as int) < budget,
    ensures
        budget > 0,
        (from + 1) % weights.len() < weights.len(),
        (target + weights.len() - (from + 1) % weights.len()) % (weights.len() as int) < budget - 1,
{
    let n = weights.len();
    let following = (from + 1) % n;
    if from + 1 == n {
        assert(following == 0) by (nonlinear_arith)
            requires
                following == (from + 1) % n,
                from + 1 == n,
                n > 0,
        ;
        assert((target + n - 0) % (n as int) == target) by (nonlinear_arith)
            requires
                target < n,
        ;
        assert((target + n - from) % (n as int) == target + 1) by (nonlinear_arith)
            requires
                target < n,
                from + 1 == n,
                from != target,
        ;
    } else {
        assert(following == from + 1) by (nonlinear_arith)
            requires
                following == (from + 1) % n,
                from + 1 < n,
        ;
        if target > from {
            assert((target + n - from) % (n as int) == target - from) by (nonlinear_arith)
                requires
                    from < target < n,
            ;
            assert((target + n - following) % (n as int) == target - following)
                by (nonlinear_arith)
                requires
                    following <= target < n,
            ;
        } else {
            assert((target + n - from) % (n as int) == target + n - from) by (nonlinear_arith)
                requires
                    target < from < n,
            ;
            assert((target + n - following) % (n as int) == target + n - following)
                by (nonlinear_arith)
                requires
                    target < following < n,
            ;
        }
    }
}

/// A scan that is allowed to reach a position of positive weight ends on
/// a position of positive weight.
pub proof fn lemma_next_eligible(weights: Seq<nat>, from: nat, budget: nat, target: nat)
    requires
        from < weights.len(),
        target < weights.len(),
        weights[target as int] > 0,
        (target + weights.len() - from) % (weights.len() as int) < budget,
    ensures
        next_eligible(weights, from, budget) < weights.len(),
        weights[next_eligible(weights, from, budget) as int] > 0,
    decreases budget,
{
    if weights[from as int] == 0 {
        lemma_scan_step(weights, from, budget, target);
        lemma_next_eligible(
            weights,
            (from + 1) % weights.len(),
            (budget - 1) as nat,
            target,
        );
    }
}

/// The position a scan ends on is the first of positive weight: every
/// position that lies before it, counted round the pool from where the scan
/// began, has weight zero.
pub proof fn lemma_next_eligible_is_first(
    weights: Seq<nat>,
    from: nat,
    budget: nat,
    target: nat,
    passed: nat,
)
    requires
        from < weights.len(),
        target < weights.len(),
        weights[target as int] > 0,
        (target + weights.len() - from) % (weights.len() as int) < budget,
        passed < (next_eligible(weights, from, budget) + weights.len() - from) % (
        weights.len() as int),
    ensures
        weights[((from + passed) % weights.len()) as int] == 0,
    decreases budget,
{
    let n = weights.len();
    let found = next_eligible(weights, from, budget);
    lemma_next_eligible(weights, from, budget, target);
    if weights[from as int] > 0 {
        assert((from + n - from) % (n as int) == 0) by (nonlinear_arith)
            requires
                n > 0,
        ;
    } else {
        lemma_scan_step(weights, from, budget, target);
        let following = (from + 1) % n;
        lemma_next_eligible(weights, following, (budget - 1) as nat, target);
        if passed == 0 {
            assert((from + 0) % n == from) by (nonlinear_arith)
                requires
                    from < n,
            ;
        } else {
            if from + 1 == n {
                assert(following == 0) by (nonlinear_arith)
                    requires
                        following == (from + 1) % n,
                        from + 1 == n,
                        n > 0,
                ;
                assert((found + n - from) % (n as int) == found + 1) by (nonlinear_arith)
                    requires
                        found < n,
                        from + 1 == n,
                        found != from,
                ;
                assert((found + n - 0) % (n as int) == found) by (nonlinear_arith)
                    requires
                        found < n,
                ;
                assert((from + passed) % n == (0 + (passed - 1)) % (n as int)) by (nonlinear_arith)
                    requires
                        from + 1 == n,
                        passed >= 1,
                ;
            } else {
                assert(following == from + 1) by (nonlinear_arith)
                    requires
                        following == (from + 1) % n,
                        from + 1 < n,
                ;
                if found > from {
                    assert((found + n - from) % (n as int) == found - from) by (nonlinear_arith)
                        requires
                            from < found < n,
                    ;
                    assert((found + n - following) % (n as int) == found - following)
                        by (nonlinear_arith)
                        requires
                            following <= found < n,
                    ;
                } else {
                    assert((found + n - from) % (n as int) == found + n - from)
                        by (nonlinear_arith)
                        requires
                            found < from < n,
                    ;
                    assert((found + n - following) % (n as int) == found + n - following)
                        by (nonlinear_arith)
                        requires
                            found < following < n,
                    ;
                }
            }
            lemma_next_eligible_is_first(
                weights,
                following,
                (budget - 1) as nat,
                target,
                (passed - 1) as nat,
            );
        }
    }
}

/// Tells whether some backend of the pool has a positive weight.
pub fn has_weight(servers: &Vec<SyncServer>) -> (found: bool)
    ensures
        found == some_weight(weights_of(servers@)),
{
    let ghost weights = weights_of(servers@);
    let mut k: usize = 0;
    while k < servers.len()
        invariant
            k <= servers@.len(),
            weights == weights_of(servers@),
            forall|j: int| 0 <= j < k ==> #[trigger] weights[j] == 0,
        decreases servers@.len() - k,
    {
        if servers[k].weight > 0 {
            assert(weights[k as int] > 0);
            return true;
        }
        k += 1;
    }
    false
}

/// Weighted round-robin scheduler: the position in turn and the number of
/// turns it has taken.
pub struct WeightedRoundRobin {
    index: usize,
    curr_weight: usize,
}

impl WeightedRoundRobin {
    /// The position in turn.
    pub closed spec fn position(&self) -> nat {
        self.index as nat
    }

    /// The number of turns that the position in turn has taken.
    pub closed spec fn used(&self) -> nat {
        self.curr_weight as nat
    }
}

impl Algorithm for WeightedRoundRobin {
    /// A pool that is not empty must hold a backend of positive weight:
    /// with none the turn would pass round the pool for ever.
    open spec fn accepts(&self, pool: Seq<SyncServer>) -> bool {
        pool.len() > 0 ==> some_weight(weights_of(pool))
    }

    fn new() -> (made: Self)
        ensures
            made.position() == 0,
            made.used() == 0,
    {
        WeightedRoundRobin { index: 0, curr_weight: 0 }
    }

    /// Returns the backend that `weighted_pick` names and moves to the state
    /// it gives. A backend of weight zero is never returned. The client
    /// address plays no part. On an empty pool the state stays.
    fn pick_server(&mut self, servers: Arc<Vec<SyncServer>>, client_addr: &str) -> (picked: Result<
        (usize, SyncServer),
        PickServerError,
    >)
        ensures
            picked matches Ok((index, server)) ==> {
                &&& (index as nat, final(self).used()) == weighted_pick(
                    weights_of(servers@),
                    old(self).position(),
                    old(self).used(),
                )
                &&& final(self).position() == index
                &&& server.weight > 0
            },
            picked is Err ==> *final(self) == *old(self),
    {
        let n = servers.len();
        if n == 0 {
            return Err(PickServerError::EmptyPool);
        }
        let ghost weights = weights_of(servers@);
        let here = self.index % n;
        if self.curr_weight < servers[here].weight {
            self.index = here;
            self.curr_weight = self.curr_weight + 1;
            return Ok((here, share(&servers[here])));
        }
        let ghost target = choose|k: int| 0 <= k < weights.len() && #[trigger] weights[k] > 0;
        let start = (here + 1) % n;
        let mut at = start;
        let mut budget = n;
        proof {
            assert((target + n - start) % (n as int) < n) by (nonlinear_arith)
                requires
                    n > 0,
            ;
        }
        while servers[at].weight == 0
            invariant
                n == servers@.len(),
                weights == weights_of(servers@),
                at < n,
                0 <= target < n,
                weights[target] > 0,
                (target + n - at) % (n as int) < budget,
                next_eligible(weights, start as nat, n as nat) == next_eligible(
                    weights,
                    at as nat,
                    budget as nat,
                ),
            decreases budget,
        {
            proof {
                lemma_scan_step(weights, at as nat, budget as nat, target as nat);
            }
            at = (at + 1) % n;
            budget = budget - 1;
        }
        self.index = at;
        self.curr_weight = 1;
        Ok((at, share(&servers[at])))
    }
}

/// The sum of the weights of the positions before `k`: where the turns of
/// position `k` begin within one super-cycle.
pub open spec fn weight_before(weights: Seq<nat>, k: nat) -> nat
    recommends
        k <= weights.len(),
    decreases k,
{
    if k == 0 {
        0
    } else {
        weight_before(weights, (k - 1) as nat) + weights[k - 1]
    }
}

/// The sum of all weights: the length of one super-cycle.
pub open spec fn total_weight(weights: Seq<nat>) -> nat {
    weight_before(weights, weights.len())
}

/// The state of a fresh scheduler after `count` picks.
pub open spec fn state_after(weights: Seq<nat>, count: nat) -> (nat, nat)
    decreases count,
{
    if count == 0 {
        (0, 0)
    } else {
        let before = state_after(weights, (count - 1) as nat);
        weighted_pick(weights, before.0, before.1)
    }
}

/// The position that pick number `t`, counted from 0, of a fresh scheduler
/// returns.
pub open spec fn nth_pick(weights: Seq<nat>, t: nat) -> nat {
    state_after(weights, t + 1).0
}

/// How many of the first `count` picks of a fresh scheduler return
/// position `k`.
pub open spec fn times_picked(weights: Seq<nat>, count: nat, k: nat) -> nat
    decreases count,
{
    if count == 0 {
        0
    } else {
        times_picked(weights, (count - 1) as nat, k) + if nth_pick(weights, (count - 1) as nat)
            == k {
            1nat
        } else {
            0nat
        }
    }
}

/// The turns of an earlier position begin no later.
pub proof fn lemma_weight_before_grows(weights: Seq<nat>, a: nat, b: nat)
    requires
        a <= b,
    ensures
        weight_before(weights, a) <= weight_before(weights, b),
    decreases b,
{
    if a < b {
        lemma_weight_before_grows(weights, a, (b - 1) as nat);
    }
}

/// A pool with a backend of positive weight has a super-cycle of positive
/// length.
pub proof fn lemma_total_weight_positive(weights: Seq<nat>)
    requires
        some_weight(weights),
    ensures
        total_weight(weights) > 0,
{
    let k = choose|k: int| 0 <= k < weights.len() && #[trigger] weights[k] > 0;
    lemma_weight_before_grows(weights, (k + 1) as nat, weights.len());
}

/// A scan ends where the turns begin at the same point of the super-cycle
/// as at the position it started from: the positions passed have no turns.
proof fn lemma_scan_keeps_place(weights: Seq<nat>, from: nat, budget: nat, target: nat)
    requires
        from < weights.len(),
        target < weights.len(),
        weights[target as int] > 0,
        (target + weights.len() - from) % (weights.len() as int) < budget,
    ensures
        weight_before(weights, next_eligible(weights, from, budget)) == weight_before(
            weights,
            from,
        ) % total_weight(weights),
    decreases budget,
{
    let n = weights.len();
    let total = total_weight(weights);
    lemma_total_weight_positive(weights);
    if weights[from as int] > 0 {
        lemma_weight_before_grows(weights, from + 1, n);
        assert(weight_before(weights, from) % total == weight_before(weights, from))
            by (nonlinear_arith)
            requires
                weight_before(weights, from) < total,
        ;
    } else {
        lemma_scan_step(weights, from, budget, target);
        let following = (from + 1) % n;
        lemma_scan_keeps_place(weights, following, (budget - 1) as nat, target);
        if from + 1 == n {
            assert(following == 0) by (nonlinear_arith)
                requires
                    following == (from + 1) % n,
                    from + 1 == n,
                    n > 0,
            ;
            assert(weight_before(weights, from) == total);
            assert(total % total == 0 && 0nat % total == 0) by (nonlinear_arith)
                requires
                    total > 0,
            ;
        } else {
            assert(following == from + 1) by (nonlinear_arith)
                requires
                    following == (from + 1) % n,
                    from + 1 < n,
            ;
        }
    }
}

/// Where a fresh scheduler stands after `count` picks: on a position of
/// the pool, within that position's turns, and as many turns into the
/// super-cycle as picks were made since the super-cycle began.
pub proof fn lemma_state_after(weights: Seq<nat>, count: nat)
    requires
        some_weight(weights),
    ensures
        state_after(weights, count).0 < weights.len(),
        state_after(weights, count).1 <= weights[state_after(weights, count).0 as int],
        count > 0 ==> state_after(weights, count).1 >= 1,
        weight_before(weights, state_after(weights, count).0) + state_after(weights, count).1
            == if count == 0 {
            0
        } else {
            (count - 1) % (total_weight(weights) as int) + 1
        },
    decreases count,
{
    let n = weights.len();
    let total = total_weight(weights);
    lemma_total_weight_positive(weights);
    if count > 0 {
        let t = (count - 1) as nat;
        lemma_state_after(weights, t);
        let (i, w) = state_after(weights, t);
        let place = weight_before(weights, i) + w;
        assert(i % n == i) by (nonlinear_arith)
            requires
                i < n,
        ;
        assert(place % total == t % total) by {
            if t > 0 {
                assert(((t - 1) % (total as int) + 1) % (total as int) == t % total)
                    by (nonlinear_arith)
                    requires
                        t > 0,
                        total > 0,
                ;
            } else {
                assert(0nat % total == 0) by (nonlinear_arith)
                    requires
                        total > 0,
                ;
            }
        }
        if w < weights[i as int] {
            lemma_weight_before_grows(weights, i + 1, n);
            assert(place % total == place) by (nonlinear_arith)
                requires
                    place < total,
            ;
        } else {
            let target = choose|k: int| 0 <= k < weights.len() && #[trigger] weights[k] > 0;
            let start = (i + 1) % n;
            assert(start < n && (target + n - start) % (n as int) < n) by (nonlinear_arith)
                requires
                    n > 0,
                    start == (i + 1) % n,
            ;
            lemma_next_eligible(weights, start, n, target as nat);
            lemma_scan_keeps_place(weights, start, n, target as nat);
            if i + 1 == n {
                assert(start == 0) by (nonlinear_arith)
                    requires
                        start == (i + 1) % n,
                        i + 1 == n,
                        n > 0,
                ;
                assert(place == total);
                assert(total % total == 0 && 0nat % total == 0) by (nonlinear_arith)
                    requires
                        total > 0,
                ;
            } else {
                assert(start == i + 1) by (nonlinear_arith)
                    requires
                        start == (i + 1) % n,
                        i + 1 < n,
                ;
            }
        }
    }
}

/// Within a super-cycle the turns go in pool order and those of one
/// backend are consecutive: pick number `t` returns position `k` exactly
/// when `t`, taken modulo the length of the super-cycle, falls among the
/// `weights[k]` turns that begin at `weight_before(weights, k)`.
pub proof fn lemma_nth_pick(weights: Seq<nat>, t: nat, k: nat)
    requires
        some_weight(weights),
        k < weights.len(),
    ensures
        nth_pick(weights, t) == k <==> weight_before(weights, k) <= t % total_weight(weights)
            < weight_before(weights, k + 1),
{
    lemma_state_after(weights, t + 1);
    let i = nth_pick(weights, t);
    if k < i {
        lemma_weight_before_grows(weights, k + 1, i);
    } else if i < k {
        lemma_weight_before_grows(weights, i + 1, k);
    }
}

/// The count of a position over the first `count` picks is the count of
/// the integers below `count` that fall among its turns.
pub proof fn lemma_times_picked(weights: Seq<nat>, count: nat, k: nat)
    requires
        some_weight(weights),
        k < weights.len(),
    ensures
        times_picked(weights, count, k) == slots_below(
            count,
            total_weight(weights),
            weight_before(weights, k),
            weight_before(weights, k + 1),
        ),
    decreases count,
{
    lemma_total_weight_positive(weights);
    lemma_weight_before_grows(weights, k + 1, weights.len());
    let total = total_weight(weights);
    if count > 0 {
        let t = (count - 1) as nat;
        lemma_times_picked(weights, t, k);
        lemma_nth_pick(weights, t, k);
        lemma_slots_step(t, total, weight_before(weights, k), weight_before(weights, k + 1));
    } else {
        assert(0nat / total == 0 && 0nat % total == 0) by (nonlinear_arith)
            requires
                total > 0,
        ;
        assert(0 * (weights[k as int] as int) == 0) by (nonlinear_arith);
    }
}

/// Where no backend has a positive weight, every weight is zero and so
/// is their sum.
proof fn lemma_no_weight(weights: Seq<nat>, upto: nat)
    requires
        !some_weight(weights),
        upto <= weights.len(),
    ensures
        weight_before(weights, upto) == 0,
        forall|k: int| 0 <= k < weights.len() ==> #[trigger] weights[k] == 0,
    decreases upto,
{
    if upto > 0 {
        lemma_no_weight(weights, (upto - 1) as nat);
    }
}

/// Over `cycles` super-cycles a fresh scheduler returns every backend
/// exactly `cycles` times its weight.
pub proof fn lemma_picks_follow_weights(weights: Seq<nat>, cycles: nat, k: nat)
    requires
        k < weights.len(),
    ensures
        times_picked(weights, cycles * total_weight(weights), k) == cycles * weights[k as int],
{
    if some_weight(weights) {
        lemma_total_weight_positive(weights);
        lemma_weight_before_grows(weights, k + 1, weights.len());
        lemma_times_picked(weights, cycles * total_weight(weights), k);
        lemma_slots_cycles(
            total_weight(weights),
            weight_before(weights, k),
            weight_before(weights, k + 1),
            cycles,
        );
    } else {
        lemma_no_weight(weights, weights.len());
        assert(cycles * 0 == 0) by (nonlinear_arith);
    }
}

} // verus!
