//! Weighted round-robin over named servers: the same turns as the pool
//! scheduler takes, for callers that know their servers by name alone.

use crate::weighted_round_robin::{next_eligible, some_weight, weighted_pick};
use vstd::prelude::*;

verus! {

/// The weights of a list as natural numbers.
pub open spec fn as_weights(weights: Seq<usize>) -> Seq<nat> {
    Seq::new(weights.len(), |k: int| weights[k] as nat)
}

/// One pick over a list of weights from the state `(index, used)`: the
/// state afterwards, whose first component is the position picked.
pub fn weighted_turn(weights: &Vec<usize>, index: usize, used: usize) -> (next: (usize, usize))
    requires
        weights@.len() > 0,
        some_weight(as_weights(weights@)),
    ensures
        (next.0 as nat, next.1 as nat) == weighted_pick(
            as_weights(weights@),
            index as nat,
            used as nat,
        ),
        next.0 < weights@.len(),
        weights@[next.0 as int] > 0,
{
    let n = weights.len();
    let ghost model = as_weights(weights@);
    let here = index % n;
    if used < weights[here] {
        return (here, used + 1);
    }
    let ghost target = choose|k: int| 0 <= k < model.len() && #[trigger] model[k] > 0;
    let start = (here + 1) % n;
    let mut at = start;
    let mut budget = n;
    proof {
        assert((target + n - start) % (n as int) < n) by (nonlinear_arith)
            requires
                n > 0,
        ;
    }
    while weights[at] == 0
        invariant
            n == weights@.len(),
            model == as_weights(weights@),
            at < n,
            0 <= target < n,
            model[target] > 0,
            (target + n - at) % (n as int) < budget,
            next_eligible(model, start as nat, n as nat) == next_eligible(
                model,
                at as nat,
                budget as nat,
            ),
        decreases budget,
    {
        proof {
            crate::weighted_round_robin::lemma_scan_step(
                model,
                at as nat,
                budget as nat,
                target as nat,
            );
        }
        at = (at + 1) % n;
        budget = budget - 1;
    }
    (at, 1)
}

/// A weighted rotation over named servers.
pub struct WeightRr {
    names: Vec<String>,
    weights: Vec<usize>,
    idx: usize,
    curr_weight: usize,
}

impl WeightRr {
    /// The names of the servers, in the order given.
    pub closed spec fn names(&self) -> Seq<Seq<char>> {
        Seq::new(self.names@.len(), |k: int| self.names@[k]@)
    }

    /// The weights of the servers, in the order given.
    pub closed spec fn weights(&self) -> Seq<nat> {
        as_weights(self.weights@)
    }

    /// The position in turn and the number of turns it has taken.
    pub closed spec fn state(&self) -> (nat, nat) {
        (self.idx as nat, self.curr_weight as nat)
    }

    #[verifier::type_invariant]
    spec fn wf(&self) -> bool {
        self.names@.len() == self.weights@.len()
    }

    /// A rotation over `servers`, each a name with its weight, that has
    /// taken no turn yet.
    pub fn new(servers: Vec<(String, usize)>) -> (rotation: WeightRr)
        ensures
            rotation.names() == Seq::new(servers@.len(), |k: int| servers@[k].0@),
            rotation.weights() == Seq::new(servers@.len(), |k: int| servers@[k].1 as nat),
            rotation.state() == (0nat, 0nat),
    {
        let mut names: Vec<String> = Vec::new();
        let mut weights: Vec<usize> = Vec::new();
        let mut k: usize = 0;
        while k < servers.len()
            invariant
                k <= servers@.len(),
                names@.len() == k,
                weights@.len() == k,
                forall|j: int| 0 <= j < k ==> (#[trigger] names@[j])@ == servers@[j].0@,
                forall|j: int| 0 <= j < k ==> #[trigger] weights@[j] == servers@[j].1,
            decreases servers@.len() - k,
        {
            names.push(servers[k].0.clone());
            weights.push(servers[k].1);
            k += 1;
        }
        let rotation = WeightRr { names, weights, idx: 0, curr_weight: 0 };
        assert(rotation.names() =~= Seq::new(servers@.len(), |k: int| servers@[k].0@));
        assert(rotation.weights() =~= Seq::new(servers@.len(), |k: int| servers@[k].1 as nat));
        rotation
    }

    /// Tells whether a turn can be taken: some server has a positive
    /// weight.
    pub fn can_pick(&self) -> (ready: bool)
        ensures
            ready == some_weight(self.weights()),
    {
        let mut k: usize = 0;
        while k < self.weights.len()
            invariant
                k <= self.weights@.len(),
                forall|j: int| 0 <= j < k ==> #[trigger] as_weights(self.weights@)[j] == 0,
            decreases self.weights@.len() - k,
        {
            if self.weights[k] > 0 {
                assert(as_weights(self.weights@)[k as int] > 0);
                return true;
            }
            k += 1;
        }
        false
    }

    /// Takes one turn and returns the name of the server whose turn it is,
    /// as `weighted_pick` has it. Some server must have a positive weight.
    pub fn next_server(&mut self) -> (name: String)
        requires
            some_weight(old(self).weights()),
        ensures
            final(self).names() == old(self).names(),
            final(self).weights() == old(self).weights(),
            final(self).state() == weighted_pick(
                old(self).weights(),
                old(self).state().0,
                old(self).state().1,
            ),
            final(self).state().0 < old(self).names().len(),
            name@ == old(self).names()[final(self).state().0 as int],
    {
        proof {
            use_type_invariant(&*self);
        }
        let (idx, curr_weight) = weighted_turn(&self.weights, self.idx, self.curr_weight);
        self.idx = idx;
        self.curr_weight = curr_weight;
        self.names[idx].clone()
    }
}

} // verus!
