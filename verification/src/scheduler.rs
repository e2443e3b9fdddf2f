//! The scheduler that a configuration holds: one of the three algorithms,
//! chosen by tag.

use crate::algorithm::{weights_of, Algorithm};
use crate::ip_hashing::{ip_hash_index, IpHashing};
use crate::load_balancer::PickServerError;
use crate::round_robin::RoundRobin;
use crate::server::SyncServer;
use crate::weighted_round_robin::{weighted_pick, WeightedRoundRobin};
use std::sync::Arc;
use vstd::prelude::*;

verus! {

/// A scheduler of one of the three kinds, with its state.
pub enum Scheduler {
    /// Round-robin and its cursor.
    RoundRobin(RoundRobin),
    /// Weighted round-robin and its turn.
    WeightedRoundRobin(WeightedRoundRobin),
    /// IP-hash.
    IpHashing(IpHashing),
}

impl Scheduler {
    /// The kind of this scheduler.
    pub open spec fn kind(self) -> crate::config::Algorithm {
        match self {
            Scheduler::RoundRobin(_) => crate::config::Algorithm::RoundRobin,
            Scheduler::WeightedRoundRobin(_) => crate::config::Algorithm::WeightedRoundRobin,
            Scheduler::IpHashing(_) => crate::config::Algorithm::IpHashing,
        }
    }

    /// Whether this is a scheduler in the initial state of its kind.
    pub open spec fn is_fresh(self) -> bool {
        match self {
            Scheduler::RoundRobin(rr) => rr.cursor() == 0,
            Scheduler::WeightedRoundRobin(wrr) => wrr.position() == 0 && wrr.used() == 0,
            Scheduler::IpHashing(_) => true,
        }
    }

    /// The pools this scheduler can pick from in its present state.
    pub open spec fn accepts(self, pool: Seq<SyncServer>) -> bool {
        match self {
            Scheduler::RoundRobin(rr) => rr.accepts(pool),
            Scheduler::WeightedRoundRobin(wrr) => wrr.accepts(pool),
            Scheduler::IpHashing(hash) => hash.accepts(pool),
        }
    }

    /// The pool position that the next pick returns for the client whose
    /// rendered address is `client_addr`, on a pool that is not empty.
    pub open spec fn next_index(self, pool: Seq<SyncServer>, client_addr: Seq<char>) -> nat {
        match self {
            Scheduler::RoundRobin(rr) => RoundRobin::pick_at(rr.cursor(), pool.len()),
            Scheduler::WeightedRoundRobin(wrr) => weighted_pick(
                weights_of(pool),
                wrr.position(),
                wrr.used(),
            ).0,
            Scheduler::IpHashing(_) => ip_hash_index(client_addr, pool.len()),
        }
    }

    /// Whether `next` is the scheduler that a pick on `pool` leaves behind.
    pub open spec fn steps_to(self, next: Scheduler, pool: Seq<SyncServer>) -> bool {
        match (self, next) {
            (Scheduler::RoundRobin(before), Scheduler::RoundRobin(after)) => after.cursor()
                == RoundRobin::advance(before.cursor(), pool.len()),
            (Scheduler::WeightedRoundRobin(before), Scheduler::WeightedRoundRobin(after)) => (
                after.position(),
                after.used(),
            ) == weighted_pick(weights_of(pool), before.position(), before.used()),
            (Scheduler::IpHashing(_), Scheduler::IpHashing(_)) => true,
            _ => false,
        }
    }

    /// A scheduler of the given kind in its initial state.
    pub fn new(kind: crate::config::Algorithm) -> (made: Scheduler)
        ensures
            made.kind() == kind,
            made.is_fresh(),
    {
        match kind {
            crate::config::Algorithm::RoundRobin => Scheduler::RoundRobin(RoundRobin::new()),
            crate::config::Algorithm::WeightedRoundRobin => Scheduler::WeightedRoundRobin(
                WeightedRoundRobin::new(),
            ),
            crate::config::Algorithm::IpHashing => Scheduler::IpHashing(IpHashing::new()),
        }
    }

    /// One pick by whichever algorithm this scheduler holds.
    ///
    /// Fails exactly on an empty pool, with `EmptyPool`, and then leaves the
    /// scheduler as it was.
    pub fn pick_server(&mut self, servers: Arc<Vec<SyncServer>>, client_addr: &str) -> (picked:
        Result<(usize, SyncServer), PickServerError>)
        requires
            old(self).accepts(servers@),
        ensures
            servers@.len() == 0 <==> picked is Err,
            picked is Err ==> picked == Err::<(usize, SyncServer), _>(PickServerError::EmptyPool)
                && *final(self) == *old(self),
            picked matches Ok((index, server)) ==> {
                &&& index < servers@.len()
                &&& server == servers@[index as int]
                &&& index == old(self).next_index(servers@, client_addr@)
                &&& old(self).steps_to(*final(self), servers@)
            },
    {
        match self {
            Scheduler::RoundRobin(rr) => rr.pick_server(servers, client_addr),
            Scheduler::WeightedRoundRobin(wrr) => wrr.pick_server(servers, client_addr),
            Scheduler::IpHashing(hash) => hash.pick_server(servers, client_addr),
        }
    }
}

} // verus!
