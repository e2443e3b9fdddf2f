//! The scheduling capability: given the pool and the client, pick a backend.

use crate::load_balancer::PickServerError;
use crate::server::SyncServer;
use std::sync::Arc;
use vstd::prelude::*;

verus! {

/// `Arc::clone`: another handle to the same shared value.
#[verifier::external_body]
pub(crate) fn share<T>(handle: &Arc<T>) -> (shared: Arc<T>)
    ensures
        shared == *handle,
{
    Arc::clone(handle)
}

/// The weights of a pool, in pool order.
pub open spec fn weights_of(pool: Seq<SyncServer>) -> Seq<nat> {
    Seq::new(pool.len(), |k: int| pool[k].weight as nat)
}

/// A backend scheduler. A pick may change the scheduler's state; it never
/// blocks, so it can run under the dispatch lock.
pub trait Algorithm: Send {
    /// The pools this scheduler can pick from in its present state.
    spec fn accepts(&self, pool: Seq<SyncServer>) -> bool;

    /// A scheduler in its initial state.
    fn new() -> Self where Self: Sized;

    /// Picks a backend for the client whose rendered address is
    /// `client_addr`. Fails exactly on an empty pool; otherwise returns an
    /// index into the pool together with the backend at that index.
    fn pick_server(&mut self, servers: Arc<Vec<SyncServer>>, client_addr: &str) -> (picked: Result<
        (usize, SyncServer),
        PickServerError,
    >)
        requires
            old(self).accepts(servers@),
        ensures
            servers@.len() == 0 <==> picked is Err,
            picked is Err ==> picked == Err::<(usize, SyncServer), _>(PickServerError::EmptyPool),
            picked matches Ok((index, server)) ==> index < servers@.len() && server
                == servers@[index as int],
    ;
}

} // verus!
