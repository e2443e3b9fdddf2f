//! Dispatch: one scheduler decision on behalf of one client.

use crate::algorithm::share;
use crate::config::Config;
use crate::server::SyncServer;
use vstd::prelude::*;
use vstd::string::StringExecFns;

verus! {

/// Why no backend could be picked.
#[derive(Debug)]
pub enum PickServerError {
    /// The pool holds no backend.
    EmptyPool,
    /// The digest of the client address was too short to yield an index.
    IndexArithmetic,
    /// A lock was poisoned, that of the dispatch state or that of a
    /// backend's counters; the text says how.
    MutexPoisonError(String),
}

impl PickServerError {
    /// What `message` says of this error.
    pub open spec fn message_text(self) -> Seq<char> {
        match self {
            PickServerError::EmptyPool => "No backend in the pool"@,
            PickServerError::IndexArithmetic =>
                "Failed to convert bytes to usize: could not convert slice to array"@,
            PickServerError::MutexPoisonError(how) => "Mutex lock poisoned: "@ + how@,
        }
    }

    /// The error in words.
    pub fn message(&self) -> (text: String)
        ensures
            text@ == self.message_text(),
    {
        match self {
            PickServerError::EmptyPool => String::from_str("No backend in the pool"),
            PickServerError::IndexArithmetic => String::from_str(
                "Failed to convert bytes to usize: could not convert slice to array",
            ),
            PickServerError::MutexPoisonError(how) => {
                let mut text = String::from_str("Mutex lock poisoned: ");
                text.append(how.as_str());
                text
            },
        }
    }
}

/// Chooses the backend for the client whose rendered address is
/// `client_addr`, and records its pool position as the one picked last.
///
/// Fails exactly on an empty pool, with `EmptyPool`, and then changes
/// nothing. Otherwise the backend is the one that the scheduler names in
/// its present state, the scheduler moves on by one pick, and nothing else
/// changes.
pub fn pick_server(config: &mut Config, client_addr: &str) -> (picked: Result<
    SyncServer,
    PickServerError,
>)
    requires
        old(config).ready(),
    ensures
        old(config).servers@.len() == 0 <==> picked is Err,
        picked is Err ==> picked == Err::<SyncServer, _>(PickServerError::EmptyPool),
        picked is Err ==> *final(config) == *old(config),
        picked matches Ok(server) ==> {
            &&& final(config).last_picked_index == old(config).algorithm_object.next_index(
                old(config).servers@,
                client_addr@,
            )
            &&& final(config).last_picked_index < old(config).servers@.len()
            &&& server == old(config).servers@[final(config).last_picked_index as int]
            &&& old(config).algorithm_object.steps_to(
                final(config).algorithm_object,
                old(config).servers@,
            )
        },
        final(config).servers == old(config).servers,
        final(config).load_balancer_address == old(config).load_balancer_address,
        final(config).algorithm == old(config).algorithm,
        final(config).layer_mode == old(config).layer_mode,
        final(config).ready(),
{
    let servers = share(&config.servers);
    match config.algorithm_object.pick_server(servers, client_addr) {
        Ok((index, server)) => {
            config.last_picked_index = index;
            Ok(server)
        },
        Err(error) => Err(error),
    }
}

} // verus!
