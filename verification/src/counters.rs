//! The counters of one backend and the lock they change under: one lock
//! per backend, held for one update and never across anything that waits.

use crate::load_balancer::PickServerError;
use std::sync::{Mutex, MutexGuard, PoisonError};
use std::time::SystemTime;
use vstd::prelude::*;

verus! {

/// `std::time::SystemTime`: a reading of the wall clock, carried as it is.
#[verifier::external_type_specification]
#[verifier::external_body]
pub struct ExSystemTime(SystemTime);

/// `std::sync::Mutex`: a value behind an exclusive lock.
#[verifier::external_type_specification]
#[verifier::external_body]
#[verifier::reject_recursive_types(T)]
pub struct ExMutex<T: ?Sized>(Mutex<T>);

/// `std::sync::MutexGuard`: the lock while it is held.
#[verifier::external_type_specification]
#[verifier::external_body]
#[verifier::reject_recursive_types(T)]
pub struct ExMutexGuard<'a, T: ?Sized + 'a>(MutexGuard<'a, T>);

/// `std::sync::PoisonError`: a holder of the lock panicked.
#[verifier::external_type_specification]
#[verifier::external_body]
#[verifier::reject_recursive_types(T)]
pub struct ExPoisonError<T>(PoisonError<T>);

/// What is counted of one backend.
#[derive(Clone, Copy, Debug)]
pub struct Counters {
    /// Connections currently open.
    pub connections: u32,
    /// Connections ever opened.
    pub total_connections: u32,
    /// Connections that ended well.
    pub successful_connections: u32,
    /// Connections that failed.
    pub failed_connections: u32,
    /// When the last connection was opened.
    pub last_request_time: SystemTime,
    /// When the backend was last probed.
    pub last_health_check: SystemTime,
    /// Duration of the last response, in microseconds.
    pub response_time: u64,
    /// Mean of the response durations, in microseconds.
    pub avg_response_time: u64,
    /// Whether the backend is taken to be up.
    pub is_alive: bool,
}

/// What happened to a backend.
#[derive(Clone, Copy, Debug)]
pub enum CounterEvent {
    /// A connection to the backend was opened at this time.
    Opened { at: SystemTime },
    /// A connection to the backend ended, well or not.
    Closed { succeeded: bool },
    /// A response took this long; the mean over the responses is now this.
    Timed { response_time: u64, avg_response_time: u64 },
    /// The backend was probed at this time and found up or down.
    Probed { at: SystemTime, alive: bool },
}

/// One more, but never beyond what 32 bits hold.
pub open spec fn one_more(count: u32) -> u32 {
    if count < u32::MAX {
        (count + 1) as u32
    } else {
        count
    }
}

/// One less, but never below zero.
pub open spec fn one_less(count: u32) -> u32 {
    if count > 0 {
        (count - 1) as u32
    } else {
        count
    }
}

impl Counters {
    /// Whether these are the counters of a backend that has served nothing
    /// yet and counts as up.
    pub open spec fn zeroed(self) -> bool {
        &&& self.connections == 0
        &&& self.total_connections == 0
        &&& self.successful_connections == 0
        &&& self.failed_connections == 0
        &&& self.response_time == 0
        &&& self.avg_response_time == 0
        &&& self.is_alive
    }

    /// The counters after `event`.
    ///
    /// An opened connection counts as open and as one more in total; a
    /// closed one no longer counts as open and counts as one more success
    /// or failure. A count that has reached the end of its range stays
    /// there.
    pub open spec fn after_event(self, event: CounterEvent) -> Counters {
        match event {
            CounterEvent::Opened { at } => Counters {
                connections: one_more(self.connections),
                total_connections: one_more(self.total_connections),
                last_request_time: at,
                ..self
            },
            CounterEvent::Closed { succeeded } => Counters {
                connections: one_less(self.connections),
                successful_connections: if succeeded {
                    one_more(self.successful_connections)
                } else {
                    self.successful_connections
                },
                failed_connections: if succeeded {
                    self.failed_connections
                } else {
                    one_more(self.failed_connections)
                },
                ..self
            },
            CounterEvent::Timed { response_time, avg_response_time } => Counters {
                response_time,
                avg_response_time,
                ..self
            },
            CounterEvent::Probed { at, alive } => Counters {
                last_health_check: at,
                is_alive: alive,
                ..self
            },
        }
    }

    /// The three running totals never go down, whatever happens.
    pub proof fn lemma_totals_never_fall(self, event: CounterEvent)
        ensures
            self.after_event(event).total_connections >= self.total_connections,
            self.after_event(event).successful_connections >= self.successful_connections,
            self.after_event(event).failed_connections >= self.failed_connections,
    {
    }

    /// Counters of a backend that has served nothing yet and counts as up,
    /// with both timestamps at `at`.
    pub fn start(at: SystemTime) -> (counters: Counters)
        ensures
            counters.zeroed(),
            counters.last_request_time == at,
            counters.last_health_check == at,
    {
        Counters {
            connections: 0,
            total_connections: 0,
            successful_connections: 0,
            failed_connections: 0,
            last_request_time: at,
            last_health_check: at,
            response_time: 0,
            avg_response_time: 0,
            is_alive: true,
        }
    }

    /// Applies `event`.
    pub fn after(self, event: CounterEvent) -> (counters: Counters)
        ensures
            counters == self.after_event(event),
    {
        let mut counters = self;
        match event {
            CounterEvent::Opened { at } => {
                counters.connections = add_one(self.connections);
                counters.total_connections = add_one(self.total_connections);
                counters.last_request_time = at;
            },
            CounterEvent::Closed { succeeded } => {
                if self.connections > 0 {
                    counters.connections = self.connections - 1;
                }
                if succeeded {
                    counters.successful_connections = add_one(self.successful_connections);
                } else {
                    counters.failed_connections = add_one(self.failed_connections);
                }
            },
            CounterEvent::Timed { response_time, avg_response_time } => {
                counters.response_time = response_time;
                counters.avg_response_time = avg_response_time;
            },
            CounterEvent::Probed { at, alive } => {
                counters.last_health_check = at;
                counters.is_alive = alive;
            },
        }
        counters
    }
}

fn add_one(count: u32) -> (more: u32)
    ensures
        more == one_more(count),
{
    if count < u32::MAX {
        count + 1
    } else {
        count
    }
}

/// The counters that a lock was made around.
pub uninterp spec fn made_with(cell: Mutex<Counters>) -> Counters;

/// The counters behind a lock that is held.
pub uninterp spec fn held(guard: MutexGuard<Counters>) -> Counters;

/// `SystemTime::now`: the wall clock at the moment of the call. Nothing is
/// claimed of the value.
#[verifier::external_body]
pub(crate) fn now() -> SystemTime {
    SystemTime::now()
}

/// `Mutex::new`: a lock around `counters`, not held.
#[verifier::external_body]
fn new_cell(counters: Counters) -> (cell: Mutex<Counters>)
    ensures
        made_with(cell) == counters,
{
    Mutex::new(counters)
}

/// `Mutex::lock`: waits for the lock and takes it, or reports that a holder
/// panicked. Nothing is claimed of what the lock holds: other tasks change
/// it. The call does not return in a thread that holds the lock already;
/// no guard leaves the function that took it and the lock is private to
/// `CounterCell`, so no caller of the library can be in that state.
#[verifier::external_body]
fn lock<'a>(cell: &'a Mutex<Counters>) -> Result<
    MutexGuard<'a, Counters>,
    PoisonError<MutexGuard<'a, Counters>>,
> {
    cell.lock()
}

/// `<MutexGuard as Deref>::deref`: a copy of the counters behind the held
/// lock.
#[verifier::external_body]
fn peek(guard: &MutexGuard<Counters>) -> (counters: Counters)
    ensures
        counters == held(*guard),
{
    **guard
}

/// `<MutexGuard as DerefMut>::deref_mut`: puts `counters` behind the held
/// lock.
#[verifier::external_body]
fn store(guard: &mut MutexGuard<Counters>, counters: Counters)
    ensures
        held(*final(guard)) == counters,
{
    **guard = counters;
}

/// `<PoisonError as Display>::fmt` through `to_string`: the error in words.
/// Nothing is claimed of the text.
#[verifier::external_body]
fn poison_text(poisoned: &PoisonError<MutexGuard<Counters>>) -> String {
    poisoned.to_string()
}

/// The counters of one backend behind the backend's own lock.
pub struct CounterCell {
    cell: Mutex<Counters>,
}

impl CounterCell {
    /// The counters the cell was made with.
    pub closed spec fn first(&self) -> Counters {
        made_with(self.cell)
    }

    /// A cell that holds `counters`.
    pub fn new(counters: Counters) -> (made: CounterCell)
        ensures
            made.first() == counters,
    {
        CounterCell { cell: new_cell(counters) }
    }

    /// The counters as they stand. Fails only where the lock is poisoned,
    /// with the lock's own words.
    pub fn read(&self) -> (read: Result<Counters, PickServerError>)
        ensures
            read matches Err(error) ==> error is MutexPoisonError,
    {
        match lock(&self.cell) {
            Ok(guard) => Ok(peek(&guard)),
            Err(poisoned) => Err(PickServerError::MutexPoisonError(poison_text(&poisoned))),
        }
    }

    /// Takes note of `event` under the lock and returns the counters as
    /// they were and as they are: the second is the first after the event.
    /// The lock is held for this update alone. Fails only where the lock is
    /// poisoned, and then changes nothing.
    pub fn record(&self, event: CounterEvent) -> (updated: Result<
        (Counters, Counters),
        PickServerError,
    >)
        ensures
            updated matches Ok((before, after)) ==> after == before.after_event(event),
            updated matches Err(error) ==> error is MutexPoisonError,
    {
        match lock(&self.cell) {
            Ok(mut guard) => {
                let before = peek(&guard);
                let after = before.after(event);
                store(&mut guard, after);
                Ok((before, after))
            },
            Err(poisoned) => Err(PickServerError::MutexPoisonError(poison_text(&poisoned))),
        }
    }
}

} // verus!
