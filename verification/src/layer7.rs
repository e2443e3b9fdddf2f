//! The life of one HTTP request in the layer 7 proxy: buffer the body, pick
//! a backend, forward, and pick again when the backend fails, but never try
//! a backend twice nor pick more often than the pool has backends.

use vstd::prelude::*;

verus! {

/// Where a request stands.
#[derive(Clone, Copy, Debug, PartialEq, Eq, Structural)]
pub enum Phase {
    /// The head is read and the body is being buffered.
    Reading,
    /// The body is in memory and the first backend is being picked.
    Buffered,
    /// A further backend is being picked after a failed attempt.
    Dispatching,
    /// The request is on its way to a backend.
    Forwarding,
    /// A response is going back to the client.
    Responding,
    /// The request is over.
    Done,
}

/// What happened outside since the last step.
#[derive(Clone, Copy, Debug, PartialEq, Eq, Structural)]
pub enum Event {
    /// The body was buffered whole.
    BodyBuffered,
    /// The dispatcher picked the backend at this pool position.
    Picked(usize),
    /// The dispatcher had no backend to give.
    NoBackend,
    /// Connecting to the backend, or talking to it, failed.
    UpstreamFailed,
    /// The backend sent the head of its response.
    UpstreamAnswered,
    /// The response went out to the client.
    ResponseSent,
    /// The client side of the connection failed.
    ClientFailed,
}

/// What to do next.
#[derive(Clone, Copy, Debug, PartialEq, Eq, Structural)]
pub enum Action {
    /// Ask the dispatcher for a backend.
    Choose,
    /// Rewrite the headers and send the buffered request to the backend at
    /// this pool position, over a fresh connection.
    Forward(usize),
    /// Stream the backend's response to the client.
    Relay,
    /// Answer the client with a bad-gateway response.
    BadGateway,
    /// Nothing is left to do.
    Finish,
    /// The event does not belong to the phase; nothing changed.
    Refused,
}

/// How many of the first `upto` positions are marked.
pub open spec fn marked(tried: Seq<bool>, upto: nat) -> nat
    recommends
        upto <= tried.len(),
    decreases upto,
{
    if upto == 0 {
        0
    } else {
        marked(tried, (upto - 1) as nat) + if tried[upto - 1] {
            1nat
        } else {
            0nat
        }
    }
}

/// Marking one more position raises the count by one, and by nothing
/// before that position.
proof fn lemma_mark(tried: Seq<bool>, index: int, upto: nat)
    requires
        0 <= index < tried.len(),
        !tried[index],
        upto <= tried.len(),
    ensures
        marked(tried.update(index, true), upto) == marked(tried, upto) + if index < upto {
            1nat
        } else {
            0nat
        },
    decreases upto,
{
    if upto > 0 {
        lemma_mark(tried, index, (upto - 1) as nat);
    }
}

/// A request as the rules see it.
pub struct RequestState {
    /// The phase the request is in.
    pub phase: Phase,
    /// How many picks the request has used.
    pub attempts: nat,
    /// For each pool position, whether the request was forwarded there.
    pub tried: Seq<bool>,
}

impl RequestState {
    /// The most picks the request may use: the size of the pool when the
    /// request came in.
    pub open spec fn limit(self) -> nat {
        self.tried.len()
    }

    /// A request that has just come in, for a pool of `pool_size` backends.
    pub open spec fn fresh(pool_size: nat) -> RequestState {
        RequestState { phase: Phase::Reading, attempts: 0, tried: Seq::new(pool_size, |k: int| false) }
    }

    /// What holds of a request from the moment it comes in: it has used
    /// no more picks than the pool has backends, it was forwarded to no
    /// more backends than it used picks, and while a pick is pending one is
    /// still to be had.
    pub open spec fn in_budget(self) -> bool {
        &&& marked(self.tried, self.limit()) <= self.attempts <= self.limit()
        &&& self.phase == Phase::Reading || self.phase == Phase::Buffered ==> self.attempts == 0
        &&& self.phase == Phase::Dispatching ==> self.attempts < self.limit()
        &&& self.phase == Phase::Forwarding ==> self.attempts >= 1
    }

    /// The step that `event` causes: the request afterwards and what to do
    /// next.
    ///
    /// A pick counts against the budget whether or not it leads to a
    /// forward. A pick of a backend that was tried before is passed over; a
    /// pick outside the pool ends the request like the lack of a backend.
    /// When the budget is spent the client gets a bad-gateway response.
    pub open spec fn step(self, event: Event) -> (RequestState, Action) {
        let limit = self.limit();
        match (self.phase, event) {
            (Phase::Done, _) => (self, Action::Refused),
            (_, Event::ClientFailed) => (RequestState { phase: Phase::Done, ..self }, Action::Finish),
            (Phase::Reading, Event::BodyBuffered) => (
                RequestState { phase: Phase::Buffered, ..self },
                Action::Choose,
            ),
            (Phase::Buffered, Event::Picked(index)) | (Phase::Dispatching, Event::Picked(index)) => {
                if index >= limit || self.attempts >= limit {
                    (RequestState { phase: Phase::Responding, ..self }, Action::BadGateway)
                } else if !self.tried[index as int] {
                    (
                        RequestState {
                            phase: Phase::Forwarding,
                            attempts: self.attempts + 1,
                            tried: self.tried.update(index as int, true),
                        },
                        Action::Forward(index),
                    )
                } else if self.attempts + 1 < limit {
                    (
                        RequestState {
                            phase: Phase::Dispatching,
                            attempts: self.attempts + 1,
                            ..self
                        },
                        Action::Choose,
                    )
                } else {
                    (
                        RequestState {
                            phase: Phase::Responding,
                            attempts: self.attempts + 1,
                            ..self
                        },
                        Action::BadGateway,
                    )
                }
            },
            (Phase::Buffered, Event::NoBackend) | (Phase::Dispatching, Event::NoBackend) => (
                RequestState { phase: Phase::Responding, ..self },
                Action::BadGateway,
            ),
            (Phase::Forwarding, Event::UpstreamFailed) => {
                if self.attempts < limit {
                    (RequestState { phase: Phase::Dispatching, ..self }, Action::Choose)
                } else {
                    (RequestState { phase: Phase::Responding, ..self }, Action::BadGateway)
                }
            },
            (Phase::Forwarding, Event::UpstreamAnswered) => (
                RequestState { phase: Phase::Responding, ..self },
                Action::Relay,
            ),
            (Phase::Responding, Event::ResponseSent) => (
                RequestState { phase: Phase::Done, ..self },
                Action::Finish,
            ),
            _ => (self, Action::Refused),
        }
    }

    /// The request after the first `count` of `events`.
    pub open spec fn after(self, events: Seq<Event>, count: nat) -> RequestState
        recommends
            count <= events.len(),
        decreases count,
    {
        if count == 0 {
            self
        } else {
            self.after(events, (count - 1) as nat).step(events[count - 1]).0
        }
    }

    /// What is to be done on event number `at`, counted from 0.
    pub open spec fn action_at(self, events: Seq<Event>, at: nat) -> Action
        recommends
            at < events.len(),
    {
        self.after(events, at).step(events[at as int]).1
    }

    /// How many of the first `count` events lead to a forward.
    pub open spec fn forwards(self, events: Seq<Event>, count: nat) -> nat
        recommends
            count <= events.len(),
        decreases count,
    {
        if count == 0 {
            0
        } else {
            self.forwards(events, (count - 1) as nat) + if self.action_at(
                events,
                (count - 1) as nat,
            ) is Forward {
                1nat
            } else {
                0nat
            }
        }
    }

    /// The pool a request counts on never changes size.
    pub proof fn lemma_limit_stays(self, events: Seq<Event>, count: nat)
        ensures
            self.after(events, count).limit() == self.limit(),
        decreases count,
    {
        if count > 0 {
            self.lemma_limit_stays(events, (count - 1) as nat);
        }
    }

    /// A backend that was tried stays tried.
    pub proof fn lemma_marks_stay(self, events: Seq<Event>, earlier: nat, later: nat, k: int)
        requires
            earlier <= later,
            0 <= k < self.limit(),
            self.after(events, earlier).tried[k],
        ensures
            self.after(events, later).tried[k],
        decreases later,
    {
        if earlier < later {
            self.lemma_marks_stay(events, earlier, (later - 1) as nat, k);
            self.lemma_limit_stays(events, (later - 1) as nat);
        }
    }

    /// No request is forwarded to the same backend twice, whatever events
    /// come and in whatever order.
    pub proof fn lemma_no_backend_twice(self, events: Seq<Event>, first: nat, second: nat)
        requires
            first < second < events.len(),
            self.action_at(events, first) is Forward,
            self.action_at(events, second) is Forward,
        ensures
            self.action_at(events, first) != self.action_at(events, second),
    {
        let index = self.action_at(events, first)->Forward_0;
        self.lemma_limit_stays(events, first);
        assert(self.after(events, first + 1).tried[index as int]);
        self.lemma_marks_stay(events, first + 1, second, index as int);
    }

    /// A request that has just come in is within its budget, and no event
    /// takes a request out of its budget: whatever happens, a request
    /// uses no more picks than the pool had backends when it came in.
    pub proof fn lemma_picks_within_pool(pool_size: nat, events: Seq<Event>, count: nat)
        ensures
            Self::fresh(pool_size).after(events, count).in_budget(),
            Self::fresh(pool_size).after(events, count).attempts <= pool_size,
        decreases count,
    {
        let start = Self::fresh(pool_size);
        start.lemma_limit_stays(events, count);
        if count == 0 {
            lemma_marked_none(start.tried, pool_size);
        } else {
            let before = start.after(events, (count - 1) as nat);
            Self::lemma_picks_within_pool(pool_size, events, (count - 1) as nat);
            if let Action::Forward(index) = before.step(events[count - 1]).1 {
                lemma_mark(before.tried, index as int, before.limit());
            }
        }
    }

    /// The forwards of a request are as many as the backends it has tried
    /// since, and so, for a request that had tried none, no more than the
    /// pool has backends.
    pub proof fn lemma_forwards_within_pool(self, events: Seq<Event>, count: nat)
        ensures
            self.after(events, count).limit() == self.limit(),
            marked(self.tried, self.limit()) + self.forwards(events, count) == marked(
                self.after(events, count).tried,
                self.limit(),
            ),
            self.forwards(events, count) <= self.limit(),
        decreases count,
    {
        lemma_marked_bound(self.after(events, count).tried, self.after(events, count).limit());
        if count > 0 {
            let before = self.after(events, (count - 1) as nat);
            self.lemma_forwards_within_pool(events, (count - 1) as nat);
            if let Action::Forward(index) = before.step(events[count - 1]).1 {
                lemma_mark(before.tried, index as int, before.limit());
            }
        }
    }
}

/// Where no position is marked the count is zero.
proof fn lemma_marked_none(tried: Seq<bool>, upto: nat)
    requires
        upto <= tried.len(),
        forall|k: int| 0 <= k < tried.len() ==> !tried[k],
    ensures
        marked(tried, upto) == 0,
    decreases upto,
{
    if upto > 0 {
        lemma_marked_none(tried, (upto - 1) as nat);
    }
}

/// No more positions are marked than there are.
proof fn lemma_marked_bound(tried: Seq<bool>, upto: nat)
    ensures
        marked(tried, upto) <= upto,
    decreases upto,
{
    if upto > 0 {
        lemma_marked_bound(tried, (upto - 1) as nat);
    }
}

/// One request and its retry budget.
pub struct Request {
    phase: Phase,
    attempts: usize,
    tried: Vec<bool>,
}

impl View for Request {
    type V = RequestState;

    closed spec fn view(&self) -> RequestState {
        RequestState { phase: self.phase, attempts: self.attempts as nat, tried: self.tried@ }
    }
}

impl Request {
    #[verifier::type_invariant]
    spec fn wf(&self) -> bool {
        self@.in_budget()
    }

    /// A request that has just come in, for a pool of `pool_size` backends.
    pub fn new(pool_size: usize) -> (request: Request)
        ensures
            request@ == RequestState::fresh(pool_size as nat),
    {
        let mut tried: Vec<bool> = Vec::new();
        let mut k: usize = 0;
        while k < pool_size
            invariant
                k <= pool_size,
                tried@.len() == k,
                forall|j: int| 0 <= j < k ==> !#[trigger] tried@[j],
            decreases pool_size - k,
        {
            tried.push(false);
            k += 1;
        }
        proof {
            assert(tried@ =~= Seq::new(pool_size as nat, |k: int| false));
            lemma_marked_none(tried@, pool_size as nat);
        }
        Request { phase: Phase::Reading, attempts: 0, tried }
    }

    /// The phase the request is in.
    pub fn phase(&self) -> (phase: Phase)
        ensures
            phase == self@.phase,
    {
        self.phase
    }

    /// How many picks the request has used. Every request is within its
    /// budget.
    pub fn attempts(&self) -> (attempts: usize)
        ensures
            attempts == self@.attempts,
            self@.in_budget(),
    {
        proof {
            use_type_invariant(self);
        }
        self.attempts
    }

    /// Takes note of `event`: returns the request as it stands afterwards
    /// and what to do next, as `step` has it.
    pub fn advance(self, event: Event) -> (next: (Request, Action))
        ensures
            (next.0@, next.1) == self@.step(event),
    {
        proof {
            use_type_invariant(&self);
        }
        let Request { phase, attempts, mut tried } = self;
        let limit = tried.len();
        match (phase, event) {
            (Phase::Done, _) => (Request { phase, attempts, tried }, Action::Refused),
            (_, Event::ClientFailed) => (
                Request { phase: Phase::Done, attempts, tried },
                Action::Finish,
            ),
            (Phase::Reading, Event::BodyBuffered) => (
                Request { phase: Phase::Buffered, attempts, tried },
                Action::Choose,
            ),
            (Phase::Buffered, Event::Picked(index)) | (Phase::Dispatching, Event::Picked(index)) => {
                if index >= limit || attempts >= limit {
                    (Request { phase: Phase::Responding, attempts, tried }, Action::BadGateway)
                } else if !tried[index] {
                    proof {
                        lemma_mark(tried@, index as int, limit as nat);
                    }
                    tried.set(index, true);
                    (
                        Request { phase: Phase::Forwarding, attempts: attempts + 1, tried },
                        Action::Forward(index),
                    )
                } else if attempts + 1 < limit {
                    (
                        Request { phase: Phase::Dispatching, attempts: attempts + 1, tried },
                        Action::Choose,
                    )
                } else {
                    (
                        Request { phase: Phase::Responding, attempts: attempts + 1, tried },
                        Action::BadGateway,
                    )
                }
            },
            (Phase::Buffered, Event::NoBackend) | (Phase::Dispatching, Event::NoBackend) => (
                Request { phase: Phase::Responding, attempts, tried },
                Action::BadGateway,
            ),
            (Phase::Forwarding, Event::UpstreamFailed) => {
                if attempts < limit {
                    (Request { phase: Phase::Dispatching, attempts, tried }, Action::Choose)
                } else {
                    (Request { phase: Phase::Responding, attempts, tried }, Action::BadGateway)
                }
            },
            (Phase::Forwarding, Event::UpstreamAnswered) => (
                Request { phase: Phase::Responding, attempts, tried },
                Action::Relay,
            ),
            (Phase::Responding, Event::ResponseSent) => (
                Request { phase: Phase::Done, attempts, tried },
                Action::Finish,
            ),
            _ => (Request { phase, attempts, tried }, Action::Refused),
        }
    }
}

} // verus!
