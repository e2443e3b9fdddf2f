//! The life of one client connection in the layer 4 proxy: pick a backend,
//! connect to it, relay both directions, and half-close each way when its
//! source runs dry.

use vstd::prelude::*;

verus! {

/// One of the two directions of a connection.
#[derive(Clone, Copy, Debug, PartialEq, Eq, Structural)]
pub enum Direction {
    /// From the client to the backend.
    ToBackend,
    /// From the backend to the client.
    ToClient,
}

/// Where one direction stands.
#[derive(Clone, Copy, Debug, PartialEq, Eq, Structural)]
pub enum Relay {
    /// The relay has not begun.
    Idle,
    /// Bytes are copied from the source to the sink.
    Copying,
    /// The copy is over and the sink's write end is being shut down.
    Closing,
    /// The direction is over.
    Ended,
}

/// Where a connection stands.
#[derive(Clone, Copy, Debug, PartialEq, Eq, Structural)]
pub struct Connection {
    /// Whether a backend was picked.
    pub picked: bool,
    /// The relay from the client to the backend.
    pub to_backend: Relay,
    /// The relay from the backend to the client.
    pub to_client: Relay,
    /// Whether the connection is over.
    pub closed: bool,
}

/// What happened outside since the last step.
#[derive(Clone, Copy, Debug, PartialEq, Eq, Structural)]
pub enum ConnectionEvent {
    /// The dispatcher picked a backend.
    Picked,
    /// The dispatcher had no backend to give.
    NoBackend,
    /// The connection to the backend stands.
    Connected,
    /// Connecting to the backend failed.
    ConnectFailed,
    /// The copy in this direction ended, by end of stream or by an error.
    CopyEnded(Direction),
    /// The shutdown of the sink's write end in this direction returned.
    ShutDown(Direction),
}

/// What to do next.
#[derive(Clone, Copy, Debug, PartialEq, Eq, Structural)]
pub enum ConnectionAction {
    /// Connect to the backend that was picked.
    Connect,
    /// Split both streams and start one copy in each direction.
    Relay,
    /// Shut down the write end of the sink of this direction, so that the
    /// peer sees the end of the stream.
    HalfClose(Direction),
    /// Wait for the other direction.
    Wait,
    /// Drop the client connection; nothing was relayed.
    Drop,
    /// Both directions are over: release the connection.
    Finish,
    /// The event does not belong here; nothing changed.
    Refused,
}

impl Connection {
    /// The relay of `direction`.
    pub open spec fn relay(self, direction: Direction) -> Relay {
        match direction {
            Direction::ToBackend => self.to_backend,
            Direction::ToClient => self.to_client,
        }
    }

    /// This connection with the relay of `direction` set to `relay`.
    pub open spec fn with_relay(self, direction: Direction, relay: Relay) -> Connection {
        match direction {
            Direction::ToBackend => Connection { to_backend: relay, ..self },
            Direction::ToClient => Connection { to_client: relay, ..self },
        }
    }

    /// The other direction.
    pub open spec fn opposite(direction: Direction) -> Direction {
        match direction {
            Direction::ToBackend => Direction::ToClient,
            Direction::ToClient => Direction::ToBackend,
        }
    }

    /// The step that `event` causes.
    ///
    /// Without a backend, or without a connection to it, the client is
    /// dropped. A copy that ends, however it ends, is followed by the
    /// half-close of its sink. The connection is over when both directions
    /// are.
    pub open spec fn step(self, event: ConnectionEvent) -> (Connection, ConnectionAction) {
        if self.closed {
            (self, ConnectionAction::Refused)
        } else {
            match event {
                ConnectionEvent::Picked => if !self.picked {
                    (Connection { picked: true, ..self }, ConnectionAction::Connect)
                } else {
                    (self, ConnectionAction::Refused)
                },
                ConnectionEvent::NoBackend => if !self.picked {
                    (Connection { closed: true, ..self }, ConnectionAction::Drop)
                } else {
                    (self, ConnectionAction::Refused)
                },
                ConnectionEvent::Connected => if self.picked && self.to_backend == Relay::Idle
                    && self.to_client == Relay::Idle {
                    (
                        Connection {
                            to_backend: Relay::Copying,
                            to_client: Relay::Copying,
                            ..self
                        },
                        ConnectionAction::Relay,
                    )
                } else {
                    (self, ConnectionAction::Refused)
                },
                ConnectionEvent::ConnectFailed => if self.picked && self.to_backend == Relay::Idle
                    && self.to_client == Relay::Idle {
                    (Connection { closed: true, ..self }, ConnectionAction::Drop)
                } else {
                    (self, ConnectionAction::Refused)
                },
                ConnectionEvent::CopyEnded(direction) => if self.relay(direction)
                    == Relay::Copying {
                    (
                        self.with_relay(direction, Relay::Closing),
                        ConnectionAction::HalfClose(direction),
                    )
                } else {
                    (self, ConnectionAction::Refused)
                },
                ConnectionEvent::ShutDown(direction) => if self.relay(direction) == Relay::Closing {
                    if self.relay(Self::opposite(direction)) == Relay::Ended {
                        (
                            Connection { closed: true, ..self.with_relay(direction, Relay::Ended) },
                            ConnectionAction::Finish,
                        )
                    } else {
                        (self.with_relay(direction, Relay::Ended), ConnectionAction::Wait)
                    }
                } else {
                    (self, ConnectionAction::Refused)
                },
            }
        }
    }

    /// A connection that was just accepted.
    pub fn new() -> (connection: Connection)
        ensures
            connection == (Connection {
                picked: false,
                to_backend: Relay::Idle,
                to_client: Relay::Idle,
                closed: false,
            }),
    {
        Connection { picked: false, to_backend: Relay::Idle, to_client: Relay::Idle, closed: false }
    }

    fn relay_of(self, direction: Direction) -> (relay: Relay)
        ensures
            relay == self.relay(direction),
    {
        match direction {
            Direction::ToBackend => self.to_backend,
            Direction::ToClient => self.to_client,
        }
    }

    fn set_relay(self, direction: Direction, relay: Relay) -> (changed: Connection)
        ensures
            changed == self.with_relay(direction, relay),
    {
        match direction {
            Direction::ToBackend => Connection {
                picked: self.picked,
                to_backend: relay,
                to_client: self.to_client,
                closed: self.closed,
            },
            Direction::ToClient => Connection {
                picked: self.picked,
                to_backend: self.to_backend,
                to_client: relay,
                closed: self.closed,
            },
        }
    }

    /// Takes note of `event`: returns the connection as it stands
    /// afterwards and what to do next, as `step` has it.
    pub fn advance(self, event: ConnectionEvent) -> (next: (Connection, ConnectionAction))
        ensures
            next == self.step(event),
    {
        if self.closed {
            return (self, ConnectionAction::Refused);
        }
        let idle = self.to_backend == Relay::Idle && self.to_client == Relay::Idle;
        match event {
            ConnectionEvent::Picked => {
                if !self.picked {
                    (
                        Connection {
                            picked: true,
                            to_backend: self.to_backend,
                            to_client: self.to_client,
                            closed: false,
                        },
                        ConnectionAction::Connect,
                    )
                } else {
                    (self, ConnectionAction::Refused)
                }
            },
            ConnectionEvent::NoBackend => {
                if !self.picked {
                    (
                        Connection {
                            picked: false,
                            to_backend: self.to_backend,
                            to_client: self.to_client,
                            closed: true,
                        },
                        ConnectionAction::Drop,
                    )
                } else {
                    (self, ConnectionAction::Refused)
                }
            },
            ConnectionEvent::Connected => {
                if self.picked && idle {
                    (
                        Connection {
                            picked: true,
                            to_backend: Relay::Copying,
                            to_client: Relay::Copying,
                            closed: false,
                        },
                        ConnectionAction::Relay,
                    )
                } else {
                    (self, ConnectionAction::Refused)
                }
            },
            ConnectionEvent::ConnectFailed => {
                if self.picked && idle {
                    (
                        Connection {
                            picked: true,
                            to_backend: Relay::Idle,
                            to_client: Relay::Idle,
                            closed: true,
                        },
                        ConnectionAction::Drop,
                    )
                } else {
                    (self, ConnectionAction::Refused)
                }
            },
            ConnectionEvent::CopyEnded(direction) => {
                if self.relay_of(direction) == Relay::Copying {
                    (
                        self.set_relay(direction, Relay::Closing),
                        ConnectionAction::HalfClose(direction),
                    )
                } else {
                    (self, ConnectionAction::Refused)
                }
            },
            ConnectionEvent::ShutDown(direction) => {
                if self.relay_of(direction) == Relay::Closing {
                    let other = match direction {
                        Direction::ToBackend => Direction::ToClient,
                        Direction::ToClient => Direction::ToBackend,
                    };
                    let ended = self.set_relay(direction, Relay::Ended);
                    if self.relay_of(other) == Relay::Ended {
                        (
                            Connection {
                                picked: ended.picked,
                                to_backend: ended.to_backend,
                                to_client: ended.to_client,
                                closed: true,
                            },
                            ConnectionAction::Finish,
                        )
                    } else {
                        (ended, ConnectionAction::Wait)
                    }
                } else {
                    (self, ConnectionAction::Refused)
                }
            },
        }
    }
}

} // verus!
