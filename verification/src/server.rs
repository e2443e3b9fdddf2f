//! One upstream server of the pool: its address and limits, fixed when it
//! is made, and its counters behind a lock of its own.

use crate::counters::{now, CounterCell, Counters};
use crate::uri::{host_of, port_of, uri_host, uri_port};
use std::sync::Arc;
use vstd::prelude::*;

verus! {

/// A backend as the pool shares it between the listener and its connections.
pub type SyncServer = Arc<Server>;

/// One upstream server.
pub struct Server {
    /// Address the server was configured with.
    pub uri: http::Uri,
    /// Host of `uri`.
    pub host: String,
    /// Port of `uri`.
    pub port: u16,
    /// Advisory ceiling on concurrent connections.
    pub max_connections: u32,
    /// Share of the picks under weighted round-robin.
    pub weight: usize,
    /// What is counted of the server, behind the server's own lock.
    pub counters: CounterCell,
}

impl Server {
    /// Whether a server can be made from `uri`: it names a host and a port.
    pub open spec fn addressable(uri: http::Uri) -> bool {
        uri_host(uri) is Some && uri_port(uri) is Some
    }

    /// What `new` fixes of a fresh server: the address parts are those of
    /// `uri`, the limits are as given, and the counters begin at zero with
    /// the server counted as up. The two timestamps are the clock's and are
    /// left open.
    pub open spec fn fresh(self, uri: http::Uri, max_connections: u32, weight: usize) -> bool {
        &&& self.uri == uri
        &&& Some(self.host@) == uri_host(uri)
        &&& Some(self.port) == uri_port(uri)
        &&& self.max_connections == max_connections
        &&& self.weight == weight
        &&& self.counters.first().zeroed()
    }

    /// Makes a server for `uri`, which must name a host and a port.
    pub fn new(uri: http::Uri, max_connections: u32, weight: usize) -> (server: Server)
        requires
            Self::addressable(uri),
        ensures
            server.fresh(uri, max_connections, weight),
    {
        let made = Self::try_new(uri, max_connections, weight);
        made.unwrap()
    }

    /// Makes a server for `uri`, or `None` where `uri` lacks a host or a port.
    pub fn try_new(uri: http::Uri, max_connections: u32, weight: usize) -> (made: Option<Server>)
        ensures
            made is Some <==> Self::addressable(uri),
            made matches Some(server) ==> server.fresh(uri, max_connections, weight),
    {
        let host = match host_of(&uri) {
            Some(host) => host,
            None => { return None; },
        };
        let port = match port_of(&uri) {
            Some(port) => port,
            None => { return None; },
        };
        Some(
            Server {
                uri,
                host,
                port,
                max_connections,
                weight,
                counters: CounterCell::new(Counters::start(now())),
            },
        )
    }
}

} // verus!
