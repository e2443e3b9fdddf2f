//! The configuration the proxies run on: where to listen, which backends
//! to serve, and how to choose among them.

use crate::decimal::{decimal, render_decimal};
use crate::document::{parse_document, toml_document};
use crate::scheduler::Scheduler;
use crate::server::{Server, SyncServer};
use crate::settings::{settings_of, text_view, ServerSettingsView, Settings, SettingsView};
use crate::text::{eq_ignoring_case, eq_text, same_ignoring_case};
use crate::uri::{host_of, parse_uri, port_of, uri_parsed};
use crate::weighted_round_robin::has_weight;
use std::sync::Arc;
use vstd::prelude::*;
use vstd::string::StringExecFns;

verus! {

/// Which algorithm picks the backends.
#[derive(Clone, Copy, Debug, PartialEq, Eq, Structural)]
pub enum Algorithm {
    /// The backends take turns.
    RoundRobin,
    /// The backends take turns in proportion to their weights.
    WeightedRoundRobin,
    /// The backend is a function of the client address.
    IpHashing,
}

/// At which layer the proxy works.
#[derive(Clone, Copy, Debug, PartialEq, Eq, Structural)]
pub enum LayerMode {
    /// Layer 4: bytes are relayed as they come.
    L4,
    /// Layer 7: HTTP requests are forwarded one by one.
    L7,
}

/// Why a configuration was turned down.
#[derive(Clone, Copy, Debug, PartialEq, Eq, Structural)]
pub enum ConfigError {
    /// The text is not a TOML document.
    Syntax,
    /// The listening address is no URI with a host and a port.
    ListenAddress,
    /// The address of the server at this position of the `server` array is
    /// no URI with a host and a port.
    ServerAddress(usize),
    /// `max_connections` of the server at this position is below 1 or
    /// beyond 32 bits.
    ServerLimit(usize),
    /// `weight` of the server at this position is below 1 or beyond the
    /// machine's word.
    ServerWeight(usize),
}

/// The algorithm that a configuration word names: `roundrobin` or
/// `round_robin`, `weightedroundrobin` or `weighted_round_robin`,
/// `iphashing` or `ip_hashing`, in any mix of upper and lower case. Any
/// other word names round-robin.
pub open spec fn algorithm_named(name: Seq<char>) -> Algorithm {
    if same_ignoring_case(name, "weightedroundrobin"@) || same_ignoring_case(
        name,
        "weighted_round_robin"@,
    ) {
        Algorithm::WeightedRoundRobin
    } else if same_ignoring_case(name, "iphashing"@) || same_ignoring_case(name, "ip_hashing"@) {
        Algorithm::IpHashing
    } else {
        Algorithm::RoundRobin
    }
}

/// The layer that a configuration word names: `L7` names layer 7, any
/// other word layer 4.
pub open spec fn layer_named(name: Seq<char>) -> LayerMode {
    if name == "L7"@ {
        LayerMode::L7
    } else {
        LayerMode::L4
    }
}

/// Reads the name of an algorithm.
pub fn get_algorithm(algorithm: &str) -> (named: Algorithm)
    ensures
        named == algorithm_named(algorithm@),
{
    if eq_ignoring_case(algorithm, "weightedroundrobin") || eq_ignoring_case(
        algorithm,
        "weighted_round_robin",
    ) {
        Algorithm::WeightedRoundRobin
    } else if eq_ignoring_case(algorithm, "iphashing") || eq_ignoring_case(algorithm, "ip_hashing") {
        Algorithm::IpHashing
    } else {
        Algorithm::RoundRobin
    }
}

/// Reads the name of a layer.
pub fn get_layer(layer: &str) -> (named: LayerMode)
    ensures
        named == layer_named(layer@),
{
    if eq_text(layer, "L7") {
        LayerMode::L7
    } else {
        LayerMode::L4
    }
}

/// What the configuration asks of one backend, defaults applied.
pub struct ServerPlan {
    /// The address as text: host, a colon, and the port in decimal.
    pub address: Seq<char>,
    /// The ceiling on concurrent connections.
    pub max_connections: int,
    /// The weight.
    pub weight: int,
}

/// The text or, where there is none, `fallback`.
pub open spec fn text_or(text: Option<Seq<char>>, fallback: Seq<char>) -> Seq<char> {
    match text {
        Some(t) => t,
        None => fallback,
    }
}

/// The number or, where there is none, `fallback`.
pub open spec fn integer_or(number: Option<i64>, fallback: i64) -> i64 {
    match number {
        Some(n) => n,
        None => fallback,
    }
}

/// The listening address as text: the host, `localhost` by default, a
/// colon, and the port, 8080 by default.
pub open spec fn listen_address(settings: SettingsView) -> Seq<char> {
    text_or(settings.address, "localhost"@) + ":"@ + decimal(integer_or(settings.port, 8080) as int)
}

/// What a `[[server]]` entry asks for: host `localhost`, port 3000, at
/// most 1000 connections and weight 1, each unless the entry says
/// otherwise.
pub open spec fn plan_of(entry: ServerSettingsView) -> ServerPlan {
    ServerPlan {
        address: text_or(entry.address, "localhost"@) + ":"@ + decimal(
            integer_or(entry.port, 3000) as int,
        ),
        max_connections: integer_or(entry.max_connections, 1000) as int,
        weight: integer_or(entry.weight, 1) as int,
    }
}

/// The backends that a configuration asks for. Without a `server` array
/// these are the two local backends on ports 3000 and 3001.
pub open spec fn planned_servers(settings: SettingsView) -> Seq<ServerPlan> {
    match settings.servers {
        Some(entries) => Seq::new(entries.len(), |k: int| plan_of(entries[k])),
        None => seq![
            ServerPlan { address: "http://127.0.0.1:3000"@, max_connections: 1000, weight: 1 },
            ServerPlan { address: "http://127.0.0.1:3001"@, max_connections: 1000, weight: 1 },
        ],
    }
}

/// Whether a text is a URI that names a host and a port.
pub open spec fn is_address(text: Seq<char>) -> bool {
    uri_parsed(text) matches Some(uri) && Server::addressable(uri)
}

/// Whether `server` is the fresh backend that `plan` asks for.
pub open spec fn built_as(server: Server, plan: ServerPlan) -> bool {
    &&& uri_parsed(plan.address) matches Some(uri)
    &&& server.fresh(uri, plan.max_connections as u32, plan.weight as usize)
    &&& server.weight >= 1
    &&& server.max_connections >= 1
}

/// What is wrong with the backend planned at position `k`, if anything:
/// its address first, then its ceiling, then its weight.
pub open spec fn plan_fault(plan: ServerPlan, k: usize) -> Option<ConfigError> {
    if !is_address(plan.address) {
        Some(ConfigError::ServerAddress(k))
    } else if !(1 <= plan.max_connections <= u32::MAX) {
        Some(ConfigError::ServerLimit(k))
    } else if !(1 <= plan.weight <= usize::MAX) {
        Some(ConfigError::ServerWeight(k))
    } else {
        None
    }
}

/// The first fault among the plans from position `from` on.
pub open spec fn first_plan_fault(plans: Seq<ServerPlan>, from: nat) -> Option<ConfigError>
    decreases plans.len() - from,
{
    if from >= plans.len() {
        None
    } else if plan_fault(plans[from as int], from as usize) is Some {
        plan_fault(plans[from as int], from as usize)
    } else {
        first_plan_fault(plans, from + 1)
    }
}

/// The fault for which a configuration is turned down, if any: the
/// listening address first, then the backends in order.
pub open spec fn first_fault(settings: SettingsView) -> Option<ConfigError> {
    if !is_address(listen_address(settings)) {
        Some(ConfigError::ListenAddress)
    } else {
        first_plan_fault(planned_servers(settings), 0)
    }
}

/// The state that dispatch works on: the pool, the scheduler, and the
/// position of the backend picked last.
pub struct Config {
    /// Where the proxy listens.
    pub load_balancer_address: http::Uri,
    /// The pool, in configuration order.
    pub servers: Arc<Vec<SyncServer>>,
    /// The algorithm that was asked for.
    pub algorithm: Algorithm,
    /// The layer that was asked for.
    pub layer_mode: LayerMode,
    /// The pool position of the backend picked last.
    pub last_picked_index: usize,
    /// The scheduler and its state.
    pub algorithm_object: Scheduler,
}

impl Config {
    /// Whether the backend at position `k` of the pool is the fresh server
    /// that `plan` asks for.
    pub open spec fn serves(self, k: int, plan: ServerPlan) -> bool {
        built_as(*self.servers@[k], plan)
    }

    /// Whether this is the configuration that `settings` describes, before
    /// any pick: the listening address and the backends as planned, the
    /// algorithm and the layer as named (round-robin and layer 4 where no
    /// name is given), and a scheduler of that algorithm in its initial
    /// state.
    pub open spec fn describes(self, settings: SettingsView) -> bool {
        &&& uri_parsed(listen_address(settings)) == Some(self.load_balancer_address)
        &&& self.algorithm == match settings.algorithm {
            Some(name) => algorithm_named(name),
            None => Algorithm::RoundRobin,
        }
        &&& self.layer_mode == match settings.layer {
            Some(name) => layer_named(name),
            None => LayerMode::L4,
        }
        &&& self.last_picked_index == 0
        &&& self.algorithm_object.kind() == self.algorithm
        &&& self.algorithm_object.is_fresh()
        &&& self.servers@.len() == planned_servers(settings).len()
        &&& forall|k: int|
            0 <= k < self.servers@.len() ==> #[trigger] self.serves(k, planned_servers(settings)[k])
    }

    /// Whether the scheduler can pick from the pool.
    pub open spec fn ready(self) -> bool {
        self.algorithm_object.accepts(self.servers@)
    }
}

/// Joins a host and a port into an address, each replaced by its default
/// where it is absent.
fn make_address(host: &Option<String>, default_host: &str, port: Option<i64>, default_port: i64) -> (text:
    String)
    ensures
        text@ == text_or(text_view(*host), default_host@) + ":"@ + decimal(
            integer_or(port, default_port) as int,
        ),
{
    let mut text = match host {
        Some(h) => String::from_str(h.as_str()),
        None => String::from_str(default_host),
    };
    text.append(":");
    let number = match port {
        Some(p) => p,
        None => default_port,
    };
    let rendered = render_decimal(number);
    text.append(rendered.as_str());
    text
}

/// Parses an address and keeps it only if it names a host and a port.
fn check_address(text: &str) -> (checked: Option<http::Uri>)
    ensures
        checked is Some <==> is_address(text@),
        checked matches Some(uri) ==> uri_parsed(text@) == Some(uri),
{
    match parse_uri(text) {
        Ok(uri) => {
            if host_of(&uri).is_some() && port_of(&uri).is_some() {
                Some(uri)
            } else {
                None
            }
        },
        Err(_) => None,
    }
}

/// Makes the backend that is planned at position `k`, or names its fault.
fn build_server(address: &str, max_connections: i64, weight: i64, k: usize) -> (built: Result<
    SyncServer,
    ConfigError,
>)
    ensures
        built is Err <==> plan_fault(
            ServerPlan {
                address: address@,
                max_connections: max_connections as int,
                weight: weight as int,
            },
            k,
        ) is Some,
        built matches Err(fault) ==> plan_fault(
            ServerPlan {
                address: address@,
                max_connections: max_connections as int,
                weight: weight as int,
            },
            k,
        ) == Some(fault),
        built matches Ok(server) ==> built_as(
            *server,
            ServerPlan {
                address: address@,
                max_connections: max_connections as int,
                weight: weight as int,
            },
        ),
{
    let uri = match check_address(address) {
        Some(uri) => uri,
        None => { return Err(ConfigError::ServerAddress(k)); },
    };
    if max_connections < 1 || max_connections > u32::MAX as i64 {
        return Err(ConfigError::ServerLimit(k));
    }
    if weight < 1 || weight as u64 > usize::MAX as u64 {
        return Err(ConfigError::ServerWeight(k));
    }
    Ok(Arc::new(Server::new(uri, max_connections as u32, weight as usize)))
}

impl Config {
    /// Tells whether the scheduler can pick from the pool: under weighted
    /// round-robin a pool that is not empty needs a backend of positive
    /// weight.
    pub fn is_ready(&self) -> (ready: bool)
        ensures
            ready == self.ready(),
    {
        match &self.algorithm_object {
            Scheduler::WeightedRoundRobin(_) => self.servers.len() == 0 || has_weight(
                &self.servers,
            ),
            _ => true,
        }
    }

    /// Builds the configuration that `settings` describes.
    ///
    /// Fails exactly where `first_fault` finds a fault, and with that fault.
    /// A configuration that is built is ready for dispatch: every backend
    /// has a weight of at least 1.
    pub fn from_settings(settings: &Settings) -> (built: Result<Config, ConfigError>)
        ensures
            built is Err <==> first_fault(settings@) is Some,
            built matches Err(fault) ==> first_fault(settings@) == Some(fault),
            built matches Ok(config) ==> config.describes(settings@) && config.ready(),
    {
        let listen = make_address(&settings.address, "localhost", settings.port, 8080);
        let load_balancer_address = match check_address(listen.as_str()) {
            Some(uri) => uri,
            None => { return Err(ConfigError::ListenAddress); },
        };
        let ghost plans = planned_servers(settings@);
        let mut pool: Vec<SyncServer> = Vec::new();
        match &settings.servers {
            Some(entries) => {
                let mut k: usize = 0;
                while k < entries.len()
                    invariant
                        k <= entries@.len(),
                        settings.servers == Some(*entries),
                        plans == planned_servers(settings@),
                        plans.len() == entries@.len(),
                        is_address(listen_address(settings@)),
                        pool@.len() == k,
                        first_plan_fault(plans, 0) == first_plan_fault(plans, k as nat),
                        forall|j: int| 0 <= j < k ==> built_as(*#[trigger] pool@[j], plans[j]),
                    decreases entries@.len() - k,
                {
                    let entry = &entries[k];
                    let address = make_address(&entry.address, "localhost", entry.port, 3000);
                    let max_connections = match entry.max_connections {
                        Some(n) => n,
                        None => 1000,
                    };
                    let weight = match entry.weight {
                        Some(n) => n,
                        None => 1,
                    };
                    assert(plans[k as int] == ServerPlan {
                        address: address@,
                        max_connections: max_connections as int,
                        weight: weight as int,
                    });
                    let ghost before = pool@;
                    match build_server(address.as_str(), max_connections, weight, k) {
                        Ok(server) => {
                            pool.push(server);
                        },
                        Err(fault) => {
                            assert(first_plan_fault(plans, k as nat) == Some(fault));
                            return Err(fault);
                        },
                    }
                    proof {
                        assert(first_plan_fault(plans, k as nat) == first_plan_fault(
                            plans,
                            k as nat + 1,
                        ));
                        assert forall|j: int| 0 <= j < k + 1 implies built_as(
                            *#[trigger] pool@[j],
                            plans[j],
                        ) by {
                            if j < k {
                                assert(pool@[j] == before[j]);
                            }
                        }
                    }
                    k += 1;
                }
            },
            None => {
                match build_server("http://127.0.0.1:3000", 1000, 1, 0) {
                    Ok(server) => {
                        pool.push(server);
                    },
                    Err(fault) => {
                        return Err(fault);
                    },
                }
                match build_server("http://127.0.0.1:3001", 1000, 1, 1) {
                    Ok(server) => {
                        pool.push(server);
                    },
                    Err(fault) => {
                        assert(first_plan_fault(plans, 1) == Some(fault));
                        return Err(fault);
                    },
                }
                assert(first_plan_fault(plans, 2) is None);
                assert(first_plan_fault(plans, 1) is None);
            },
        }
        let algorithm = match &settings.algorithm {
            Some(name) => get_algorithm(name.as_str()),
            None => Algorithm::RoundRobin,
        };
        let layer_mode = match &settings.layer {
            Some(name) => get_layer(name.as_str()),
            None => LayerMode::L4,
        };
        let config = Config {
            load_balancer_address,
            servers: Arc::new(pool),
            algorithm,
            layer_mode,
            last_picked_index: 0,
            algorithm_object: Scheduler::new(algorithm),
        };
        proof {
            assert forall|k: int| 0 <= k < config.servers@.len() implies #[trigger] config.serves(
                k,
                planned_servers(settings@)[k],
            ) by {
                assert(config.servers@[k] == pool@[k]);
            }
            if config.servers@.len() > 0 {
                assert(crate::algorithm::weights_of(config.servers@)[0] > 0);
            }
        }
        Ok(config)
    }

    /// Reads a configuration from the text of a TOML document.
    ///
    /// Fails with `Syntax` where the text is not TOML, and otherwise as
    /// `from_settings` does on what the document says.
    pub fn new(text: &str) -> (built: Result<Config, ConfigError>)
        ensures
            toml_document(text@) is None ==> built == Err::<Config, _>(ConfigError::Syntax),
            toml_document(text@) matches Some(document) ==> {
                &&& built is Err <==> first_fault(settings_of(document)) is Some
                &&& built matches Err(fault) ==> first_fault(settings_of(document)) == Some(fault)
                &&& built matches Ok(config) ==> config.describes(settings_of(document))
                    && config.ready()
            },
    {
        match parse_document(text) {
            Ok(document) => Config::from_settings(&Settings::read(&document)),
            Err(_) => Err(ConfigError::Syntax),
        }
    }
}

} // verus!
