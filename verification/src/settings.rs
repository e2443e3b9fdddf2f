//! What a configuration document says, key by key, before any default is
//! applied.

use crate::document::{as_integer, as_items, as_text, entry, get_entry, integer_of, items_of, text_of};
use vstd::prelude::*;
use vstd::string::StringExecFns;

verus! {

/// The keys of one `[[server]]` entry. A key that is absent, or whose value
/// has another type than the key calls for, is `None`.
pub struct ServerSettings {
    /// `address`, a string.
    pub address: Option<String>,
    /// `port`, an integer.
    pub port: Option<i64>,
    /// `max_connections`, an integer.
    pub max_connections: Option<i64>,
    /// `weight`, an integer.
    pub weight: Option<i64>,
}

/// The keys of a configuration document.
pub struct Settings {
    /// `load_balancer.address`, a string.
    pub address: Option<String>,
    /// `load_balancer.port`, an integer.
    pub port: Option<i64>,
    /// `load_balancer.algorithm`, a string.
    pub algorithm: Option<String>,
    /// `load_balancer.layer`, a string.
    pub layer: Option<String>,
    /// The `[[server]]` entries in document order; `None` where the
    /// document has no `server` array.
    pub servers: Option<Vec<ServerSettings>>,
}

/// `ServerSettings` with its texts as sequences of characters.
pub struct ServerSettingsView {
    /// `address`.
    pub address: Option<Seq<char>>,
    /// `port`.
    pub port: Option<i64>,
    /// `max_connections`.
    pub max_connections: Option<i64>,
    /// `weight`.
    pub weight: Option<i64>,
}

/// `Settings` with its texts as sequences of characters.
pub struct SettingsView {
    /// `load_balancer.address`.
    pub address: Option<Seq<char>>,
    /// `load_balancer.port`.
    pub port: Option<i64>,
    /// `load_balancer.algorithm`.
    pub algorithm: Option<Seq<char>>,
    /// `load_balancer.layer`.
    pub layer: Option<Seq<char>>,
    /// The `[[server]]` entries in document order.
    pub servers: Option<Seq<ServerSettingsView>>,
}

/// The characters of a text that may be absent.
pub open spec fn text_view(text: Option<String>) -> Option<Seq<char>> {
    match text {
        Some(t) => Some(t@),
        None => None,
    }
}

impl View for ServerSettings {
    type V = ServerSettingsView;

    open spec fn view(&self) -> ServerSettingsView {
        ServerSettingsView {
            address: text_view(self.address),
            port: self.port,
            max_connections: self.max_connections,
            weight: self.weight,
        }
    }
}

impl View for Settings {
    type V = SettingsView;

    open spec fn view(&self) -> SettingsView {
        SettingsView {
            address: text_view(self.address),
            port: self.port,
            algorithm: text_view(self.algorithm),
            layer: text_view(self.layer),
            servers: match self.servers {
                Some(list) => Some(Seq::new(list@.len(), |k: int| list@[k]@)),
                None => None,
            },
        }
    }
}

/// The string under `key` of a table that may be absent.
pub open spec fn text_under(table: Option<toml::Value>, key: Seq<char>) -> Option<Seq<char>> {
    match table {
        Some(t) => match entry(t, key) {
            Some(value) => text_of(value),
            None => None,
        },
        None => None,
    }
}

/// The integer under `key` of a table that may be absent.
pub open spec fn integer_under(table: Option<toml::Value>, key: Seq<char>) -> Option<i64> {
    match table {
        Some(t) => match entry(t, key) {
            Some(value) => integer_of(value),
            None => None,
        },
        None => None,
    }
}

/// What one element of the `server` array says.
pub open spec fn server_settings_of(item: toml::Value) -> ServerSettingsView {
    ServerSettingsView {
        address: text_under(Some(item), "address"@),
        port: integer_under(Some(item), "port"@),
        max_connections: integer_under(Some(item), "max_connections"@),
        weight: integer_under(Some(item), "weight"@),
    }
}

/// What a document says: the four keys of its `load_balancer` table and the
/// elements of its `server` array.
pub open spec fn settings_of(document: toml::Value) -> SettingsView {
    let balancer = entry(document, "load_balancer"@);
    SettingsView {
        address: text_under(balancer, "address"@),
        port: integer_under(balancer, "port"@),
        algorithm: text_under(balancer, "algorithm"@),
        layer: text_under(balancer, "layer"@),
        servers: match entry(document, "server"@) {
            Some(value) => match items_of(value) {
                Some(items) => Some(Seq::new(items.len(), |k: int| server_settings_of(items[k]))),
                None => None,
            },
            None => None,
        },
    }
}

fn read_text(table: Option<&toml::Value>, key: &str) -> (text: Option<String>)
    ensures
        text_view(text) == text_under(
            match table {
                Some(t) => Some(*t),
                None => None,
            },
            key@,
        ),
{
    match table {
        Some(t) => match get_entry(t, key) {
            Some(value) => match as_text(value) {
                Some(text) => Some(String::from_str(text)),
                None => None,
            },
            None => None,
        },
        None => None,
    }
}

fn read_integer(table: Option<&toml::Value>, key: &str) -> (number: Option<i64>)
    ensures
        number == integer_under(
            match table {
                Some(t) => Some(*t),
                None => None,
            },
            key@,
        ),
{
    match table {
        Some(t) => match get_entry(t, key) {
            Some(value) => as_integer(value),
            None => None,
        },
        None => None,
    }
}

impl ServerSettings {
    /// Reads the keys of one element of the `server` array.
    pub fn read(item: &toml::Value) -> (settings: ServerSettings)
        ensures
            settings@ == server_settings_of(*item),
    {
        ServerSettings {
            address: read_text(Some(item), "address"),
            port: read_integer(Some(item), "port"),
            max_connections: read_integer(Some(item), "max_connections"),
            weight: read_integer(Some(item), "weight"),
        }
    }
}

impl Settings {
    /// Reads the keys of a document.
    pub fn read(document: &toml::Value) -> (settings: Settings)
        ensures
            settings@ == settings_of(*document),
    {
        let balancer = get_entry(document, "load_balancer");
        let servers = match get_entry(document, "server") {
            Some(value) => match as_items(value) {
                Some(items) => {
                    let mut list: Vec<ServerSettings> = Vec::new();
                    let mut k: usize = 0;
                    while k < items.len()
                        invariant
                            k <= items@.len(),
                            list@.len() == k,
                            forall|j: int|
                                0 <= j < k ==> (#[trigger] list@[j])@ == server_settings_of(
                                    items@[j],
                                ),
                        decreases items@.len() - k,
                    {
                        list.push(ServerSettings::read(&items[k]));
                        k += 1;
                    }
                    assert(Seq::new(list@.len(), |j: int| list@[j]@) =~= Seq::new(
                        items@.len(),
                        |j: int| server_settings_of(items@[j]),
                    ));
                    Some(list)
                },
                None => None,
            },
            None => None,
        };
        Settings {
            address: read_text(balancer, "address"),
            port: read_integer(balancer, "port"),
            algorithm: read_text(balancer, "algorithm"),
            layer: read_text(balancer, "layer"),
            servers,
        }
    }
}

} // verus!
