//! The settings a node is started with, and how they become the engine's.

use vstd::prelude::*;
use crate::discovery::copy_opt_text;
use crate::engine::{DropTeaConfig, TransportMode};
use crate::text::{lower_of, lowercase, text_eq};
use crate::utils::device_name;

verus! {

/// All settings of a node.
pub struct AppConfig {
    pub server: ServerConfig,
    pub storage: StorageConfig,
    pub dev: Option<DevConfig>,
}

/// Settings of the listener.
pub struct ServerConfig {
    pub port: u16,
    pub buffer_size: usize,
    pub mode: String,
    pub node_name: Option<String>,
}

/// Where files are kept.
pub struct StorageConfig {
    pub save_path: String,
    pub temp_path: String,
}

/// Developer settings.
pub struct DevConfig {
    pub enabled: bool,
}

/// The transport mode named when a configuration names none.
pub fn default_mode() -> (r: String)
    ensures
        r@ == "tcp"@,
{
    String::from_str("tcp")
}

/// The transport that a lower-case mode name selects: `quic`, `plaintcp`
/// or `plain_tcp`, and TLS over TCP for any other.
pub open spec fn mode_of(lowered: Seq<char>) -> TransportMode {
    if lowered == "quic"@ {
        TransportMode::Quic
    } else if lowered == "plaintcp"@ || lowered == "plain_tcp"@ {
        TransportMode::PlainTcp
    } else {
        TransportMode::Tcp
    }
}

/// The transport that a mode name selects, in any letter case.
pub fn parse_mode(mode: &str) -> (r: TransportMode)
    ensures
        r == mode_of(lower_of(mode@)),
{
    let low = lowercase(mode);
    if text_eq(low.as_str(), "quic") {
        TransportMode::Quic
    } else if text_eq(low.as_str(), "plaintcp") || text_eq(low.as_str(), "plain_tcp") {
        TransportMode::PlainTcp
    } else {
        TransportMode::Tcp
    }
}

impl AppConfig {
    /// The engine settings: the mode by name, the port, the save path as
    /// storage, the configured node name or else this device's name, and
    /// developer mode when it is enabled.
    pub fn to_engine_config(&self) -> (r: DropTeaConfig)
        ensures
            r.mode == mode_of(lower_of(self.server.mode@)),
            r.port == self.server.port,
            r.storage_path@ == self.storage.save_path@,
            self.server.node_name is Some ==> r.node_name@ == self.server.node_name->0@,
            r.dev_mode == (self.dev is Some && self.dev->0.enabled),
    {
        let mode = parse_mode(self.server.mode.as_str());
        let node_name = match copy_opt_text(&self.server.node_name) {
            Some(n) => n,
            None => device_name(),
        };
        let dev_mode = match &self.dev {
            Some(d) => d.enabled,
            None => false,
        };
        DropTeaConfig {
            mode,
            port: self.server.port,
            storage_path: self.storage.save_path.clone(),
            node_name,
            dev_mode,
        }
    }
}

} // verus!
