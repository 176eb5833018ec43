//! Optional `initialize` exchange for plugins that are not MCP servers.
//!
//! MCP plugins do not use this: the Model Context Protocol has its own
//! `initialize` with capabilities negotiation, handled inside the plugin's
//! [`crate::service::Handler`]. Minimal plugins use this fixed contract:
//!
//! ```json
//! -> {"id":1,"method":"initialize","params":{"protocolVersion":1,"client":"resq-gui"}}
//! <- {"id":1,"result":{"protocolVersion":1,"plugin":{"name":"x","version":"0.1.0"}}}
//! ```
//!
//! [`accepts`] validates an incoming request; [`InitializeResult`] builds
//! the reply (`from_info` fills the plugin identity, `with_protocol_version`
//! echoes the negotiated version).
use vstd::prelude::*;

use crate::json::{json_u64_members, u64_member};
use crate::service::PluginInfo;
use crate::PROTOCOL_VERSION;

verus! {

/// Client -> plugin `initialize` params.
#[derive(Debug, Clone)]
pub struct InitializeParams {
    pub protocol_version: u32,
    pub client: String,
}

/// Plugin -> client `initialize` result.
#[derive(Debug, Clone)]
pub struct InitializeResult {
    pub protocol_version: u32,
    pub plugin: PluginDescriptor,
}

/// Flat identity block inside [`InitializeResult`].
#[derive(Debug, Clone)]
pub struct PluginDescriptor {
    pub name: String,
    pub version: String,
}

impl InitializeResult {
    /// The result for the plugin `name` at `version`, speaking this SDK's
    /// protocol version.
    pub fn new(name: &str, version: &str) -> (r: InitializeResult)
        ensures
            r.protocol_version == PROTOCOL_VERSION,
            r.plugin.name@ == name@,
            r.plugin.version@ == version@,
    {
        InitializeResult {
            protocol_version: PROTOCOL_VERSION,
            plugin: PluginDescriptor {
                name: String::from_str(name),
                version: String::from_str(version),
            },
        }
    }

    /// Built from a handler's [`PluginInfo`].
    pub fn from_info(info: &PluginInfo) -> (r: InitializeResult)
        ensures
            r.protocol_version == PROTOCOL_VERSION,
            r.plugin.name@ == info.name@,
            r.plugin.version@ == info.version@,
    {
        InitializeResult::new(info.name.as_str(), info.version.as_str())
    }

    /// Overrides the reported `protocolVersion`, e.g. to echo the highest
    /// version the client requested that the plugin supports.
    pub fn with_protocol_version(self, protocol_version: u32) -> (r: Self)
        ensures
            r.protocol_version == protocol_version,
            r.plugin == self.plugin,
    {
        let mut r = self;
        r.protocol_version = protocol_version;
        r
    }
}

/// Whether a requested protocol version is one this SDK can speak: present,
/// and at most [`PROTOCOL_VERSION`].
pub open spec fn speaks_spec(requested: Option<u64>) -> bool {
    requested matches Some(v) && v <= PROTOCOL_VERSION
}

/// Whether this SDK can speak the requested protocol version.
pub fn speaks(requested: Option<u64>) -> (r: bool)
    ensures
        r == speaks_spec(requested),
{
    match requested {
        Some(v) => v <= PROTOCOL_VERSION as u64,
        None => false,
    }
}

/// True when an incoming `initialize` request carries a `protocolVersion`
/// this SDK can speak (`<=` [`PROTOCOL_VERSION`]).
pub fn accepts(params: &serde_json::Value) -> (r: bool)
    ensures
        r == (json_u64_members(*params).dom().contains("protocolVersion"@) && json_u64_members(
            *params,
        )["protocolVersion"@] <= PROTOCOL_VERSION),
{
    speaks(u64_member(params, "protocolVersion"))
}

} // verus!
