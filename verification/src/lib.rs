//! SDK for out-of-process plugins that speak newline-delimited JSON-RPC 2.0
//! over stdio.
//!
//! Modules:
//! - [`json`]: the JSON value type that messages carry, and what the library
//!   reads out of one.
//! - [`rpc`]: JSON-RPC 2.0 envelope types and error codes.
//! - [`transport`]: newline-delimited framing of messages.
//! - [`service`]: the serving session ([`service::Session`]), driven one
//!   transport event at a time, and the [`service::Handler`] trait.
//! - [`handshake`]: optional `initialize` exchange for plugins that are not
//!   MCP servers.
//! - [`manifest`]: the `resq-plugin.toml` plugin descriptor.
//! - [`text`]: decimal rendering and whitespace trimming of text.
use vstd::prelude::*;

pub mod handshake;
pub mod io_error;
pub mod json;
pub mod manifest;
pub mod rpc;
pub mod service;
pub mod text;
pub mod transport;

pub use manifest::{Manifest, ManifestError};
pub use rpc::{Id, Message, RpcError};
pub use service::{Action, Event, Handler, PluginInfo, Session};
pub use transport::{StdioTransport, TransportError};

verus! {

/// Wire protocol version implemented by this SDK. Clients put their version
/// into `initialize`; a plugin replies with the version it speaks.
pub const PROTOCOL_VERSION: u32 = 1;

} // verus!
