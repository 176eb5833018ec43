//! Plugin descriptor: `resq-plugin.toml` next to the plugin executable.
//!
//! ```toml
//! name = "resq-mcp"
//! version = "0.1.0"
//! description = "MCP server exposing QVM analysis tools to AI agents"
//! protocol = 1
//! ```
use vstd::prelude::*;

use crate::io_error::io_error_text;

verus! {

/// The file name of the descriptor, looked for in a plugin's directory.
pub const MANIFEST_FILE_NAME: &'static str = "resq-plugin.toml";

/// Parsed `resq-plugin.toml`.
#[derive(Debug, Clone)]
pub struct Manifest {
    /// Unique plugin id, e.g. `resq-mcp`.
    pub name: String,
    /// Semver string, informational.
    pub version: String,
    /// One-line human description (empty when absent).
    pub description: String,
    /// Wire protocol version the plugin was built against (0 when absent).
    pub protocol: u32,
}

/// Manifest problems (unreadable file, bad TOML, missing fields).
#[derive(Debug)]
pub enum ManifestError {
    Io(std::io::Error),
    Parse(String),
    Missing(&'static str),
}

impl Manifest {
    /// Accepts a decoded descriptor only if it names the plugin and its
    /// version: an empty `name` is reported first, then an empty `version`.
    pub fn check(self) -> (r: Result<Manifest, ManifestError>)
        ensures
            self.name@.len() == 0 ==> (r matches Err(ManifestError::Missing(k)) && k@ == "name"@),
            self.name@.len() > 0 && self.version@.len() == 0 ==> (r matches Err(
                ManifestError::Missing(k),
            ) && k@ == "version"@),
            self.name@.len() > 0 && self.version@.len() > 0 ==> r == Ok::<
                Manifest,
                ManifestError,
            >(self),
    {
        if self.name.as_str().is_empty() {
            return Err(ManifestError::Missing("name"));
        }
        if self.version.as_str().is_empty() {
            return Err(ManifestError::Missing("version"));
        }
        Ok(self)
    }
}

impl ManifestError {
    /// The message of the error (what `Display` shows of it).
    pub fn describe(&self) -> (r: String)
        ensures
            match self {
                ManifestError::Io(_) => "manifest io: "@.is_prefix_of(r@),
                ManifestError::Parse(e) => r@ == "manifest parse: "@ + e@,
                ManifestError::Missing(k) => r@ == "manifest missing field: "@ + k@,
            },
    {
        match self {
            ManifestError::Io(e) => {
                let text = io_error_text(e);
                String::from_str("manifest io: ").concat(text.as_str())
            },
            ManifestError::Parse(e) => String::from_str("manifest parse: ").concat(e.as_str()),
            ManifestError::Missing(k) => String::from_str("manifest missing field: ").concat(k),
        }
    }
}

} // verus!
