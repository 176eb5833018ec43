//! Standard JSON-RPC error codes plus the plugin range.
use vstd::prelude::*;

verus! {

pub const PARSE_ERROR: i64 = -32700;

pub const METHOD_NOT_FOUND: i64 = -32601;

pub const INVALID_PARAMS: i64 = -32602;

pub const INTERNAL_ERROR: i64 = -32603;

/// Server-defined errors start here; plugins report domain failures
/// (e.g. "no QVM loaded") as code -32000 with a human message.
pub const PLUGIN_ERROR: i64 = -32000;

} // verus!
