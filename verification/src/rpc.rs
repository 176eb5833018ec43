//! JSON-RPC 2.0 envelope types.
//!
//! Only the subset plugins need: requests with numeric or string ids,
//! notifications, responses, and the standard error codes. A JSON value
//! inside a message (`params`, `result`, error `data`) is carried as a
//! `serde_json::Value`.
use vstd::prelude::*;

use crate::text::{decimal, decimal_string, is_canonical_numeral, numeral_value};

pub mod codes;

verus! {

/// A JSON-RPC error object.
#[derive(Debug, Clone)]
pub struct RpcError {
    pub code: i64,
    pub message: String,
    pub data: Option<serde_json::Value>,
}

impl RpcError {
    /// An error with the given code and message and no data.
    pub fn new(code: i64, message: &str) -> (r: RpcError)
        ensures
            r.code == code,
            r.message@ == message@,
            r.data is None,
    {
        RpcError { code, message: String::from_str(message), data: None }
    }

    /// The answer to a request for a method the plugin does not have:
    /// code `METHOD_NOT_FOUND`, message `method not found: <method>`.
    pub fn method_not_found(method: &str) -> (r: RpcError)
        ensures
            r.code == codes::METHOD_NOT_FOUND,
            r.message@ == "method not found: "@ + method@,
            r.data is None,
    {
        let message = String::from_str("method not found: ").concat(method);
        RpcError { code: codes::METHOD_NOT_FOUND, message, data: None }
    }

    /// A request whose params break the method's schema: code `INVALID_PARAMS`.
    pub fn invalid_params(message: &str) -> (r: RpcError)
        ensures
            r.code == codes::INVALID_PARAMS,
            r.message@ == message@,
            r.data is None,
    {
        RpcError::new(codes::INVALID_PARAMS, message)
    }

    /// A plugin-domain failure: code `PLUGIN_ERROR` with a human message.
    pub fn plugin(message: &str) -> (r: RpcError)
        ensures
            r.code == codes::PLUGIN_ERROR,
            r.message@ == message@,
            r.data is None,
    {
        RpcError::new(codes::PLUGIN_ERROR, message)
    }
}

/// JSON-RPC id: the spec allows numbers and strings.
#[derive(Debug, Clone, PartialEq, Eq, Hash)]
pub enum Id {
    Num(u64),
    Str(String),
}

impl Id {
    /// The text of the id: the decimal digits of a number, a string as it is.
    pub open spec fn text_spec(self) -> Seq<char> {
        match self {
            Id::Num(n) => decimal(n as nat),
            Id::Str(s) => s@,
        }
    }

    /// The text of the id (what `Display` shows of it).
    pub fn to_text(&self) -> (r: String)
        ensures
            r@ == self.text_spec(),
            self matches Id::Num(n) ==> numeral_value(r@) == n && is_canonical_numeral(r@),
            self matches Id::Str(s) ==> r@ == s@,
    {
        match self {
            Id::Num(n) => decimal_string(*n),
            Id::Str(s) => s.clone(),
        }
    }
}

/// One inbound or outbound JSON-RPC message.
#[derive(Debug, Clone)]
pub enum Message {
    /// A call expecting a response.
    Request { id: Id, method: String, params: serde_json::Value },
    /// A one-way event; never answered.
    Notification { method: String, params: serde_json::Value },
    /// A reply to a request.
    Response { id: Id, result: Option<serde_json::Value>, error: Option<RpcError> },
}

impl Message {
    /// A successful response to request `id`.
    pub fn ok(id: Id, result: serde_json::Value) -> (r: Message)
        ensures
            r == (Message::Response { id: id, result: Some(result), error: None }),
    {
        Message::Response { id, result: Some(result), error: None }
    }

    /// An error response to request `id`: it carries the error and no result.
    pub fn err(id: Id, error: RpcError) -> (r: Message)
        ensures
            r == (Message::Response { id: id, result: None, error: Some(error) }),
    {
        Message::Response { id, result: None, error: Some(error) }
    }
}

} // verus!
