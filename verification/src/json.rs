//! JSON values as messages carry them.
//!
//! A `serde_json::Value` is carried through the library as it is: requests hand their
//! `params` to the handler, responses carry the handler's result. The only
//! thing the library itself reads out of a value is an unsigned integer
//! member of an object (the `protocolVersion` of an `initialize` request).
use vstd::prelude::*;

verus! {

/// `serde_json::Value`, carried through the library as an opaque value.
#[verifier::external_type_specification]
#[verifier::external_body]
pub struct ExValue(serde_json::Value);

/// `Clone` of `serde_json::Value`, which `derive(Clone)` writes: the clone is
/// the same value.
pub assume_specification[ <serde_json::Value as std::clone::Clone>::clone ](v: &serde_json::Value) -> (r: serde_json::Value)
    ensures
        r == *v,
;

/// Of a JSON value that is an object, the members whose value is an unsigned
/// integer that fits in a `u64`, by key. It is empty for any other value.
pub uninterp spec fn json_u64_members(v: serde_json::Value) -> Map<Seq<char>, u64>;

/// Reads member `key` of `v` as an unsigned integer.
///
/// Calls `serde_json::Value::get` with a string key, which gives the member
/// of an object and `None` for a missing key or a value that is not an
/// object, then `serde_json::Value::as_u64`, which gives the number if it is
/// a non-negative integer that fits in a `u64` and `None` otherwise. The
/// contract states exactly that, through [`json_u64_members`].
#[verifier::external_body]
pub fn u64_member(v: &serde_json::Value, key: &str) -> (r: Option<u64>)
    ensures
        json_u64_members(*v).dom().contains(key@) ==> r == Some(json_u64_members(*v)[key@]),
        !json_u64_members(*v).dom().contains(key@) ==> r is None,
{
    v.get(key).and_then(serde_json::Value::as_u64)
}

} // verus!
