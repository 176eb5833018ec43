use resq_plugin_sdk::rpc::codes;
use resq_plugin_sdk::{Id, Message, RpcError};
use serde_json::Value;

#[test]
fn error_response_omits_result() {
    let m = Message::err(Id::Num(3), RpcError::plugin("no qvm"));
    match m {
        Message::Response { id, result, error } => {
            assert_eq!(id, Id::Num(3));
            assert!(result.is_none());
            let e = error.expect("error");
            assert_eq!(e.code, -32000);
            assert_eq!(e.message, "no qvm");
            assert!(e.data.is_none());
        }
        _ => panic!("wrong variant"),
    }
}

#[test]
fn ok_response_carries_result_only() {
    let m = Message::ok(Id::Str("abc-1".to_string()), Value::Bool(true));
    match m {
        Message::Response { id, result, error } => {
            assert_eq!(id, Id::Str("abc-1".to_string()));
            assert_eq!(result, Some(Value::Bool(true)));
            assert!(error.is_none());
        }
        _ => panic!("wrong variant"),
    }
}

#[test]
fn error_codes_have_their_standard_values() {
    assert_eq!(codes::PARSE_ERROR, -32700);
    assert_eq!(codes::METHOD_NOT_FOUND, -32601);
    assert_eq!(codes::INVALID_PARAMS, -32602);
    assert_eq!(codes::INTERNAL_ERROR, -32603);
    assert_eq!(codes::PLUGIN_ERROR, -32000);
}

#[test]
fn method_not_found_names_the_method() {
    let e = RpcError::method_not_found("tools/nope");
    assert_eq!(e.code, -32601);
    assert_eq!(e.message, "method not found: tools/nope");
    assert!(e.data.is_none());
}

#[test]
fn invalid_params_and_new_keep_the_message() {
    let e = RpcError::invalid_params("missing field `a`");
    assert_eq!(e.code, -32602);
    assert_eq!(e.message, "missing field `a`");
    let e = RpcError::new(-32603, "boom");
    assert_eq!(e.code, -32603);
    assert_eq!(e.message, "boom");
    assert!(e.data.is_none());
}

#[test]
fn ids_show_as_decimal_or_as_text() {
    assert_eq!(Id::Num(7).to_text(), "7");
    assert_eq!(Id::Num(0).to_text(), "0");
    assert_eq!(Id::Num(10).to_text(), "10");
    assert_eq!(Id::Num(u64::MAX).to_text(), "18446744073709551615");
    assert_eq!(Id::Str("abc-1".to_string()).to_text(), "abc-1");
    assert_eq!(Id::Str(String::new()).to_text(), "");
}
