use bakeneko::num::{i64_to_dec, parse_i64_exec, u64_to_dec};
use bakeneko::rpc::{DaemonError, RpcErr, RpcException, RpcRequest, RpcResponse};
use bakeneko::util::{now_millis, stamp};

#[test]
fn decimal_numbers() {
    assert_eq!(u64_to_dec(0), "0");
    assert_eq!(u64_to_dec(18446744073709551615), "18446744073709551615");
    assert_eq!(i64_to_dec(-42), "-42");
    assert_eq!(parse_i64_exec("+17"), Some(17));
    assert_eq!(parse_i64_exec("-9223372036854775808"), Some(i64::MIN));
    assert_eq!(parse_i64_exec("9223372036854775808"), None);
    assert_eq!(parse_i64_exec("1x"), None);
}

#[test]
fn requests_are_one_json_line() {
    let r = RpcRequest { id: 7, method: "sources.list".into(), params: None };
    assert_eq!(r.encode(), "{\"id\":7,\"jsonrpc\":\"2.0\",\"method\":\"sources.list\"}");
    let p = serde_json::from_str::<serde_json::Value>("{\"source\":\"A\",\"offset\":0}").unwrap();
    let r = RpcRequest { id: 8, method: "catalog.list".into(), params: Some(p) };
    assert_eq!(
        r.encode(),
        "{\"id\":8,\"jsonrpc\":\"2.0\",\"method\":\"catalog.list\",\"params\":{\"offset\":0,\"source\":\"A\"}}"
    );
}

#[test]
fn responses_and_errors() {
    let ok = RpcResponse { id: Some(1), result: None, error: None };
    assert!(ok.is_ok());
    assert_eq!(ok.unwrap().unwrap(), serde_json::Value::Null);
    let bad = RpcResponse { id: Some(2), result: None, error: Some(RpcErr { code: -32601, message: "no".into() }) };
    let e = bad.unwrap().unwrap_err();
    assert_eq!(e.describe(), "RpcException(-32601): no");
    assert_eq!(DaemonError::Rpc(RpcException { code: 1, message: "m".into() }).message(), "RpcException(1): m");
    assert_eq!(DaemonError::Io("x".into()).message(), "x");
}

#[test]
fn timestamps() {
    assert_eq!(stamp(None), 0);
    assert_eq!(stamp(Some(1_700_000_000_000)), 1_700_000_000_000);
    assert!(now_millis() > 1_600_000_000_000);
}

#[test]
fn method_names_are_escaped_as_json_strings() {
    let r = RpcRequest { id: 1, method: "a\"b\\c\n\u{1}é".into(), params: None };
    assert_eq!(r.encode(), "{\"id\":1,\"jsonrpc\":\"2.0\",\"method\":\"a\\\"b\\\\c\\n\\u0001é\"}");
}
