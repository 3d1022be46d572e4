use bakeneko::solver::{
    fetch_path, fetch_script, ipc_response, js_escape, pong_response, request_id, solver_data_dir,
    solver_socket_path, timeout_response, SOLVER_BASE_URL,
};

#[test]
fn fetch_paths_are_relative_to_the_site() {
    assert_eq!(fetch_path("https://mangadot.net/api/x", SOLVER_BASE_URL), "/api/x");
    assert_eq!(fetch_path("https://mangadot.net", SOLVER_BASE_URL), "/");
    assert_eq!(fetch_path("https://other.net/a", SOLVER_BASE_URL), "https://other.net/a");
}

#[test]
fn script_strings_are_escaped() {
    assert_eq!(js_escape("a'b\\c"), "a\\'b\\\\c");
    let s = fetch_script("/p'", "id");
    assert!(s.contains("fetch('/p\\'')"));
    assert!(s.contains("id: 'id'"));
    assert_eq!(request_id(""), "default");
    assert_eq!(request_id("7"), "7");
}

#[test]
fn answers_from_the_page() {
    let ok = ipc_response("1".into(), 200, Some(serde_json::from_str::<serde_json::Value>("{\"a\":1}").unwrap()), String::new());
    assert_eq!(ok.result.as_deref(), Some("{\"a\":1}"));
    let refused = ipc_response("1".into(), 403, Some(serde_json::Value::Null), "denied".into());
    assert_eq!(refused.error.as_deref(), Some("denied"));
    assert!(refused.result.is_none());
    let bare = ipc_response("1".into(), 503, Some(serde_json::Value::Null), String::new());
    assert_eq!(bare.result.as_deref(), Some("null"));
    assert_eq!(pong_response("p".into()).pong, Some(true));
    assert_eq!(timeout_response().error.as_deref(), Some("TIMEOUT"));
}

#[test]
fn solver_paths() {
    assert_eq!(solver_data_dir(Some("/d"), Some("/h")), "/d/bakeneko");
    assert_eq!(solver_data_dir(None, Some("/h")), "/h/.local/share/bakeneko");
    assert_eq!(solver_data_dir(None, None), "./.local/share/bakeneko");
    assert_eq!(solver_socket_path(Some("/run/user/5"), 5), "/run/user/5/bakeneko/solver.sock");
    assert_eq!(solver_socket_path(None, 1000), "/tmp/bakeneko-1000/bakeneko/solver.sock");
}
