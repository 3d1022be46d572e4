use bakeneko::calls::{carries_answer, socket_closed, PendingCalls};
use bakeneko::rpc::SOCKET_CLOSED;

#[test]
fn each_answer_reaches_its_call_once() {
    let mut calls = PendingCalls::new();
    let a = calls.register();
    let b = calls.register();
    assert_eq!((a, b), (1, 2));
    assert!(calls.deliver(Some(a)));
    assert!(!calls.deliver(Some(a)));
    assert!(!calls.deliver(None));
    assert!(!calls.deliver(Some(99)));
    assert_eq!(calls.ids, vec![2]);
}

#[test]
fn closing_fails_every_waiting_call() {
    let mut calls = PendingCalls::new();
    calls.register();
    calls.register();
    calls.take(1);
    let failed = calls.close();
    assert_eq!(failed, vec![2]);
    assert!(calls.ids.is_empty());
    let e = socket_closed();
    assert_eq!(e.code, SOCKET_CLOSED);
    assert_eq!(e.message, "socket cerrado");
}

#[test]
fn ids_wrap_around() {
    let mut calls = PendingCalls { next_id: u64::MAX, ids: Vec::new() };
    assert_eq!(calls.register(), u64::MAX);
    assert_eq!(calls.next_id, 0);
}

#[test]
fn blank_lines_carry_no_answer() {
    assert!(!carries_answer("  \t"));
    assert!(carries_answer("{\"id\":1}"));
}
