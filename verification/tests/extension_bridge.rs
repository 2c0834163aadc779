use vcu_server::browser::extension::{call_result, CallEnd, ExtensionBridge};
use vcu_server::error::ErrorCode;

#[test]
fn bridge_refuses_calls_until_paired() {
    let mut b = ExtensionBridge::new();
    assert!(!b.is_connected(1_000));
    let err = b.enqueue(1_000, "c1", "ping", "{}").unwrap_err();
    assert_eq!(err.code(), ErrorCode::ExtensionDisconnected);
    assert_eq!(err.message(), "no browser extension is paired with this daemon");
    assert_eq!(b.pending_len(), 0);
    b.mark_hello(1_000, false);
    assert!(b.is_connected(1_000));
    assert!(b.is_connected(120_999));
    assert!(!b.is_connected(121_000));
    assert!(b.enqueue(1_000, "c1", "ping", "{}").is_ok());
    assert_eq!((b.pending_len(), b.waiter_len()), (1, 1));
}

#[test]
fn bridge_polls_in_order_and_leases() {
    let mut b = ExtensionBridge::with_lease_ms(0);
    b.mark_hello(10, true);
    assert!(b.likely_user_profile());
    b.enqueue(10, "a", "snapshot", "{\"tab_id\":\"t\"}").unwrap();
    b.enqueue(10, "b", "click", "{}").unwrap();
    assert_eq!(b.last_poll_age_ms(20), None);
    let first = b.poll_once(20).unwrap();
    assert_eq!((first.id.as_str(), first.method.as_str()), ("a", "snapshot"));
    assert_eq!(first.params, "{\"tab_id\":\"t\"}");
    assert_eq!(b.last_poll_age_ms(25), Some(5));
    assert!(b.is_polling(20 + 14_999));
    assert!(!b.is_polling(20 + 15_000));
    // The lease (1 ms at least) on the snapshot has run out at 21: reads replay.
    let again = b.poll_once(21).unwrap();
    assert_eq!(again.id, "a");
    let second = b.poll_once(21).unwrap();
    assert_eq!(second.id, "b");
    // The click is never handed out twice.
    let third = b.poll_once(100_000).unwrap();
    assert_eq!(third.id, "a");
    assert!(b.poll_once(100_000).map(|c| c.id) != Some("b".to_string()));
}

#[test]
fn bridge_result_answers_waiter_and_clears() {
    let mut b = ExtensionBridge::new();
    b.mark_hello(0, false);
    b.enqueue(0, "x", "click", "{}").unwrap();
    b.poll_once(1).unwrap();
    assert!(b.submit_result("x", false));
    assert_eq!((b.pending_len(), b.waiter_len()), (0, 0));
    assert!(!b.submit_result("x", false));
}

#[test]
fn bridge_retryable_result_requeues_eight_times() {
    let mut b = ExtensionBridge::new();
    b.mark_hello(0, false);
    b.enqueue(0, "r", "type", "{}").unwrap();
    for round in 0..8 {
        let c = b.poll_once(round).unwrap();
        assert_eq!(c.id, "r");
        assert!(!b.submit_result("r", true));
        assert_eq!(b.pending_len(), 1);
    }
    b.poll_once(9).unwrap();
    assert!(b.submit_result("r", true));
    assert_eq!((b.pending_len(), b.waiter_len()), (0, 0));
}

#[test]
fn bridge_expire_drops_call() {
    let mut b = ExtensionBridge::new();
    b.mark_hello(0, false);
    b.enqueue(0, "k", "navigate", "{}").unwrap();
    b.enqueue(0, "m", "ping", "{}").unwrap();
    b.expire("k");
    assert_eq!((b.pending_len(), b.waiter_len()), (1, 1));
    assert_eq!(b.poll_once(1).unwrap().id, "m");
}

#[test]
fn call_result_by_ending() {
    assert_eq!(call_result("ping", CallEnd::Replied { ok: true, body: "{\"ok\":true}".into() }).unwrap(), "{\"ok\":true}");
    let e = call_result("click", CallEnd::Replied { ok: false, body: "{\"ok\":false}".into() }).unwrap_err();
    assert_eq!((e.code(), e.message()), (ErrorCode::ActionFailed, "click"));
    assert_eq!(e.detail.as_deref(), Some("{\"ok\":false}"));
    let e = call_result("click", CallEnd::Dropped).unwrap_err();
    assert_eq!((e.code(), e.message()), (ErrorCode::ExtensionDisconnected, "extension dropped command"));
    let e = call_result("click", CallEnd::TimedOut).unwrap_err();
    assert_eq!((e.code(), e.message()), (ErrorCode::ActionFailed, "extension command timeout"));
}
