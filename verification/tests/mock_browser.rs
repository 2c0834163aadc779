use vcu_server::browser::mock::MockBackend;
use vcu_server::browser::{ActionDetail, ActionRequest, SnapshotMode};
use vcu_server::error::ErrorCode;

fn backend() -> MockBackend {
    MockBackend::new("w-agent", "t-agent", "w-user", "t-user")
}

fn action(kind: &str) -> ActionRequest {
    ActionRequest { kind: kind.into(), target_ref: None, text: None, url: None, dy: None, ms: None, key: None }
}

#[test]
fn navigate_and_snapshot_example() {
    let mut b = backend();
    let tab = b.agent_tab_id().unwrap();
    b.navigate(&tab, "https://example.com/").unwrap();
    let snap = b.snapshot(&tab, SnapshotMode::Full, 5000).unwrap();
    assert!(snap.a11y_summary.unwrap().contains("Example Domain"));
    assert!(snap.dom_refs.iter().any(|r| r.ref_id == "e3"));
}

#[test]
fn os_cursor_denied() {
    let mut b = backend();
    let tab = b.agent_tab_id().unwrap();
    let err = b.act(&tab, &action("os_cursor_move")).unwrap_err();
    assert_eq!(err.code(), ErrorCode::OsCursorDenied);
    let err = b.act(&tab, &action("os_click")).unwrap_err();
    assert_eq!(err.code(), ErrorCode::OsCursorDenied);
}

#[test]
fn mock_tabs_listed_in_id_order() {
    let b = MockBackend::new("w1", "z-agent", "w2", "a-user");
    let tabs = b.list_tabs().unwrap();
    assert_eq!(tabs.len(), 2);
    assert_eq!(tabs[0].tab_id, "a-user");
    assert_eq!(tabs[0].title, "User Mail");
    assert!(!tabs[0].agent_owned);
    assert_eq!(tabs[1].tab_id, "z-agent");
    assert_eq!(tabs[1].url, "about:blank");
    assert_eq!(b.agent_tab_id().unwrap(), "z-agent");
}

#[test]
fn mock_same_tab_id_keeps_the_user_tab() {
    let b = MockBackend::new("w1", "t", "w2", "t");
    let tabs = b.list_tabs().unwrap();
    assert_eq!(tabs.len(), 1);
    assert_eq!(tabs[0].title, "User Mail");
    assert_eq!(b.agent_tab_id().unwrap_err().code(), ErrorCode::Internal);
}

#[test]
fn mock_snapshot_exact_budget_cut() {
    let mut b = backend();
    b.navigate("t-agent", "https://example.com/").unwrap();
    let full = b.snapshot("t-agent", SnapshotMode::Full, 0).unwrap();
    assert!(!full.truncated);
    assert_eq!(full.budget_tokens_est, 56);
    assert_eq!(
        full.a11y_summary.as_deref(),
        Some("document title=\"Example Domain\" url=\"https://example.com/\" nodes=4")
    );
    assert_eq!(full.dom_refs.len(), 4);
    assert_eq!(full.dom_refs[3].selector.as_deref(), Some("input#e4"));
    assert_eq!(full.dom_refs[3].value, None);
    let cut = b.snapshot("t-agent", SnapshotMode::Full, 3).unwrap();
    assert!(cut.truncated);
    assert_eq!(cut.budget_tokens_est, 3);
    assert_eq!(cut.text_excerpt.as_deref(), Some("Example Doma"));
    assert_eq!(cut.dom_refs.len(), 1);
    let text_only = b.snapshot("t-agent", SnapshotMode::Text, 5000).unwrap();
    assert!(text_only.dom_refs.is_empty());
    assert!(text_only.a11y_summary.is_none());
    assert_eq!(text_only.screenshot_png.as_ref().map(|p| p.len() > 8), Some(true));
}

#[test]
fn mock_typed_value_shows_in_snapshot_and_extract() {
    let mut b = backend();
    b.navigate("t-agent", "https://x.test/form").unwrap();
    let mut typing = action("type");
    typing.text = Some("me@example.com".into());
    typing.target_ref = Some("e1".into());
    let done = b.act("t-agent", &typing).unwrap();
    assert!(matches!(done.detail, ActionDetail::Typed { ref into, .. } if into.as_deref() == Some("e1")));
    let snap = b.snapshot("t-agent", SnapshotMode::Dom, 0).unwrap();
    assert_eq!(snap.dom_refs[0].value.as_deref(), Some("me@example.com"));
    let hits = b.extract("t-agent", "#e1").unwrap();
    assert_eq!(hits.len(), 1);
    assert_eq!(hits[0].value, "me@example.com");
    let buttons = b.extract("t-agent", "button").unwrap();
    assert_eq!(buttons.len(), 1);
    assert_eq!(buttons[0].name, "Submit");
    assert_eq!(b.extract("t-agent", "*").unwrap().len(), 2);
}

#[test]
fn mock_errors_by_kind() {
    let mut b = backend();
    assert_eq!(b.navigate("nope", "https://example.com").unwrap_err().message(), "tab nope");
    let err = b.click("t-agent", "e9").unwrap_err();
    assert_eq!(err.code(), ErrorCode::InvalidInput);
    assert_eq!(err.message(), "unknown ref e9");
    assert_eq!(b.act("t-agent", &action("click")).unwrap_err().message(), "click requires target.ref");
    assert_eq!(b.act("t-agent", &action("type")).unwrap_err().message(), "type requires args.text");
    assert_eq!(b.act("t-agent", &action("navigate")).unwrap_err().message(), "navigate requires args.url");
    let err = b.act("t-agent", &action("drag")).unwrap_err();
    assert_eq!(err.code(), ErrorCode::NotImplemented);
    assert_eq!(err.message(), "action not implemented in mock: drag");
    assert_eq!(b.screenshot("nope", false).unwrap_err().code(), ErrorCode::TabNotFound);
}

#[test]
fn mock_scroll_wait_and_blank_pages() {
    let mut b = backend();
    let done = b.act("t-agent", &action("scroll")).unwrap();
    assert!(matches!(done.detail, ActionDetail::Scrolled { dy: 400 }));
    let mut wait = action("wait");
    wait.ms = Some(9000);
    let done = b.act("t-agent", &wait).unwrap();
    assert!(matches!(done.detail, ActionDetail::Waited { ms: 9000, sleep_ms: 5000 }));
    b.navigate("t-user", "https://other.test/").unwrap();
    let snap = b.snapshot("t-user", SnapshotMode::Full, 0).unwrap();
    assert_eq!(snap.text_excerpt.as_deref(), Some("Loaded https://other.test/"));
    assert_eq!(snap.dom_refs[0].role, "document");
    let shot = b.screenshot("t-user", true).unwrap();
    assert_eq!((shot.width, shot.height), (1, 1));
}
