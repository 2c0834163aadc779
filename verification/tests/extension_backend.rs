use vcu_server::browser::extension::{
    action_call, extract_call, extract_matches, screenshot_call, screenshot_png_from_reply, snapshot_call,
    snapshot_from_reply, window_id_from_reply, BridgeCall,
};
use vcu_server::browser::{minimal_png, ActionRequest, SnapshotMode, MINIMAL_PNG_BASE64};
use vcu_server::error::ErrorCode;
use vcu_server::tab_params::{JsonNumber, JsonValue};

fn s(x: &str) -> JsonValue {
    JsonValue::Str(x.to_string())
}

fn obj(fields: Vec<(&str, JsonValue)>) -> JsonValue {
    JsonValue::Object(fields.into_iter().map(|(k, v)| (k.to_string(), v)).collect())
}

fn action(kind: &str) -> ActionRequest {
    ActionRequest { kind: kind.into(), target_ref: None, text: None, url: None, dy: None, ms: None, key: None }
}

fn field<'a>(c: &'a BridgeCall, key: &str) -> &'a JsonValue {
    match &c.params {
        JsonValue::Object(f) => &f.iter().find(|(k, _)| k == key).unwrap().1,
        other => panic!("params are not an object: {other:?}"),
    }
}

fn keys(c: &BridgeCall) -> Vec<String> {
    match &c.params {
        JsonValue::Object(f) => f.iter().map(|(k, _)| k.clone()).collect(),
        _ => vec![],
    }
}

fn as_str(v: &JsonValue) -> &str {
    match v {
        JsonValue::Str(t) => t.as_str(),
        other => panic!("not a string: {other:?}"),
    }
}

#[test]
fn extension_click_and_type_calls() {
    let mut a = action("click");
    let err = action_call("7", &a).unwrap_err();
    assert_eq!(err.code, ErrorCode::InvalidInput);
    assert_eq!(err.message, "click requires target.ref");
    a.target_ref = Some("e3".into());
    let c = action_call("7", &a).unwrap();
    assert_eq!(c.method, "click");
    assert_eq!(keys(&c), vec!["tab_id", "ref"]);
    assert_eq!(as_str(field(&c, "tab_id")), "7");
    assert_eq!(as_str(field(&c, "ref")), "e3");

    let mut t = action("type");
    assert_eq!(action_call("7", &t).unwrap_err().message, "type requires args.text");
    t.text = Some("hello".into());
    let c = action_call("7", &t).unwrap();
    assert_eq!(c.method, "type");
    assert_eq!(keys(&c), vec!["tab_id", "text", "ref"]);
    assert_eq!(as_str(field(&c, "text")), "hello");
    assert!(matches!(field(&c, "ref"), JsonValue::Null));
}

#[test]
fn extension_scroll_wait_defaults_and_refusals() {
    let c = action_call("1", &action("scroll")).unwrap();
    assert!(matches!(field(&c, "dy"), JsonValue::Number(JsonNumber::PosInt(400))));
    let mut up = action("scroll");
    up.dy = Some(-120);
    let c = action_call("1", &up).unwrap();
    assert!(matches!(field(&c, "dy"), JsonValue::Number(JsonNumber::NegInt(-120))));
    let c = action_call("1", &action("wait")).unwrap();
    assert_eq!(c.method, "wait");
    assert!(matches!(field(&c, "ms"), JsonValue::Number(JsonNumber::PosInt(100))));

    let err = action_call("1", &action("os_click")).unwrap_err();
    assert_eq!(err.code, ErrorCode::OsCursorDenied);
    assert_eq!(err.message, "OS cursor actions are denied by browser session policy");
    let err = action_call("1", &action("drag")).unwrap_err();
    assert_eq!(err.code, ErrorCode::NotImplemented);
    assert_eq!(err.message, "extension action not implemented: drag");
    assert_eq!(action_call("1", &action("hover")).unwrap_err().message, "hover requires target.ref");
    assert_eq!(action_call("1", &action("keypress")).unwrap_err().message, "keypress requires args.key");
    assert_eq!(action_call("1", &action("navigate")).unwrap_err().message, "navigate requires args.url");
}

#[test]
fn extension_snapshot_call_and_reply() {
    let c = snapshot_call("9", SnapshotMode::Dom, 1500);
    assert_eq!(c.method, "snapshot");
    assert_eq!(keys(&c), vec!["tab_id", "mode", "budget"]);
    assert_eq!(as_str(field(&c, "mode")), "dom");
    assert!(matches!(field(&c, "budget"), JsonValue::Number(JsonNumber::PosInt(1500))));

    let reply = obj(vec![
        ("a11y_summary", s("page")),
        (
            "dom_refs",
            JsonValue::Array(vec![
                obj(vec![("ref", s("e1")), ("role", s("button")), ("name", s("Go")), ("selector", s("#go"))]),
                obj(vec![("role", s("link"))]),
                obj(vec![("ref", s("e2"))]),
                s("stray"),
            ]),
        ),
        ("truncated", JsonValue::Bool(true)),
        ("budget_tokens_est", JsonValue::Number(JsonNumber::PosInt(42))),
    ]);
    let snap = snapshot_from_reply(&reply);
    assert_eq!(snap.a11y_summary.as_deref(), Some("page"));
    assert_eq!(snap.text_excerpt, None);
    assert!(snap.truncated);
    assert_eq!(snap.budget_tokens_est, 42);
    assert!(snap.screenshot_png.is_none());
    assert_eq!(snap.dom_refs.len(), 2);
    assert_eq!(snap.dom_refs[0].ref_id, "e1");
    assert_eq!(snap.dom_refs[0].role, "button");
    assert_eq!(snap.dom_refs[0].selector.as_deref(), Some("#go"));
    assert_eq!(snap.dom_refs[1].ref_id, "e2");
    assert_eq!(snap.dom_refs[1].name, "");
    assert_eq!(snap.dom_refs[1].selector, None);

    let bare = snapshot_from_reply(&obj(vec![("budget_tokens_est", JsonValue::Number(JsonNumber::NegInt(-1)))]));
    assert!(!bare.truncated);
    assert_eq!(bare.budget_tokens_est, 0);
    assert!(bare.dom_refs.is_empty());
}

#[test]
fn extension_extract_screenshot_and_window() {
    let c = extract_call("3", "h1");
    assert_eq!(c.method, "extract");
    assert_eq!(as_str(field(&c, "selector")), "h1");
    let m = extract_matches(obj(vec![("ok", JsonValue::Bool(true)), ("matches", JsonValue::Array(vec![s("A"), s("B")]))]));
    assert_eq!(m.len(), 2);
    assert_eq!(as_str(&m[1]), "B");
    assert!(extract_matches(obj(vec![("matches", s("x"))])).is_empty());
    assert!(extract_matches(JsonValue::Null).is_empty());

    let c = screenshot_call("3", true);
    assert_eq!(c.method, "screenshot");
    assert!(matches!(field(&c, "full_page"), JsonValue::Bool(true)));
    let png = screenshot_png_from_reply(&obj(vec![("png_base64", s(MINIMAL_PNG_BASE64))]));
    assert_eq!(png, minimal_png());
    assert!(screenshot_png_from_reply(&obj(vec![("png_base64", s("%%"))])).is_empty());
    assert!(screenshot_png_from_reply(&JsonValue::Null).is_empty());

    assert_eq!(window_id_from_reply(&obj(vec![("window_id", s("w5"))])), "w5");
    assert_eq!(window_id_from_reply(&obj(vec![("window_id", JsonValue::Number(JsonNumber::PosInt(5)))])), "ext");
}
