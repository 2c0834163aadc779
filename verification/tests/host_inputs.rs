use vcu_server::api::login_type_target;
use vcu_server::app::capture::{feishu_latest_allowed, login_latest_allowed, login_sidecar_with_page_url};
use vcu_server::app::macos::{ax_scroll_outcome, ax_scroll_script};
use vcu_server::desktop::desktop_action_from;
use vcu_server::error::ErrorCode;
use vcu_server::tab_params::{JsonNumber, JsonValue};
use vcu_server::vision::{vision_endpoint, vision_image_url, vision_request};

fn obj(fields: Vec<(&str, JsonValue)>) -> JsonValue {
    JsonValue::Object(fields.into_iter().map(|(k, v)| (k.to_string(), v)).collect())
}

fn field<'a>(v: &'a JsonValue, key: &str) -> &'a JsonValue {
    match v {
        JsonValue::Object(f) => &f.iter().find(|(k, _)| k == key).unwrap().1,
        other => panic!("not an object: {other:?}"),
    }
}

fn text(v: &JsonValue) -> &str {
    match v {
        JsonValue::Str(s) => s.as_str(),
        other => panic!("not a string: {other:?}"),
    }
}

#[test]
fn vision_request_carries_model_prompt_and_png() {
    assert_eq!(vision_image_url(&[0x89, 0x50, 0x4e, 0x47]), "data:image/png;base64,iVBORw==");
    assert_eq!(vision_endpoint("https://api.example/v1//"), "https://api.example/v1/chat/completions");
    assert_eq!(vision_endpoint("http://h"), "http://h/chat/completions");
    let req = vision_request("https://api.example/v1/", "m1", &[1, 2, 3], "describe");
    assert_eq!(req.url, "https://api.example/v1/chat/completions");
    assert_eq!(text(field(&req.body, "model")), "m1");
    assert!(matches!(field(&req.body, "max_tokens"), JsonValue::Number(JsonNumber::PosInt(400))));
    let msgs = match field(&req.body, "messages") {
        JsonValue::Array(a) => a,
        other => panic!("{other:?}"),
    };
    assert_eq!(msgs.len(), 1);
    assert_eq!(text(field(&msgs[0], "role")), "user");
    let parts = match field(&msgs[0], "content") {
        JsonValue::Array(a) => a,
        other => panic!("{other:?}"),
    };
    assert_eq!(text(field(&parts[0], "type")), "text");
    assert_eq!(text(field(&parts[0], "text")), "describe");
    assert_eq!(text(field(&parts[1], "type")), "image_url");
    assert_eq!(text(field(field(&parts[1], "image_url"), "url")), "data:image/png;base64,AQID");
}

#[test]
fn login_sidecar_takes_only_web_addresses() {
    let side = br#"{"app_id":"proc:Microsoft_Edge:10","screenshot_scale":2.0,"page_url":null}"#;
    let out = login_sidecar_with_page_url(side, "  https://example.com/a \n").unwrap();
    let v: serde_json::Value = serde_json::from_slice(&out).unwrap();
    assert_eq!(v["page_url"], "https://example.com/a");
    assert_eq!(v["app_id"], "proc:Microsoft_Edge:10");
    assert_eq!(v["screenshot_scale"], 2.0);
    assert!(String::from_utf8(out).unwrap().contains("\n  "));
    let added = login_sidecar_with_page_url(br#"{"a":1}"#, "http://x").unwrap();
    let v: serde_json::Value = serde_json::from_slice(&added).unwrap();
    assert_eq!(v["page_url"], "http://x");
    assert_eq!(v["a"], 1);
    let from_null = login_sidecar_with_page_url(b"null", "http://x").unwrap();
    let v: serde_json::Value = serde_json::from_slice(&from_null).unwrap();
    assert_eq!(v["page_url"], "http://x");
    assert!(login_sidecar_with_page_url(side, "edge://settings").is_none());
    assert!(login_sidecar_with_page_url(b"not json", "https://x").is_none());
    assert!(login_sidecar_with_page_url(b"[1]", "https://x").is_none());
}

#[test]
fn latest_captures_are_gated_by_app() {
    assert!(login_latest_allowed("proc:Microsoft_Edge:10"));
    assert!(login_latest_allowed("proc:Google_CHROME:3"));
    assert!(!login_latest_allowed("proc:Feishu:4"));
    assert!(feishu_latest_allowed("proc:Feishu:4"));
    assert!(feishu_latest_allowed("proc:LARK:4"));
    assert!(feishu_latest_allowed("proc:飞书:4"));
    assert!(!feishu_latest_allowed("proc:TextEdit:1"));
}

#[test]
fn scroll_script_prefers_page_area() {
    let down = ax_scroll_script("Microsoft Edge", 600);
    assert!(down.contains("tell process \"Microsoft Edge\""));
    let web = down.find("AXWebArea").unwrap();
    let sa = down.find("first scroll area of window 1").unwrap();
    assert!(web < sa);
    assert!(down.contains("perform action \"AXScrollDownByPage\""));
    assert!(down.contains("(cur + 0.15)"));
    let up = ax_scroll_script("Google Chrome", -1);
    assert!(up.contains("AXScrollUpByPage"));
    assert!(up.contains("(cur + -0.15)"));
    assert!(ax_scroll_outcome("ok-webarea").is_ok());
    let e = ax_scroll_outcome("error:no window").unwrap_err();
    assert_eq!((e.code, e.message.as_str(), e.detail.as_deref()), (ErrorCode::ActionFailed, "ax scroll failed", Some("error:no window")));
}

#[test]
fn desktop_action_reads_target_and_args() {
    let target = obj(vec![("ref", JsonValue::Str("e1".into())), ("pixel_y", JsonValue::Number(JsonNumber::PosInt(4)))]);
    let args = obj(vec![
        ("ref", JsonValue::Str("e2".into())),
        ("pixel_x", JsonValue::Number(JsonNumber::Float)),
        ("name", JsonValue::Str("return".into())),
        ("dy", JsonValue::Number(JsonNumber::NegInt(-300))),
        ("confirm_send", JsonValue::Bool(true)),
        ("path", JsonValue::Str("/tmp".into())),
    ]);
    let a = desktop_action_from("key", &target, &args);
    assert_eq!(a.kind, "key");
    assert_eq!(a.target_ref.as_deref(), Some("e1"));
    assert_eq!(a.arg_ref.as_deref(), Some("e2"));
    assert!(a.has_pixel_x && a.has_pixel_y);
    assert_eq!(a.key.as_deref(), Some("return"));
    assert_eq!(a.dy, Some(-300));
    assert_eq!(a.confirm_send, Some(true));
    assert_eq!(a.path.as_deref(), Some("/tmp"));
    let odd = obj(vec![("key", JsonValue::Number(JsonNumber::PosInt(1))), ("name", JsonValue::Str("tab".into()))]);
    let b = desktop_action_from("key", &JsonValue::Null, &odd);
    assert_eq!(b.key, None);
    assert!(!b.has_pixel_x);
}

#[test]
fn login_type_needs_an_address_field() {
    let e = login_type_target(None, None).unwrap_err();
    assert_eq!((e.code, e.message.as_str()), (ErrorCode::InvalidInput, "no address/search field for login-state type"));
    let t = login_type_target(Some(("Address and search bar".into(), "https://a".into())), None).unwrap();
    assert_eq!((t.ref_id.as_str(), t.field_name.as_str(), t.field_value.as_str()), ("address-bar", "Address and search bar", "https://a"));
    let t = login_type_target(Some(("x".into(), "".into())), Some("omnibox")).unwrap();
    assert_eq!(t.ref_id, "omnibox");
}
