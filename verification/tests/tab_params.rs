use vcu_server::error::ErrorCode;
use vcu_server::tab_params::{
    json_group_id, json_param_tab_id, json_param_tab_ids, json_tab_id_value, strip_browser_param,
    validate_tab_management, JsonNumber, JsonValue,
};

fn s(v: &str) -> JsonValue {
    JsonValue::Str(v.to_string())
}

fn obj(fields: Vec<(&str, JsonValue)>) -> JsonValue {
    JsonValue::Object(fields.into_iter().map(|(k, v)| (k.to_string(), v)).collect())
}

fn msg(method: &str, params: &JsonValue) -> Option<String> {
    validate_tab_management(method, params).err().map(|e| {
        assert_eq!(e.code(), ErrorCode::InvalidInput);
        e.message().to_string()
    })
}

#[test]
fn tab_params_need_an_object_and_ids() {
    assert_eq!(msg("select_tab", &JsonValue::Null).as_deref(), Some("expected an object"));
    assert_eq!(msg("select_tab", &obj(vec![])).as_deref(), Some("tab_id must be a nonnegative integer string"));
    assert_eq!(msg("close_tab", &obj(vec![("tab_id", s("-3"))])).as_deref(), Some("tab_id must be a nonnegative integer string"));
    assert_eq!(msg("close_tab", &obj(vec![("tab_id", s("+12"))])), None);
    assert_eq!(msg("close_tab", &obj(vec![("tab_id", s("4294967296"))])).as_deref(), Some("tab_id must be a nonnegative integer string"));
    assert_eq!(msg("close_tab", &obj(vec![("tab_id", JsonValue::Number(JsonNumber::PosInt(5)))])).as_deref(), Some("tab_id must be a nonnegative integer string"));
    assert_eq!(msg("update_group", &obj(vec![("group_id", s("7"))])), None);
    assert_eq!(msg("update_group", &obj(vec![("group_id", s(" "))])).as_deref(), Some("group_id must be a nonnegative integer string"));
}

#[test]
fn tab_params_group_rules() {
    let ids = |v: Vec<JsonValue>| JsonValue::Array(v);
    assert_eq!(msg("group_tabs", &obj(vec![("tab_ids", ids(vec![]))])).as_deref(), Some("tab_ids must be a nonempty array of ID strings"));
    assert_eq!(msg("ungroup_tabs", &obj(vec![("tab_ids", ids(vec![s("1"), s("x")]))])).as_deref(), Some("tab_ids must be a nonempty array of ID strings"));
    assert_eq!(msg("ungroup_tabs", &obj(vec![("tab_ids", ids(vec![s("1"), s("2")]))])), None);
    assert_eq!(msg("group_tabs", &obj(vec![("tab_ids", ids(vec![s("1")]))])).as_deref(), Some("title must be nonempty"));
    assert_eq!(msg("group_tabs", &obj(vec![("tab_ids", ids(vec![s("1")])), ("title", s("Work")), ("color", s("teal"))])).as_deref(), Some("unsupported tab group color"));
    assert_eq!(msg("group_tabs", &obj(vec![("tab_ids", ids(vec![s("1")])), ("title", s("Work")), ("color", s("cyan"))])), None);
    assert_eq!(msg("update_group", &obj(vec![("group_id", s("2")), ("session_name", s("  "))])).as_deref(), Some("group title must be nonempty"));
    assert_eq!(msg("update_group", &obj(vec![("group_id", s("2")), ("collapsed", s("yes"))])).as_deref(), Some("collapsed and active must be booleans"));
    assert_eq!(msg("update_group", &obj(vec![("group_id", s("2")), ("collapsed", JsonValue::Bool(true))])), None);
}

#[test]
fn tab_params_open_tab_rules() {
    assert_eq!(msg("open_tab", &obj(vec![])).as_deref(), Some("http(s) url required"));
    assert_eq!(msg("open_tab", &obj(vec![("url", s("file:///etc/passwd"))])).as_deref(), Some("http(s) url required"));
    assert_eq!(msg("open_tab", &obj(vec![("url", s("https://a.test"))])), None);
    assert_eq!(
        msg("open_tab", &obj(vec![("url", s("https://a.test")), ("session_name", s("x")), ("group_id", s("1"))])).as_deref(),
        Some("session_name and group_id are mutually exclusive")
    );
    assert_eq!(
        msg("open_tab", &obj(vec![("url", s("https://a.test")), ("new_window", JsonValue::Bool(true)), ("group_id", s("1"))])).as_deref(),
        Some("new_window and group_id are mutually exclusive")
    );
    assert_eq!(msg("open_tab", &obj(vec![("url", s("http://a.test")), ("group_id", s("g"))])).as_deref(), Some("invalid group_id"));
}

#[test]
fn tab_ids_read_from_strings_and_integers() {
    let p = obj(vec![("tab_id", s("  42 ")), ("browser", s("edge"))]);
    assert_eq!(json_param_tab_id(&p).as_deref(), Some("42"));
    assert_eq!(json_param_tab_id(&obj(vec![("tab_id", JsonValue::Number(JsonNumber::NegInt(-7)))])).as_deref(), Some("-7"));
    assert_eq!(
        json_param_tab_id(&obj(vec![("tab_id", JsonValue::Number(JsonNumber::NegInt(i64::MIN)))])).as_deref(),
        Some("-9223372036854775808")
    );
    assert_eq!(json_param_tab_id(&obj(vec![("tab_id", JsonValue::Number(JsonNumber::Float))])), None);
    assert_eq!(json_param_tab_id(&obj(vec![("tab_id", s("   "))])), None);
    assert_eq!(json_tab_id_value(&obj(vec![("tab_id", s(" 9 "))])).as_deref(), Some(" 9 "));
    assert_eq!(json_group_id(&obj(vec![("group_id", JsonValue::Number(JsonNumber::PosInt(u64::MAX)))])).as_deref(), Some("18446744073709551615"));
    let list = obj(vec![(
        "tab_ids",
        JsonValue::Array(vec![s(" 1"), JsonValue::Bool(true), JsonValue::Number(JsonNumber::PosInt(2)), s("")]),
    )]);
    assert_eq!(json_param_tab_ids(&list), vec!["1".to_string(), "2".to_string()]);
    assert!(json_param_tab_ids(&obj(vec![])).is_empty());
    match strip_browser_param(p) {
        JsonValue::Object(fields) => {
            assert_eq!(fields.len(), 1);
            assert_eq!(fields[0].0, "tab_id");
        }
        _ => panic!("an object stays an object"),
    }
}
