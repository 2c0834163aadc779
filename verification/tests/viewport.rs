use vcu_server::api::summarize_viewport_result;
use vcu_server::tab_params::{JsonNumber, JsonValue};

fn obj(fields: Vec<(&str, JsonValue)>) -> JsonValue {
    JsonValue::Object(fields.into_iter().map(|(k, v)| (k.to_string(), v)).collect())
}

fn field<'a>(v: &'a JsonValue, key: &str) -> Option<&'a JsonValue> {
    match v {
        JsonValue::Object(f) => f.iter().find(|(k, _)| k == key).map(|(_, v)| v),
        _ => None,
    }
}

fn pointer<'a>(v: &'a JsonValue, path: &[&str]) -> Option<&'a JsonValue> {
    path.iter().try_fold(v, |cur, key| field(cur, key))
}

fn internal_capture() -> JsonValue {
    obj(vec![(
        "viewport",
        obj(vec![(
            "layout_signature",
            obj(vec![
                ("visible_count", JsonValue::Number(JsonNumber::PosInt(400))),
                ("overflow", JsonValue::Bool(false)),
                (
                    "nodes",
                    JsonValue::Array(vec![obj(vec![
                        ("id", JsonValue::Str("i1".into())),
                        ("left", JsonValue::Number(JsonNumber::PosInt(20))),
                    ])]),
                ),
            ]),
        )]),
    )])
}

#[test]
fn model_receives_summary_while_internal_capture_keeps_geometry_binding() {
    let internal = internal_capture();
    let public = summarize_viewport_result(internal_capture());
    assert!(pointer(&public, &["viewport", "layout_signature", "nodes"]).is_none());
    assert!(matches!(
        pointer(&public, &["viewport", "layout_signature", "visible_count"]),
        Some(JsonValue::Number(JsonNumber::PosInt(400)))
    ));
    assert!(pointer(&internal, &["viewport", "layout_signature", "nodes"]).is_some());
}

#[test]
fn viewport_summary_leaves_other_shapes_alone() {
    let r = summarize_viewport_result(obj(vec![("viewport", JsonValue::Str("x".into())), ("ok", JsonValue::Bool(true))]));
    assert!(matches!(field(&r, "viewport"), Some(JsonValue::Str(s)) if s == "x"));
    assert!(matches!(field(&r, "ok"), Some(JsonValue::Bool(true))));
    let r = summarize_viewport_result(obj(vec![
        ("a", JsonValue::Null),
        ("viewport", obj(vec![("layout_signature", obj(vec![("nodes", JsonValue::Null), ("z", JsonValue::Null)]))])),
    ]));
    match pointer(&r, &["viewport", "layout_signature"]) {
        Some(JsonValue::Object(f)) => assert_eq!(f.iter().map(|(k, _)| k.as_str()).collect::<Vec<_>>(), vec!["z"]),
        other => panic!("unexpected {other:?}"),
    }
    assert!(matches!(summarize_viewport_result(JsonValue::Null), JsonValue::Null));
}
