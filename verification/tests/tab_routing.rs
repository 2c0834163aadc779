use vcu_server::api::{find_extension_group, group_kind, open_kind, tab_command_kind, tab_ids_kind, LensTab};
use vcu_server::error::ErrorCode;
use vcu_server::tab_params::{JsonNumber, JsonValue};

fn tab(id: &str, browser: Option<&str>) -> LensTab {
    LensTab {
        tab_id: Some(id.into()),
        browser: browser.map(|b| b.to_string()),
        url: None,
        title: None,
        active: false,
        focused: false,
    }
}

fn group(id: JsonValue, browser: &str) -> JsonValue {
    JsonValue::Object(vec![("group_id".into(), id), ("browser".into(), JsonValue::Str(browser.into()))])
}

fn listing(groups: Vec<JsonValue>) -> JsonValue {
    JsonValue::Object(vec![("groups".into(), JsonValue::Array(groups))])
}

#[test]
fn tab_command_routes_to_the_tabs_browser() {
    let tabs = vec![tab("1", Some("chrome")), tab("2", Some("edge")), tab("2", Some("chrome")), tab("3", None)];
    assert_eq!(tab_command_kind(&tabs, "1", None).unwrap(), Some("chrome"));
    assert_eq!(tab_command_kind(&tabs, "3", Some("edge")).unwrap_err().message, "tab not found");
    assert_eq!(tab_command_kind(&tabs, "3", None).unwrap(), None);
    let err = tab_command_kind(&tabs, "2", None).unwrap_err();
    assert_eq!(err.code, ErrorCode::InvalidInput);
    assert_eq!(tab_command_kind(&tabs, "2", Some("edge")).unwrap(), Some("edge"));
    assert_eq!(tab_command_kind(&tabs, "9", None).unwrap_err().code, ErrorCode::ActionFailed);
}

#[test]
fn tab_ids_must_share_one_browser() {
    let tabs = vec![tab("1", Some("chrome")), tab("2", Some("edge")), tab("4", Some("chrome")), tab("5", Some("edge")), tab("5", Some("chrome"))];
    let ids = |v: &[&str]| v.iter().map(|s| s.to_string()).collect::<Vec<_>>();
    assert_eq!(tab_ids_kind(&tabs, &ids(&["1", "4"]), None).unwrap(), Some("chrome"));
    assert_eq!(tab_ids_kind(&tabs, &ids(&["9"]), Some("edge")).unwrap(), Some("edge"));
    assert_eq!(tab_ids_kind(&tabs, &[], None).unwrap(), None);
    let err = tab_ids_kind(&tabs, &ids(&["1", "2"]), None).unwrap_err();
    assert_eq!(err.code, ErrorCode::InvalidInput);
    assert_eq!(err.message, "tab_ids span Chrome and Edge; pass one --browser");
    let err = tab_ids_kind(&tabs, &ids(&["1", "5"]), None).unwrap_err();
    assert_eq!(err.message, "tab_id is ambiguous across Chrome/Edge; pass --browser");
    assert_eq!(tab_ids_kind(&tabs, &ids(&["1", "9", "5"]), Some("chrome")).unwrap(), Some("chrome"));
}

#[test]
fn open_tab_follows_last_observe() {
    assert_eq!(open_kind(Some("edge"), Some("proc:Google_Chrome:7")), Some("edge"));
    assert_eq!(open_kind(None, Some("proc:Google_Chrome:7")), Some("chrome"));
    assert_eq!(open_kind(None, Some("proc:WeChat:7")), None);
    assert_eq!(open_kind(None, None), None);
}

#[test]
fn groups_resolve_by_id_and_browser() {
    let listed = listing(vec![
        group(JsonValue::Str(" 10 ".into()), "chrome"),
        group(JsonValue::Number(JsonNumber::PosInt(11)), "edge"),
        group(JsonValue::Str("11".into()), "chrome"),
    ]);
    assert_eq!(find_extension_group(&listed, "10", None).unwrap(), 0);
    assert_eq!(find_extension_group(&listed, "11", Some("chrome")).unwrap(), 2);
    let err = find_extension_group(&listed, "11", None).unwrap_err();
    assert_eq!(err.code, ErrorCode::InvalidInput);
    assert_eq!(err.message, "group_id is ambiguous across Chrome/Edge; pass --browser");
    let err = find_extension_group(&listed, "12", None).unwrap_err();
    assert_eq!((err.code, err.message.as_str()), (ErrorCode::ActionFailed, "group not found"));

    assert_eq!(group_kind(&listed, "10", None, None).unwrap(), Some("chrome"));
    assert!(group_kind(&listed, "11", None, None).is_err());
    assert_eq!(group_kind(&listed, "12", Some("edge"), None).unwrap(), Some("edge"));
    assert_eq!(group_kind(&listed, "12", None, Some("proc:Microsoft_Edge:3")).unwrap(), Some("edge"));
    assert_eq!(group_kind(&JsonValue::Null, "12", None, None).unwrap(), None);
}
