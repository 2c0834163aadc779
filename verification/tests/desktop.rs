use vcu_server::browser::{
    http_base_to_browser_ws, is_desktop_window_role, normalize_desktop_key, plan_desktop_key, scene_wait_match,
    DesktopKeyPlan, SceneRef,
};
use vcu_server::desktop::{
    check_actuator_cursor, desktop_click_gate, feishu_like, finish_desktop_step, plan_desktop_action,
    scene_extract_matches, settings_like, AdapterReport, DesktopAction, DesktopStep,
};
use vcu_server::error::ErrorCode;
use vcu_server::login_state::TabInfo;

fn scene(r: &str, role: &str, name: &str, value: Option<&str>) -> SceneRef {
    SceneRef {
        ref_id: r.into(),
        role: role.into(),
        name: name.into(),
        value: value.map(|s| s.to_string()),
    }
}

fn action(kind: &str) -> DesktopAction {
    DesktopAction {
        kind: kind.into(),
        target_ref: None,
        arg_ref: None,
        has_pixel_x: false,
        has_pixel_y: false,
        space: None,
        text: None,
        dy: None,
        key: None,
        confirm_send: None,
        path: None,
    }
}

#[test]
fn desktop_key_policy_gates_return_and_escape() {
    assert_eq!(plan_desktop_key("return", false, true).unwrap_err().code(), ErrorCode::FocusPolicyViolation);
    assert_eq!(plan_desktop_key("enter", true, false).unwrap_err().code(), ErrorCode::FocusPolicyViolation);
    assert_eq!(plan_desktop_key("escape", false, false).unwrap_err().code(), ErrorCode::FocusPolicyViolation);
    assert_eq!(plan_desktop_key("tab", false, true).unwrap_err().code(), ErrorCode::NotImplemented);
    assert!(plan_desktop_key("return", true, true).is_ok());
    assert!(plan_desktop_key("space", false, true).is_ok());
}

#[test]
fn scene_wait_match_filters_ref_name_role() {
    let refs = vec![scene("e1", "button", "OK", None)];
    assert_eq!(scene_wait_match(&refs, Some("e1"), None, None, None).as_deref(), Some("e1"));
    assert_eq!(scene_wait_match(&refs, None, Some("ok"), Some("button"), None).as_deref(), Some("e1"));
    assert!(scene_wait_match(&refs, Some("e9"), None, None, None).is_none());
    assert!(scene_wait_match(&refs, None, Some("Send"), None, None).is_none());
    let with_val = vec![scene("e2", "ControlType.Pane/Edit", "", Some("VCU-D-200-MARK"))];
    assert_eq!(scene_wait_match(&with_val, None, None, None, Some("VCU-D-200-MARK")).as_deref(), Some("e2"));
    assert!(scene_wait_match(&with_val, None, None, None, Some("nope")).is_none());
    let same_name = vec![
        scene("e1", "ControlType.Window", "VCU-SAME", Some("VCU-SAME")),
        scene("e2", "ControlType.Button", "VCU-SAME", None),
    ];
    assert_eq!(scene_wait_match(&same_name, None, Some("VCU-SAME"), None, None).as_deref(), Some("e2"));
    assert_eq!(scene_wait_match(&same_name, Some("e1"), None, None, None).as_deref(), Some("e1"));
    assert!(!is_desktop_window_role("ControlType.Pane/WindowsForms10.EDIT.app"));
}

#[test]
fn scene_extract_matches_name_and_star() {
    let refs = vec![scene("e15", "AXGroup", "MultiWebView - messenger:messenger-chat:default", None)];
    let hits = scene_extract_matches(&refs, "messenger");
    assert_eq!(hits.len(), 1);
    assert_eq!(refs[hits[0]].ref_id, "e15");
    assert_eq!(scene_extract_matches(&refs, "*").len(), 1);
    assert!(scene_extract_matches(&refs, "etherscan").is_empty());
}

#[test]
fn windows_systemsettings_tab_is_observe_only() {
    assert!(settings_like("win:SystemSettings:1"));
    assert!(settings_like("win:systemsettings:9"));
    assert!(!settings_like("win:notepad:1"));
    assert!(!settings_like("win:win32calc:1"));
}

#[test]
fn desktop_actions_plan_steps_and_refusals() {
    let mut click = action("click");
    assert_eq!(plan_desktop_action("proc:TextEdit:1", &click).unwrap_err().message(), "click requires target.ref or args.pixel_x/pixel_y");
    click.has_pixel_x = true;
    assert_eq!(plan_desktop_action("proc:TextEdit:1", &click).unwrap_err().message(), "click requires args.pixel_y");
    click.has_pixel_y = true;
    match plan_desktop_action("proc:TextEdit:1", &click).unwrap() {
        DesktopStep::ClickPixels { space } => assert_eq!(space, "window"),
        other => panic!("{other:?}"),
    }
    click.arg_ref = Some("e4".into());
    match plan_desktop_action("proc:TextEdit:1", &click).unwrap() {
        DesktopStep::ClickRef { target } => assert_eq!(target, "e4"),
        other => panic!("{other:?}"),
    }
    let mut scroll = action("scroll");
    assert_eq!(plan_desktop_action("win:SystemSettings:1", &scroll).unwrap_err().code(), ErrorCode::FocusPolicyViolation);
    match plan_desktop_action("proc:TextEdit:1", &scroll).unwrap() {
        DesktopStep::Scroll { dy, target } => {
            assert_eq!(dy, 600);
            assert!(target.is_none());
        }
        other => panic!("{other:?}"),
    }
    scroll.dy = Some(-120);
    match plan_desktop_action("proc:TextEdit:1", &scroll).unwrap() {
        DesktopStep::Scroll { dy, .. } => assert_eq!(dy, -120),
        other => panic!("{other:?}"),
    }
    let mut key = action("key");
    assert_eq!(plan_desktop_action("proc:TextEdit:1", &key).unwrap_err().message(), "key requires args.key");
    key.key = Some("Enter".into());
    key.target_ref = Some("e_send".into());
    assert_eq!(plan_desktop_action("proc:TextEdit:1", &key).unwrap_err().code(), ErrorCode::FocusPolicyViolation);
    key.confirm_send = Some(true);
    match plan_desktop_action("proc:TextEdit:1", &key).unwrap() {
        DesktopStep::Key { plan, key, target, confirm_send } => {
            assert_eq!(plan, DesktopKeyPlan::PressRefSend);
            assert_eq!(plan.input_path(), "ax_press_send");
            assert_eq!(key, "return");
            assert_eq!(target, "e_send");
            assert!(confirm_send);
        }
        other => panic!("{other:?}"),
    }
    assert_eq!(plan_desktop_action("proc:TextEdit:1", &action("os_click")).unwrap_err().code(), ErrorCode::OsCursorDenied);
    assert_eq!(plan_desktop_action("proc:TextEdit:1", &action("navigate")).unwrap_err().code(), ErrorCode::NotImplemented);
    let err = plan_desktop_action("proc:TextEdit:1", &action("dance")).unwrap_err();
    assert_eq!(err.message(), "action not implemented on desktop: dance");
    assert_eq!(plan_desktop_action("proc:TextEdit:1", &action("type")).unwrap_err().message(), "type requires args.text");
    assert_eq!(plan_desktop_action("proc:TextEdit:1", &action("hover")).unwrap_err().message(), "hover requires target.ref");
    assert_eq!(plan_desktop_action("proc:Finder:4", &action("reveal")).unwrap_err().message(), "reveal requires args.path");
    assert!(matches!(plan_desktop_action("proc:TextEdit:1", &action("wait")).unwrap(), DesktopStep::Wait));
    assert_eq!(normalize_desktop_key(" Esc "), Some("escape"));
}

#[test]
fn desktop_click_gate_refuses_settings_feishu_send_and_user_webview() {
    assert!(feishu_like("proc:Feishu:3"));
    assert!(feishu_like("proc:飞书:3"));
    assert_eq!(desktop_click_gate("win:SystemSettings:1", None, false, &[]).unwrap_err().code(), ErrorCode::FocusPolicyViolation);
    let err = desktop_click_gate("proc:Feishu:3", Some("发送"), false, &[]).unwrap_err();
    assert_eq!(err.message(), "Feishu/Lark send is not automatic; name a recipient first");
    assert!(desktop_click_gate("proc:Feishu:3", Some("搜索"), false, &[]).is_ok());
    let tabs = vec![TabInfo {
        tab_id: "proc:Microsoft_Edge:10".into(),
        window_id: "w".into(),
        title: "Edge".into(),
        url: "app://Edge".into(),
        agent_owned: true,
        borrowed_by: None,
        login_state: Some(true),
        browser_profile: Some("user".into()),
    }];
    assert_eq!(desktop_click_gate("proc:Microsoft_Edge:10", None, true, &tabs).unwrap_err().code(), ErrorCode::ActionFailed);
    assert!(desktop_click_gate("proc:Microsoft_Edge:10", None, false, &tabs).is_ok());
    assert!(desktop_click_gate("proc:Microsoft_Edge:11", None, true, &tabs).is_ok());
    assert!(check_actuator_cursor(Some(false)).is_ok());
    assert!(check_actuator_cursor(None).is_ok());
    assert_eq!(check_actuator_cursor(Some(true)).unwrap_err().code(), ErrorCode::OsCursorDenied);
}

#[test]
fn devtools_websocket_from_http_base() {
    assert_eq!(http_base_to_browser_ws("http://127.0.0.1:9222/"), "ws://127.0.0.1:9222/devtools/browser");
    assert_eq!(http_base_to_browser_ws("https://host:9222"), "wss://host:9222/devtools/browser");
    assert_eq!(http_base_to_browser_ws("ws://h:1/devtools/browser/abc"), "ws://h:1/devtools/browser/abc");
    assert_eq!(http_base_to_browser_ws("ws://h:1"), "ws://h:1/devtools/browser");
    assert_eq!(http_base_to_browser_ws("127.0.0.1:9222"), "ws://127.0.0.1:9222/devtools/browser");
}

fn report(cursor: Option<bool>, input_path: Option<&str>, result: Option<&str>) -> AdapterReport {
    AdapterReport {
        os_cursor_used: cursor,
        input_path: input_path.map(|s| s.to_string()),
        result: result.map(|s| s.to_string()),
    }
}

#[test]
fn desktop_steps_report_no_cursor_or_fail() {
    let click = DesktopStep::ClickRef { target: "e1".into() };
    let err = finish_desktop_step(&click, false, &report(Some(true), None, None)).unwrap_err();
    assert_eq!(err.code, ErrorCode::OsCursorDenied);
    assert_eq!(err.message, "desktop actuator attempted OS cursor warp");
    let ok = finish_desktop_step(&click, false, &report(Some(false), None, Some("pressed webview"))).unwrap();
    assert!(!ok.os_cursor_used);
    assert_eq!(ok.hid_injected, Some(false));
    assert_eq!((ok.input_path, ok.hit_kind), (Some("ax_frame_hit"), Some("ax_element")));
    let plain = finish_desktop_step(&click, false, &report(None, Some("ax_press"), None)).unwrap();
    assert_eq!((plain.input_path, plain.hit_kind), (None, None));

    let scroll = DesktopStep::Scroll { dy: 600, target: None };
    assert_eq!(
        finish_desktop_step(&scroll, false, &report(Some(true), None, None)).unwrap_err().message,
        "desktop scroll attempted OS cursor warp"
    );
    let reveal = DesktopStep::Reveal { path: "/tmp".into() };
    assert_eq!(
        finish_desktop_step(&reveal, false, &report(Some(true), None, None)).unwrap_err().message,
        "Finder reveal attempted OS cursor warp"
    );
    let open = DesktopStep::OpenPath { path: "/tmp".into() };
    assert_eq!(
        finish_desktop_step(&open, false, &report(Some(true), None, None)).unwrap_err().message,
        "Finder open_path attempted OS cursor warp"
    );
    let key = DesktopStep::Key { plan: DesktopKeyPlan::PressRefSend, key: "return", target: "e9".into(), confirm_send: true };
    let k = finish_desktop_step(&key, true, &report(None, None, None)).unwrap();
    assert_eq!((k.input_path, k.key, k.confirm_send), (Some("ax_press_send"), Some("return"), Some(true)));
    let w = finish_desktop_step(&DesktopStep::Wait, false, &report(Some(true), None, None)).unwrap();
    assert!(!w.os_cursor_used);
    assert_eq!(w.input_path, Some("scene_wait"));
    let h = finish_desktop_step(&DesktopStep::Hover { target: "e2".into() }, false, &report(None, None, None)).unwrap();
    assert_eq!((h.input_path, h.hid_injected), (Some("guide_hover"), Some(false)));
}
