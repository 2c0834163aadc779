use vcu_server::app::macos::screen_capture_enabled;
use vcu_server::app::macos::{
    ax_debug_ui_blob_script, ax_find_address_script, ax_invoke_script, ax_login_scene_script,
    ax_prefer_text_kids, ax_set_address_script, ax_set_value_script, ax_snapshot_script,
    ax_terminal_paste_script, ax_textedit_document_script, ax_wants_enhanced, ax_window_meta_script,
    looks_like_address_field, plan_ax_snapshot, scene_summary, snapshot_element_cap, tab_label,
    uses_cg_windows, uses_menu_paste, MacosAppBackend,
};
use vcu_server::app::mock_app::MockAppBackend;
use vcu_server::app::windows::{
    base64_decode, decode_powershell_output, explorer_open_script, explorer_reveal_script,
    frame_host_alias, hwnd_resolve_ps, parse_process_list_lines, powershell_utf8_prelude,
    process_name_from_win_id, uia_set_value_script, uia_tree_script, WinOp, WindowsAppBackend,
};
use vcu_server::app::{
    ax_position_press_succeeded, ax_ref_press_succeeded, extract_elements, hit_error_code,
    is_denied_app, is_webview_like, png_ihdr_size,
};
use vcu_server::browser::SceneRef;
use vcu_server::error::ErrorCode;

const MIN_PNG: &[u8] = &[
    0x89, 0x50, 0x4e, 0x47, 0x0d, 0x0a, 0x1a, 0x0a, 0x00, 0x00, 0x00, 0x0d, 0x49, 0x48, 0x44, 0x52,
    0x00, 0x00, 0x00, 0x01, 0x00, 0x00, 0x00, 0x01, 0x08, 0x06, 0x00, 0x00, 0x00, 0x1f, 0x15, 0xc4,
    0x89, 0x00, 0x00, 0x00, 0x0d, 0x49, 0x44, 0x41, 0x54, 0x78, 0xda, 0x63, 0x60, 0x00, 0x02, 0x00,
    0x00, 0x05, 0x00, 0x01, 0xd5, 0xc8, 0x4d, 0x6e, 0x00, 0x00, 0x00, 0x00, 0x49, 0x45, 0x4e, 0x44,
    0xae, 0x42, 0x60, 0x82,
];

fn scene(r: &str, role: &str, name: &str, value: Option<&str>) -> SceneRef {
    SceneRef {
        ref_id: r.into(),
        role: role.into(),
        name: name.into(),
        value: value.map(|s| s.to_string()),
    }
}

#[test]
fn address_field_matcher_accepts_edge_and_chrome_names() {
    assert!(looks_like_address_field("AXTextField", "地址和搜索栏"));
    assert!(looks_like_address_field("AXComboBox", "Address and search bar"));
    assert!(looks_like_address_field("AXComboBox", "搜索或输入网址"));
    assert!(!looks_like_address_field("AXButton", "Search"));
    assert!(!looks_like_address_field("AXTextField", "Username"));
}

#[test]
fn browser_window_selection_enables_accessibility_before_enumeration() {
    let script = ax_window_meta_script("Microsoft Edge");
    assert!(script.find("AXEnhancedUserInterface").unwrap() < script.find("repeat with candidateWindow").unwrap());
}

#[test]
fn denylist_beats_allowlist_and_edge_feishu_are_allowed() {
    let b = MacosAppBackend::new(None);
    assert!(!b.allowed("WeChat"));
    assert!(!b.allowed("微信"));
    assert!(b.allowed("Microsoft Edge"));
    assert!(b.allowed("Edge"));
    assert!(b.allowed("Google Chrome"));
    assert!(b.allowed("Chrome"));
    assert!(b.ensure_operable("Chrome").is_ok());
    assert!(b.ensure_operable("Google Chrome").is_ok());
    assert!(b.allowed("Feishu"));
    assert!(b.allowed("Lark"));
    assert!(b.allowed("TextEdit"));
    assert!(b.allowed("System Settings"));
    assert!(b.allowed("系统设置"));
    assert!(b.ensure_operable("WeChat").is_err());
    assert_eq!(b.ensure_operable("WeChat").unwrap_err().code(), ErrorCode::AppDenied);
}

#[test]
fn ax_bfs_scripts_share_walk_and_avoid_entire_contents() {
    let snap = ax_snapshot_script("Feishu");
    let inv = ax_invoke_script("Feishu", "e12");
    let setv = ax_set_value_script("Feishu", "e12", "hello");
    for s in [&snap, &inv, &setv] {
        let low = s.to_lowercase();
        assert!(s.contains("vcuFront"));
        assert!(s.contains("vcuNext"));
        assert!(s.contains("vcuDepth"));
        assert!(s.contains("vcuAcc") || s.contains("not-found") || s.contains("AXPress") || s.contains("AXValue"));
        assert!(!low.contains("entire contents"));
        assert!(s.contains("vcuDepth <= 14") || s.contains("vcuDepth <= 4"));
        assert!(s.contains("n < 160") || s.contains("n < 80"));
        assert!(s.contains("description of el"));
        assert!(s.contains("help of el"));
        assert!(!s.contains("repeat with e3"));
    }
    assert!(snap.contains("WINDOW|"));
    assert!(snap.contains("AXEnhancedUserInterface"));
    assert!(snap.contains("WebArea"));
    assert!(inv.contains("AXPress"));
    assert!(inv.contains("e12"));
    assert!(inv.contains("ok-webview:ax_press:axpress:0"));
    assert!(inv.contains("ok:ax_press:axpress:0"));
    assert!(!inv.contains("click el"));
    assert!(!inv.contains("ok-click"));
    assert!(!inv.to_ascii_lowercase().contains("click at"));
    assert!(!inv.to_ascii_lowercase().contains("mouse location"));
    assert!(!inv.contains("CGWarp"));
    assert!(setv.contains("AXValue"));
    assert!(setv.contains("hello"));
    assert!(setv.contains("not-text"));
    assert!(setv.contains("TextArea"));
    let te_doc = ax_textedit_document_script("hello");
    assert!(te_doc.contains("text area 1"));
    assert!(te_doc.contains("ok-textedit-textarea"));
    assert!(!te_doc.to_ascii_lowercase().contains("mouse"));
    let te = ax_snapshot_script("TextEdit");
    assert!(te.contains("ScrollArea"));
    assert!(te.contains("text area"));
    assert!(ax_prefer_text_kids("TextEdit"));
    assert!(!ax_prefer_text_kids("Finder"));
    assert!(uses_cg_windows("Terminal"));
    assert!(uses_cg_windows("Feishu"));
    assert!(uses_cg_windows("Lark"));
    assert!(uses_cg_windows("System Settings"));
    assert!(uses_menu_paste("Terminal"));
    assert!(!uses_menu_paste("TextEdit"));
    let paste = ax_terminal_paste_script("Terminal", "hello");
    assert!(paste.contains("粘贴") || paste.contains("Paste"));
    assert!(paste.contains("set the clipboard"));
    assert!(!paste.to_ascii_lowercase().contains("keystroke"));
    assert!(!paste.to_ascii_lowercase().contains("key code"));
    assert!(!ax_prefer_text_kids("Notes"));
    let notes = ax_snapshot_script("Notes");
    assert!(notes.contains("vcuDepth <= 4"));
    assert!(notes.contains("n < 80"));
    assert!(notes.contains("SplitGroup"));
    assert!(!ax_snapshot_script("TextEdit").contains("SplitGroup"));
    let finder = ax_snapshot_script("Finder");
    assert!(finder.contains("vcuDepth <= 4"));
    assert!(finder.contains("n < 80"));
    assert!(!finder.contains("AXEnhancedUserInterface"));
    let edge = ax_snapshot_script("Microsoft Edge");
    assert!(edge.contains("AXEnhancedUserInterface"));
    assert!(edge.contains("n < 160"));
    assert!(edge.contains("vcuDepth <= 14"));
    let login = ax_login_scene_script("Microsoft Edge");
    assert!(login.contains("AXEnhancedUserInterface"));
    assert!(login.contains("n > 40"));
    let meta = ax_window_meta_script("Microsoft Edge");
    assert!(meta.contains("WINDOW|"));
    assert!(meta.contains("PAGE"));
    assert!(!meta.contains("vcuFront"));
    assert!(ax_wants_enhanced("Microsoft Edge"));
    assert!(!ax_wants_enhanced("Finder"));
    assert!(!ax_wants_enhanced("WeChat"));
    assert!(ax_find_address_script("Microsoft Edge").contains("n < 80"));
    assert!(ax_find_address_script("Microsoft Edge").contains("WebArea"));
    let find = ax_find_address_script("Microsoft Edge");
    assert!(find.contains("FOUND|"));
    assert!(find.contains("地址") || find.contains("Address"));
    assert!(ax_set_address_script("Microsoft Edge", "x").contains("ok-address"));
    let dbg = ax_debug_ui_blob_script("Microsoft Edge");
    assert!(dbg.contains("UI elements of window 1"));
    assert!(!dbg.contains("vcuFront"));
}

#[test]
fn ax_press_errors_are_not_successful_clicks() {
    assert!(ax_position_press_succeeded("ok:ax_position_press:pid:123:axpress:0"));
    for detail in [
        "ok:ax_position_press:pid:123:axpress:-25206",
        "ok:ax_position_press:pid:123:axpress:-25204",
        "",
        "ok",
        "error:other-pid:999:Finder",
    ] {
        assert!(!ax_position_press_succeeded(detail), "{detail}");
    }
    assert!(ax_ref_press_succeeded("ok:ax_press:axpress:0"));
    assert!(ax_ref_press_succeeded("ok-webview:ax_press:axpress:0"));
    for detail in [
        "ok",
        "ok-click",
        "ok-webview",
        "ok-webview-click",
        "ok:ax_press:axpress:-25204",
        "not-found",
        "error:ax_press:fail",
    ] {
        assert!(!ax_ref_press_succeeded(detail), "{detail}");
    }
}

#[test]
fn wechat_is_hard_denied() {
    assert!(is_denied_app("WeChat"));
    assert!(is_denied_app("微信"));
    assert!(is_denied_app("Weixin"));
    assert!(!is_denied_app("Microsoft Edge"));
    assert!(!is_denied_app("Feishu"));
    assert_eq!(hit_error_code("error:denied-app:WeChat"), Some(ErrorCode::AppDenied));
    assert_eq!(hit_error_code("error:other-pid:12:Finder"), Some(ErrorCode::ActionFailed));
    assert_eq!(hit_error_code("ok:ax_position_press"), None);
}

#[test]
fn png_ihdr_reads_minimal_png() {
    let png: &[u8] = MIN_PNG;
    assert_eq!(png_ihdr_size(png), Some((1, 1)));
    assert!(png_ihdr_size(&png[..12]).is_none());
    assert!(png_ihdr_size(b"not a png").is_none());
}

#[test]
fn decode_powershell_output_keeps_utf8_chinese() {
    let raw = "文件".as_bytes();
    assert_eq!(decode_powershell_output(raw), "文件");
    let mut bom = vec![0xEF, 0xBB, 0xBF];
    bom.extend_from_slice(raw);
    assert_eq!(decode_powershell_output(&bom), "文件");
    assert!(powershell_utf8_prelude().contains("UTF8Encoding"));
}

#[test]
fn parse_process_list_keeps_windowsterminal() {
    let b = WindowsAppBackend::new();
    let wins = parse_process_list_lines("WindowsTerminal\t9\tVCU", |n: &str| b.allowed(n));
    assert_eq!(wins.len(), 1);
    assert_eq!(wins[0].bundle_or_exe, "WindowsTerminal");
    assert!(wins[0].id.starts_with("win:WindowsTerminal:"));
}

#[test]
fn frame_host_calculator_aliases_without_allowing_the_host() {
    let raw = "ApplicationFrameHost\t18668\t计算器\nCalculatorApp\t6448\tCalculatorApp\nApplicationFrameHost\t99\t随机窗口\n";
    let wins = parse_process_list_lines(raw, |n: &str| {
        let l = n.to_lowercase();
        l.contains("calculator") || l.contains("notepad")
    });
    assert_eq!(wins.len(), 1, "{wins:?}");
    assert_eq!(wins[0].id, "win:Calculator:18668");
    assert_eq!(wins[0].bundle_or_exe, "Calculator");
    assert!(wins[0].title.contains("计算器"));
    assert!(frame_host_alias("Calculator") == Some("Calculator"));
    assert!(frame_host_alias("设置").is_none());
}

#[test]
fn parse_process_list_keeps_allowlist_drops_wechat() {
    let b = WindowsAppBackend::new();
    let raw = "notepad\t1001\tUntitled - Notepad\nWeChat\t2002\tWeChat\nexplorer\t3003\tDocuments\nmsedge\t4004\tMicrosoft Edge\ncmd\t5005\t\nconhost\t5006\tVCU-D-140\nCalculator\t5007\tCalculator\nSystemSettings\t5008\tSettings\n";
    let wins = parse_process_list_lines(raw, |n: &str| b.allowed(n));
    let names: Vec<_> = wins.iter().map(|w| w.bundle_or_exe.as_str()).collect();
    assert!(names.contains(&"notepad"));
    assert!(names.contains(&"explorer"));
    assert!(names.contains(&"msedge"));
    assert!(names.contains(&"cmd"));
    assert!(names.contains(&"conhost"));
    assert!(names.contains(&"Calculator"));
    assert!(!names.iter().any(|n| n.to_lowercase().contains("wechat")));
    assert!(wins.iter().any(|w| w.id.starts_with("win:notepad:")));
    assert!(wins.iter().any(|w| w.id == "win:cmd:5005"));
    assert!(wins.iter().any(|w| w.id == "win:conhost:5006"));
    assert!(wins.iter().any(|w| w.id == "win:Calculator:5007"));
    assert!(wins.iter().any(|w| w.id == "win:SystemSettings:5008"));
}

#[test]
fn windows_operations_off_windows_are_refused_or_absent() {
    let mut b = WindowsAppBackend::new();
    assert_eq!(b.platform(), "windows");
    assert_eq!(b.focus_window("win:x:1", false).unwrap_err().code(), ErrorCode::FocusPolicyViolation);
    assert_eq!(b.focus_window("win:x:1", true).unwrap_err().code(), ErrorCode::NotImplemented);
    let invoke = WinOp::Invoke { eref: "e1".into() };
    let err = b.plan_operation("win:x:1", &invoke, false).unwrap_err();
    assert_eq!(err.code(), ErrorCode::OsCursorDenied);
    assert!(err.message().to_ascii_lowercase().contains("sendinput"));
    assert_eq!(b.plan_operation("win:WeChat:2", &invoke, false).unwrap_err().code(), ErrorCode::AppDenied);
    let open = WinOp::OpenPath { path: "C:\\Temp".into() };
    assert_eq!(b.plan_operation("win:WeChat:2", &open, false).unwrap_err().code(), ErrorCode::AppDenied);
    assert_eq!(b.plan_operation("win:notepad:1", &open, false).unwrap_err().code(), ErrorCode::NotImplemented);
    let reveal = WinOp::RevealPath { path: "C:\\Temp\\x.txt".into() };
    assert_eq!(b.plan_operation("win:WeChat:2", &reveal, false).unwrap_err().code(), ErrorCode::AppDenied);
    assert_eq!(b.plan_operation("win:notepad:1", &reveal, false).unwrap_err().code(), ErrorCode::NotImplemented);
    let setv = WinOp::SetValue { eref: "e1".into(), value: "hi".into() };
    assert_eq!(b.plan_operation("win:notepad:1", &setv, false).unwrap_err().code(), ErrorCode::NotImplemented);
    let scroll = WinOp::Scroll { eref: None, dy: 600 };
    assert_eq!(b.plan_operation("win:notepad:1", &scroll, false).unwrap_err().code(), ErrorCode::NotImplemented);
    assert_eq!(b.plan_operation("win:WeChat:2", &scroll, false).unwrap_err().code(), ErrorCode::AppDenied);
    let nl = WinOp::SetValue { eref: "e1".into(), value: "echo\nhi".into() };
    assert_eq!(b.plan_operation("win:cmd:1", &nl, false).unwrap_err().code(), ErrorCode::FocusPolicyViolation);
    let ps_nl = WinOp::SetValue { eref: "e2".into(), value: "line\n2".into() };
    assert_eq!(b.plan_operation("win:powershell:9", &ps_nl, false).unwrap_err().code(), ErrorCode::FocusPolicyViolation);
    assert!(b.plan_operation("win:notepad:1", &WinOp::Capture, false).unwrap().is_none());
    let open_script = explorer_open_script(r"C:\Temp");
    assert!(open_script.contains("explorer.exe"));
    assert!(open_script.contains("ok:explorer_open"));
    assert!(!open_script.to_ascii_lowercase().contains("sendinput("));
    let rev = explorer_reveal_script(r"C:\Temp\x.txt");
    assert!(rev.contains("/select,"));
    assert!(rev.contains("ok:explorer_reveal"));
    let setv = uia_set_value_script(4242, "e2", "hello");
    assert!(setv.contains("ValuePattern"));
    assert!(setv.contains("ok:wm_settext"));
    let tree = uia_tree_script(1, 8);
    assert!(tree.contains("TRACKBAR"));
    assert!(!setv.to_ascii_lowercase().contains("sendinput("));
}

#[test]
fn windows_operations_on_windows_get_scripts() {
    let b = WindowsAppBackend::new();
    let inv = b.plan_operation("win:notepad:77", &WinOp::Invoke { eref: "e3".into() }, true).unwrap().unwrap();
    assert!(inv.starts_with(hwnd_resolve_ps()));
    assert!(inv.contains("77"));
    let snap = b.plan_operation("win:notepad:77", &WinOp::Snapshot, true).unwrap().unwrap();
    assert_eq!(snap, uia_tree_script(77, 80));
    assert_eq!(
        b.plan_operation("win:notepad:x", &WinOp::Snapshot, true).unwrap_err().code(),
        ErrorCode::InvalidInput
    );
    assert_eq!(
        b.plan_operation("win:Paint:3", &WinOp::Snapshot, true).unwrap_err().code(),
        ErrorCode::FocusPolicyViolation
    );
    let bad = WinOp::OpenPath { path: "C:\\a\"b".into() };
    assert_eq!(b.plan_operation("win:explorer:1", &bad, true).unwrap_err().code(), ErrorCode::InvalidInput);
    let ok = WinOp::OpenPath { path: "C:\\Temp".into() };
    assert_eq!(b.plan_operation("win:explorer:1", &ok, true).unwrap().unwrap(), explorer_open_script("C:\\Temp"));
    assert_eq!(process_name_from_win_id("win:Windows_Terminal:5"), "Windows Terminal");
    assert_eq!(process_name_from_win_id("proc:Notepad:5"), "proc:Notepad:5");
}

#[test]
fn lenient_base64_decodes_powershell_png() {
    let encoded = "iVBORw0KGgoAAAANSUhEUgAAAAEAAAABCAYAAAAfFcSJAAAADUlEQVR42mP8z8BQDwAEhQGAhKmMIQAAAABJRU5ErkJggg==";
    let png = base64_decode(encoded).unwrap();
    assert_eq!(png_ihdr_size(&png), Some((1, 1)));
    let wrapped = "iVBORw0K\r\nGgo=";
    assert_eq!(base64_decode(wrapped).unwrap(), vec![0x89, 0x50, 0x4e, 0x47, 0x0d, 0x0a, 0x1a, 0x0a]);
    assert_eq!(base64_decode("TWFu").unwrap(), b"Man".to_vec());
    assert_eq!(base64_decode("TWE=").unwrap(), b"Ma".to_vec());
    assert_eq!(base64_decode("TQ==").unwrap(), b"M".to_vec());
    assert!(base64_decode("TWF").is_none());
    assert!(base64_decode("TW!u").is_none());
    assert_eq!(base64_decode("").unwrap(), Vec::<u8>::new());
}

#[test]
fn mock_app_targets_and_denials() {
    let mut m = MockAppBackend::default();
    assert_eq!(m.platform(), "mock-app");
    assert_eq!(m.targets.len(), 6);
    let i = m.target("proc:WeChat:2").unwrap();
    assert_eq!(m.ensure_operable(&m.targets[i]).unwrap_err().code(), ErrorCode::AppDenied);
    let j = m.target("proc:TextEdit:1").unwrap();
    assert!(m.ensure_operable(&m.targets[j]).is_ok());
    assert_eq!(m.target("proc:Nope:9").unwrap_err().code(), ErrorCode::TabNotFound);
    assert!(m.focus_window("proc:TextEdit:1", false).is_err());
    assert!(m.focus_window("proc:TextEdit:1", true).is_ok());
}

#[test]
fn macos_snapshot_plan_and_summaries() {
    let p = plan_ax_snapshot("Microsoft Edge", 50);
    assert!(p.meta_only);
    assert_eq!(p.timeout_ms, 800);
    assert!(p.script.contains("WINDOW|"));
    let q = plan_ax_snapshot("Finder", 50);
    assert!(!q.meta_only);
    assert_eq!(snapshot_element_cap(0), 200);
    assert_eq!(snapshot_element_cap(40), 5);
    assert_eq!(snapshot_element_cap(2000), 100);
    assert_eq!(
        scene_summary("Finder", 3, false, true, "https://x"),
        "kind=desktop.scene process=\"Finder\" elements=3 truncated=false webview=true url=https://x"
    );
    assert_eq!(tab_label("  大空头 VS 马斯克 - 内存使用率 - 648 MB "), "大空头 VS 马斯克");
    assert_eq!(tab_label("GitHub - Memory usage - 1 GB"), "GitHub");
    assert_eq!(tab_label(" GitHub "), "GitHub");
}

#[test]
fn extract_elements_by_name_and_star() {
    let els = vec![
        scene("e1", "AXButton", "搜索（⌘＋K）", None),
        scene("e14", "AXGroup", "MultiWebView - messenger", None),
        scene("e15", "AXGroup", "MultiWebView - messenger:messenger-chat:default", None),
    ];
    assert_eq!(extract_elements(&els, "messenger-chat"), vec![2]);
    assert_eq!(extract_elements(&els, "*").len(), 3);
    assert_eq!(extract_elements(&els, "  ").len(), 3);
    assert_eq!(extract_elements(&els, "E14"), vec![1]);
    assert!(!is_webview_like("AXButton", "关闭按钮"));
    assert!(is_webview_like("AXWebArea", "bilibili"));
}

#[test]
fn screen_capture_env_opt_out() {
    assert!(screen_capture_enabled(None, true));
    assert!(!screen_capture_enabled(None, false));
    assert!(!screen_capture_enabled(Some("0"), true));
    assert!(!screen_capture_enabled(Some("FALSE"), true));
    assert!(!screen_capture_enabled(Some("Off"), true));
    assert!(screen_capture_enabled(Some("1"), true));
    assert!(screen_capture_enabled(Some("no"), true));
}

#[test]
fn mock_app_list_and_snapshot() {
    let mut b = MockAppBackend::default();
    let wins = b.list_windows().unwrap();
    assert_eq!(wins.len(), 6);
    let refs = b.scene_refs(&wins[0].id).unwrap();
    assert_eq!(refs.len(), 2);
    assert_eq!(refs[0].ref_id, "e1");
    let err = b.focus_window(&wins[0].id, false).unwrap_err();
    assert_eq!(err.code(), ErrorCode::FocusPolicyViolation);
    let pressed = b.invoke(&wins[0].id, "e1").unwrap();
    assert!(!pressed.os_cursor_used);
    let typed = b.set_value(&wins[0].id, "e2", "hi").unwrap();
    assert_eq!(typed.input_path, "ax_set_value");
    let finder = wins.iter().find(|w| w.title == "Finder").unwrap();
    let revealed = b.reveal_path(&finder.id, "/tmp/VCU-D-040").unwrap();
    assert_eq!(revealed.input_path, "nsworkspace_reveal");
    let opened = b.open_path(&finder.id, "/tmp/VCU-D-040").unwrap();
    assert_eq!(opened.input_path, "nsworkspace_open");
    assert!(b.open_path(&wins[0].id, "/tmp/VCU-D-040").is_err());
    let wechat = wins.iter().find(|w| w.title == "WeChat").unwrap();
    let err = b.scene_refs(&wechat.id).unwrap_err();
    assert_eq!(err.code(), ErrorCode::AppDenied);
    let err = b.invoke(&wechat.id, "e1").unwrap_err();
    assert_eq!(err.code(), ErrorCode::AppDenied);
    let feishu = wins.iter().find(|w| w.title == "Feishu").unwrap();
    let fs = b.scene_refs(&feishu.id).unwrap();
    assert_eq!(fs.len(), 4);
    let hit = b.invoke(&feishu.id, "e15").unwrap();
    assert_eq!(hit.input_path, "ax_frame_hit");
    assert!(!hit.os_cursor_used);
    assert!(!hit.hid_injected);
}

#[test]
fn mock_app_refusals_and_paths() {
    let mut b = MockAppBackend::default();
    let err = b.invoke("proc:Nope:9", "e1").unwrap_err();
    assert_eq!((err.code(), err.message()), (ErrorCode::TabNotFound, "app target proc:Nope:9"));
    let err = b.reveal_path("proc:TextEdit:1", "/tmp").unwrap_err();
    assert_eq!(err.message(), "reveal_path is Finder-only");
    let s = b.scroll("proc:TextEdit:1", Some("e2"), -300).unwrap();
    assert_eq!((s.input_path, s.dy), ("ax_scroll", Some(-300)));
    let p = b.invoke("proc:TextEdit:1", "e404").unwrap();
    assert_eq!((p.input_path, p.result), ("ax_press", Some("ok")));
    let web = b.scene_refs("proc:Microsoft_Edge:10").unwrap();
    assert_eq!(web[0].role, "AXWebArea");
    let hit = b.invoke("proc:Microsoft_Edge:10", "e_web").unwrap();
    assert_eq!(hit.result, Some("ok_webview"));
}
