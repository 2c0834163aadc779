use vcu_server::error::ErrorCode;
use vcu_server::login_state::{
    ax_exposes_send_control, bind_app_id, bind_tab_id, browser_kind_from_app_id,
    browser_name_is_frontmost, classify_browser_command, classify_debug_ui,
    classify_extension_profile, extension_error_is_stale, ingest_scanned_browser,
    inspect_login_browsers, login_next_action, order_user_browsers_frontmost_first,
    parse_windows_browser_line, pick_login_tab, plan_login_key, profile_for_pid,
    require_desktop_window, BrowserProc, BrowserProfile, LastObserve, LoginScan, TabInfo,
    LAST_OBSERVE_TTL_SECS,
};

fn tab(id: &str, title: &str, profile: Option<&str>, owned: bool) -> TabInfo {
    TabInfo {
        tab_id: id.into(),
        window_id: "desktop-stage".into(),
        title: title.into(),
        url: format!("app://{}", title.replace(' ', "_")),
        agent_owned: owned,
        borrowed_by: None,
        login_state: Some(profile == Some("user")),
        browser_profile: profile.map(|s| s.to_string()),
    }
}

fn proc_(name: &str, pid: i32) -> BrowserProc {
    BrowserProc {
        pid,
        name: name.into(),
        profile: "user".into(),
        command_excerpt: name.into(),
    }
}

#[test]
fn classifies_user_agent_helper() {
    assert_eq!(
        classify_browser_command(
            "Microsoft Edge",
            "/Applications/Microsoft Edge.app/Contents/MacOS/Microsoft Edge"
        ),
        BrowserProfile::User
    );
    assert_eq!(
        classify_browser_command(
            "Microsoft Edge",
            "/Applications/Microsoft Edge.app/Contents/MacOS/Microsoft Edge --user-data-dir=/Users/me/.vcu/edge-agent-profile --load-extension=/tmp/ext"
        ),
        BrowserProfile::Agent
    );
    assert_eq!(
        classify_browser_command(
            "Microsoft Edge Helper",
            "Microsoft Edge Helper (Renderer) --type=renderer"
        ),
        BrowserProfile::Helper
    );
    assert_eq!(
        classify_browser_command("Feishu", "/Applications/Feishu.app/Contents/MacOS/Feishu"),
        BrowserProfile::App
    );
}

#[test]
fn pick_prefers_user_edge_over_agent_and_textedit() {
    let tabs = vec![
        tab("proc:TextEdit:1", "TextEdit", None, true),
        tab("proc:Microsoft_Edge:11", "Microsoft Edge", Some("agent"), true),
        tab("proc:Microsoft_Edge:10", "Microsoft Edge", Some("user"), true),
        tab("proc:WeChat:2", "WeChat", None, false),
    ];
    assert_eq!(
        pick_login_tab(&tabs, "edge", None).as_deref(),
        Some("proc:Microsoft_Edge:10")
    );
    assert_eq!(
        pick_login_tab(&tabs, "edge", Some("proc:TextEdit:1")).as_deref(),
        Some("proc:TextEdit:1")
    );
    let no_user = vec![
        tab("proc:TextEdit:1", "TextEdit", None, true),
        tab("proc:Microsoft_Edge:11", "Microsoft Edge", Some("agent"), true),
    ];
    assert_eq!(
        pick_login_tab(&no_user, "auto", None).as_deref(),
        Some("proc:TextEdit:1")
    );
}

#[test]
fn extension_on_agent_profile_is_not_login_state() {
    let user = vec![BrowserProc {
        pid: 10,
        name: "Microsoft Edge".into(),
        profile: "user".into(),
        command_excerpt: "/Applications/Microsoft Edge.app/Contents/MacOS/Microsoft Edge".into(),
    }];
    let agent = vec![BrowserProc {
        pid: 11,
        name: "Agent Edge".into(),
        profile: "agent".into(),
        command_excerpt: "Microsoft Edge --user-data-dir=/Users/me/.vcu/edge-agent-profile --load-extension=/Users/me/.local/share/vcu/extension".into(),
    }];
    assert_eq!(classify_extension_profile(&user, &agent), "agent");
    assert_eq!(classify_extension_profile(&user, &[]), "none");
    let user_ext = vec![BrowserProc {
        pid: 10,
        name: "Microsoft Edge".into(),
        profile: "user".into(),
        command_excerpt: "Microsoft Edge --load-extension=/Users/me/.local/share/vcu/extension".into(),
    }];
    assert_eq!(classify_extension_profile(&user_ext, &agent), "user");
}

#[test]
fn debug_ui_detects_infobar_and_allow() {
    assert_eq!(
        classify_debug_ui("Microsoft Edge 正由自动测试软件控制。"),
        (true, false)
    );
    assert_eq!(
        classify_debug_ui("Allow debugging from this computer?"),
        (false, true)
    );
    assert_eq!(classify_debug_ui("bilibili"), (false, false));
}

#[test]
fn next_action_asks_to_load_unpacked_when_copied_but_agent() {
    let a = login_next_action(false, true, "agent", false, "/tmp/lens-extension", false);
    assert!(a.contains("Load unpacked"));
    assert!(a.contains("/tmp/lens-extension"));
    assert!(a.contains("observe"));
    assert!(!a.contains("click Allow debugging"));
    assert!(!a.contains("User: click Allow"));
    let b = login_next_action(false, true, "user", false, "/tmp/lens-extension", false);
    assert!(b.contains("DOM lens") || b.contains("extension_dom"));
    assert!(b.contains("ping"));
    assert!(b.contains("observe"));
    assert!(b.contains("last observe"));
    assert!(b.contains("never click Allow"));
    assert!(!b.contains("click Allow debugging"));
    let stale = login_next_action(false, true, "user", false, "/tmp/lens-extension", true);
    assert!(stale.contains("Reload"));
    assert!(stale.contains("/tmp/lens-extension"));
    assert!(!stale.contains("click Allow debugging"));
    assert!(extension_error_is_stale("ping", Some("{\"error\":\"unknown method ping\"}")));
    assert!(!extension_error_is_stale("ok", None));
}

#[test]
fn next_action_never_asks_to_click_allow() {
    for profile in ["user", "agent", "none"] {
        let msg = login_next_action(false, true, profile, true, "/tmp/lens-extension", false);
        assert!(!msg.contains("click Allow debugging"), "{msg}");
        assert!(!msg.contains("User: click Allow"), "{msg}");
        assert!(!msg.contains("Allow ONCE"), "{msg}");
        assert!(msg.contains("never click Allow") || msg.contains("Load unpacked") || msg.contains("install-lens"), "{msg}");
    }
    let no_browser = login_next_action(true, true, "user", true, "/tmp/lens-extension", false);
    assert!(!no_browser.contains("Allow debugging"));
    assert!(!no_browser.contains("User: click Allow"));
}

#[test]
fn feishu_like_ax_names_do_not_expose_send() {
    let live_like = [
        "飞书",
        "搜索（⌘＋K）",
        "消息",
        "MultiWebView - messenger",
        "messenger-chat",
        "ProfileButton",
        "创建",
    ];
    assert!(!ax_exposes_send_control(&live_like));
    assert!(ax_exposes_send_control(&["发送"]));
    assert!(ax_exposes_send_control(&["Send"]));
    assert!(!ax_exposes_send_control(&["messenger"]));
}

#[test]
fn plan_login_key_gates_return() {
    assert_eq!(
        plan_login_key("return", false, true).unwrap_err().code(),
        ErrorCode::FocusPolicyViolation
    );
    assert_eq!(
        plan_login_key("enter", true, false).unwrap_err().code(),
        ErrorCode::FocusPolicyViolation
    );
    assert_eq!(
        plan_login_key("escape", false, false).unwrap_err().code(),
        ErrorCode::FocusPolicyViolation
    );
    assert_eq!(plan_login_key("return", true, true).unwrap(), "ax_press_send");
}

#[test]
fn inspect_always_denies_allow_cursor_wechat() {
    let scan = LoginScan {
        rows: Vec::new(),
        frontmost: None,
        cdp_listening: false,
        lens_copied: false,
        lens_dir: String::new(),
    };
    let r = inspect_login_browsers(scan);
    assert!(r.never_click_allow);
    assert!(r.never_os_cursor);
    assert!(r.never_wechat);
}

#[test]
fn browser_kind_from_app_id_maps_chrome_and_edge() {
    assert_eq!(browser_kind_from_app_id("proc:Chrome:51370"), Some("chrome"));
    assert_eq!(browser_kind_from_app_id("proc:Google_Chrome:1"), Some("chrome"));
    assert_eq!(browser_kind_from_app_id("proc:Microsoft_Edge:10"), Some("edge"));
    assert_eq!(browser_kind_from_app_id("proc:TextEdit:1"), None);
    assert_eq!(browser_kind_from_app_id("proc:WeChat:2"), None);
}

#[test]
fn orders_edge_first_when_frontmost() {
    let users = vec![proc_("Chrome", 1), proc_("Microsoft Edge", 2)];
    let ordered = order_user_browsers_frontmost_first(users, Some("Microsoft Edge"));
    assert_eq!(ordered[0].name, "Microsoft Edge");
    assert_eq!(ordered[0].pid, 2);
    assert_eq!(ordered[1].name, "Chrome");
}

#[test]
fn orders_chrome_first_when_frontmost() {
    let users = vec![proc_("Microsoft Edge", 2), proc_("Chrome", 1)];
    let ordered = order_user_browsers_frontmost_first(users, Some("Google Chrome"));
    assert_eq!(ordered[0].name, "Chrome");
}

#[test]
fn bind_tab_id_prefers_explicit_then_fresh_observe() {
    let now: u64 = 1_000_000;
    let last = LastObserve {
        app_id: "proc:Chrome:1".into(),
        tab_id: Some("42".into()),
        at_ms: now,
    };
    assert_eq!(bind_tab_id(Some("7"), Some(&last), now), (Some("7".into()), "explicit"));
    assert_eq!(bind_tab_id(None, Some(&last), now), (Some("42".into()), "last_observe"));
    assert_eq!(bind_tab_id(None, None, now), (None, "implicit"));
    let stale = LastObserve {
        app_id: "proc:Chrome:1".into(),
        tab_id: Some("42".into()),
        at_ms: now - (LAST_OBSERVE_TTL_SECS + 1) * 1000,
    };
    assert_eq!(bind_tab_id(None, Some(&stale), now), (None, "implicit"));
    assert_eq!(bind_app_id(None, Some(&last), now).as_deref(), Some("proc:Chrome:1"));
    assert!(bind_app_id(None, Some(&stale), now).is_none());
}

#[test]
fn windows_edge_main_is_user_helper_skipped_agent_backslash() {
    assert_eq!(
        classify_browser_command(
            "msedge.exe",
            r"C:\Program Files (x86)\Microsoft\Edge\Application\msedge.exe"
        ),
        BrowserProfile::User
    );
    assert_eq!(
        classify_browser_command(
            "msedge.exe",
            r"C:\Program Files (x86)\Microsoft\Edge\Application\msedge.exe --type=renderer"
        ),
        BrowserProfile::Helper
    );
    assert_eq!(
        classify_browser_command(
            "msedge.exe",
            r"C:\Program Files (x86)\Microsoft\Edge\Application\msedge.exe --user-data-dir=C:\Users\me\.vcu\edge-agent-profile"
        ),
        BrowserProfile::Agent
    );
}

#[test]
fn require_desktop_window_refuses_missing_id() {
    let tabs = vec![tab("win:cmd:1", "cmd", None, true)];
    let err = require_desktop_window(&tabs, Some("win:notepad:9")).unwrap_err();
    assert_eq!(err.code(), ErrorCode::TabNotFound);
    assert!(err.message().contains("refusing to bind another app"));
    assert_eq!(
        require_desktop_window(&tabs, Some("win:cmd:1")).unwrap().as_deref(),
        Some("win:cmd:1")
    );
    let noted = vec![tab("win:Notepad:9", "Notepad", None, true)];
    assert_eq!(
        require_desktop_window(&noted, Some("win:notepad:9")).unwrap().as_deref(),
        Some("win:Notepad:9")
    );
    assert!(require_desktop_window(&tabs, None).unwrap().is_none());
    let noted = vec![
        tab("win:Notepad:20", "无标题 - Notepad", None, true),
        tab("win:cmd:3", "cmd", None, true),
    ];
    assert_eq!(
        require_desktop_window(&noted, Some("win:notepad:9")).unwrap().as_deref(),
        Some("win:Notepad:20")
    );
    let two = vec![
        tab("win:Notepad:20", "a", None, true),
        tab("win:Notepad:21", "b", None, true),
    ];
    assert!(require_desktop_window(&two, Some("win:notepad:9")).is_err());
}

#[test]
fn windows_scan_line_keeps_user_edge_drops_helper() {
    let mut user = Vec::new();
    let mut agent = Vec::new();
    ingest_scanned_browser(
        16520,
        "msedge.exe",
        r"C:\Program Files (x86)\Microsoft\Edge\Application\msedge.exe",
        &mut user,
        &mut agent,
    );
    ingest_scanned_browser(
        1520,
        "msedge.exe",
        r"C:\Program Files (x86)\Microsoft\Edge\Application\msedge.exe --type=gpu-process",
        &mut user,
        &mut agent,
    );
    assert_eq!(user.len(), 1);
    assert_eq!(user[0].pid, 16520);
    assert_eq!(user[0].name, "Microsoft Edge");
    assert_eq!(user[0].profile, "user");
    assert!(agent.is_empty());
    let parsed = parse_windows_browser_line("16520\tmsedge.exe\tC:\\Edge\\msedge.exe").unwrap();
    assert_eq!(parsed.0, 16520);
    assert_eq!(parsed.1, "msedge.exe");
}

// ---- further cases ----

#[test]
fn profile_for_pid_names_only_user_and_agent() {
    assert_eq!(profile_for_pid("Microsoft Edge", None), None);
    assert_eq!(
        profile_for_pid("Microsoft Edge", Some("/Applications/Microsoft Edge.app/Contents/MacOS/Microsoft Edge")),
        Some("user")
    );
    assert_eq!(
        profile_for_pid("Google Chrome", Some("chrome --user-data-dir=/home/u/.vcu/x")),
        Some("agent")
    );
    assert_eq!(profile_for_pid("Google Chrome", Some("chrome --type=gpu-process")), None);
    assert_eq!(profile_for_pid("Finder", Some("/System/Finder")), None);
}

#[test]
fn frontmost_name_matching() {
    assert!(browser_name_is_frontmost("Microsoft Edge", "microsoft edge"));
    assert!(!browser_name_is_frontmost("Chrome", "Microsoft Edge"));
    assert!(browser_name_is_frontmost("Chrome", "Google Chrome"));
    assert!(browser_name_is_frontmost("Safari", "safari"));
    assert!(!browser_name_is_frontmost("Safari", "Firefox"));
}

#[test]
fn order_keeps_input_without_frontmost_and_is_stable() {
    let users = vec![proc_("Chrome", 1), proc_("Microsoft Edge", 2), proc_("Chrome", 3)];
    let same = order_user_browsers_frontmost_first(users.clone(), None);
    assert_eq!(same.iter().map(|u| u.pid).collect::<Vec<_>>(), vec![1, 2, 3]);
    let blank = order_user_browsers_frontmost_first(users.clone(), Some("  "));
    assert_eq!(blank.iter().map(|u| u.pid).collect::<Vec<_>>(), vec![1, 2, 3]);
    let chrome = order_user_browsers_frontmost_first(users, Some("Google Chrome"));
    assert_eq!(chrome.iter().map(|u| u.pid).collect::<Vec<_>>(), vec![1, 3, 2]);
}

#[test]
fn plan_login_key_tab_and_unknown_are_not_implemented() {
    let e = plan_login_key(" Tab ", true, true).unwrap_err();
    assert_eq!(e.code(), ErrorCode::NotImplemented);
    let e = plan_login_key("F5", true, true).unwrap_err();
    assert_eq!(e.code(), ErrorCode::NotImplemented);
    assert_eq!(e.message(), "login-state key not implemented: f5");
    assert_eq!(plan_login_key(" ENTER ", true, true).unwrap(), "ax_press_send");
    assert_eq!(plan_login_key("esc", true, true).unwrap_err().code(), ErrorCode::FocusPolicyViolation);
}

#[test]
fn parse_windows_browser_line_rejects_bad_rows() {
    assert!(parse_windows_browser_line("x\tmsedge.exe\tcmd").is_none());
    assert!(parse_windows_browser_line("12\t \tcmd").is_none());
    assert!(parse_windows_browser_line("12\tmsedge.exe").is_none());
    let p = parse_windows_browser_line(" 7 \t chrome.exe \t c a\tb ").unwrap();
    assert_eq!(p, (7, "chrome.exe".to_string(), "c a\tb".to_string()));
    assert!(parse_windows_browser_line("99999999999\tchrome.exe\tc").is_none());
    assert_eq!(parse_windows_browser_line("-5\tchrome.exe\tc").unwrap().0, -5);
}

#[test]
fn excerpt_cuts_long_commands() {
    let long = format!("  chrome {}  ", "a".repeat(300));
    let mut user = Vec::new();
    let mut agent = Vec::new();
    ingest_scanned_browser(1, "chrome", &long, &mut user, &mut agent);
    assert_eq!(user.len(), 1);
    assert_eq!(user[0].name, "Chrome");
    let ex = &user[0].command_excerpt;
    assert!(ex.ends_with('…'));
    assert_eq!(ex.len(), 180 + '…'.len_utf8());
    assert!(ex.starts_with("chrome aaa"));
}

#[test]
fn inspect_report_orders_and_advises() {
    let scan = LoginScan {
        rows: vec![
            (1, "chrome".into(), "/opt/google/chrome/chrome".into()),
            (2, "msedge".into(), "/usr/bin/microsoft edge --load-extension=/x/share/vcu/ext".into()),
            (3, "msedge".into(), "/usr/bin/microsoft edge --type=renderer".into()),
            (4, "msedge".into(), "microsoft edge --user-data-dir=/h/.vcu/edge-agent-profile".into()),
        ],
        frontmost: Some("Microsoft Edge".into()),
        cdp_listening: true,
        lens_copied: true,
        lens_dir: "/h/.vcu/lens-extension".into(),
    };
    let r = inspect_login_browsers(scan);
    assert_eq!(r.user_browsers.iter().map(|u| u.pid).collect::<Vec<_>>(), vec![2, 1]);
    assert_eq!(r.agent_browsers.len(), 1);
    assert_eq!(r.agent_browsers[0].name, "Agent Edge");
    assert_eq!(r.extension_profile, "user");
    assert_eq!(r.cdp_handshake, "listening_may_block");
    assert!(r.next_action.contains("Login-state DOM lens is on the USER browser"));
    assert_eq!(r.never.len(), 4);
}

#[test]
fn pick_login_tab_without_owned_tabs_is_none() {
    let tabs = vec![tab("proc:WeChat:2", "WeChat", None, false)];
    assert_eq!(pick_login_tab(&tabs, "auto", None), None);
    assert_eq!(pick_login_tab(&tabs, "auto", Some("proc:nope:1")), None);
    let chrome = vec![
        tab("proc:Chrome:5", "Google Chrome", Some("user"), true),
        tab("proc:Microsoft_Edge:6", "Microsoft Edge", Some("user"), true),
    ];
    assert_eq!(pick_login_tab(&chrome, "EDGE", None).as_deref(), Some("proc:Microsoft_Edge:6"));
    assert_eq!(pick_login_tab(&chrome, "chrome", None).as_deref(), Some("proc:Chrome:5"));
}

#[test]
fn pick_login_tab_never_falls_back_to_agent_profile() {
    let only_agent = vec![tab("proc:Microsoft_Edge:11", "Microsoft Edge", Some("agent"), true)];
    assert_eq!(pick_login_tab(&only_agent, "auto", None), None);
    assert_eq!(pick_login_tab(&only_agent, "edge", None), None);
    assert_eq!(
        pick_login_tab(&only_agent, "edge", Some("proc:Microsoft_Edge:11")).as_deref(),
        Some("proc:Microsoft_Edge:11")
    );
    assert_eq!(
        vcu_server::api::session_start_tab(&only_agent, "auto", None).as_deref(),
        Some("proc:Microsoft_Edge:11")
    );
}
