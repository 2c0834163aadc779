use vcu_server::api::{user_extension_ready, user_tabs_ready};
use vcu_server::api::{require_auth, require_extension_origin, require_loopback};
use vcu_server::api::{
    check_tab_writable, choose_observe_tab, default_app_budget, default_backend, default_browser, default_budget,
    default_extract_selector, default_mode, default_scroll_dy, default_wait, default_wait_ms, desktop_tab_ids_equiv,
    extract_has_text, find_extension_tab, focused_extension_tab, kind_from_frontmost, lens_app_id, login_user_app_id,
    observation_kind, parse_observe_browser, parse_surface, plan_browser_click, plan_browser_observe,
    plan_browser_scroll, plan_browser_type, plan_login_wait, plan_snapshot_vision, proc_app_id, resolve_session_tab,
    session_start_tab, session_vision_policy, snapshot_source, stamp_vision_handoff, wait_budget_ms, ClickAsk,
    ClickRoute, ExtractMatch, LensTab, ObserveRoute, ScrollRoute, StartSessionReq, SurfaceKind, TypeRoute,
    VisionPolicy, VisionService, VisionStep, WaitRoute,
};
use vcu_server::error::ErrorCode;
use vcu_server::login_state::{BrowserProc, LastObserve, LoginBrowserReport, TabInfo};

fn lens(id: &str, browser: &str, active: bool) -> LensTab {
    LensTab {
        tab_id: Some(id.into()),
        browser: Some(browser.into()),
        url: Some(format!("https://{id}.example")),
        title: Some(id.into()),
        active,
        focused: false,
    }
}

fn tab(id: &str, owned: bool) -> TabInfo {
    TabInfo {
        tab_id: id.into(),
        window_id: "w".into(),
        title: id.into(),
        url: "app://x".into(),
        agent_owned: owned,
        borrowed_by: None,
        login_state: None,
        browser_profile: None,
    }
}

fn proc_(name: &str, pid: i32) -> BrowserProc {
    BrowserProc { pid, name: name.into(), profile: "user".into(), command_excerpt: name.into() }
}

fn login(users: Vec<BrowserProc>) -> LoginBrowserReport {
    LoginBrowserReport {
        preferred_path: "desktop_user_window",
        user_browsers: users,
        agent_browsers: vec![],
        cdp_listening: false,
        cdp_note: String::new(),
        extension_profile: "none",
        automation_infobar: false,
        allow_dialog_visible: false,
        cdp_handshake: "down",
        host_vision: "h",
        never: vec![],
        lens_copied: false,
        lens_dir: String::new(),
        next_action: String::new(),
        never_click_allow: true,
        never_os_cursor: true,
        never_wechat: true,
        frontmost_app: None,
    }
}

fn click(selector: Option<&str>, px: bool, py: bool) -> ClickAsk {
    ClickAsk {
        space: None,
        has_capture_id: false,
        selector: selector.map(|s| s.to_string()),
        has_pixel_x: px,
        has_pixel_y: py,
        has_tab_id: false,
        dry_run: false,
    }
}

#[test]
fn stamp_vision_handoff_lists_pngs() {
    let paths = vec![Some("/tmp/a.png".to_string()), Some("/tmp/b.png".to_string()), None, Some("/tmp/b.png".to_string()), None, None];
    let h = stamp_vision_handoff(&paths).unwrap();
    let s: Vec<&str> = h.must_view.iter().map(|p| p.as_str()).collect();
    assert!(s.contains(&"/tmp/a.png"));
    assert!(s.contains(&"/tmp/b.png"));
    assert_eq!(s.iter().filter(|p| **p == "/tmp/b.png").count(), 1);
    assert!(h.serial);
    assert!(h.rule.contains("same turn"));
}

#[test]
fn stamp_vision_handoff_skips_empty() {
    assert!(stamp_vision_handoff(&[None, None, None, None, None, None]).is_none());
    assert!(stamp_vision_handoff(&[Some(String::new()), None]).is_none());
}

#[test]
fn request_defaults() {
    assert_eq!(default_browser(), "auto");
    assert_eq!(default_backend(), "mock");
    assert_eq!(default_scroll_dy(), 600);
    assert_eq!(default_wait_ms(), 200);
    assert_eq!(default_extract_selector(), "a");
    assert_eq!(default_mode(), "a11y");
    assert_eq!(default_budget(), 4000);
    assert_eq!(default_wait(), 5000);
    assert_eq!(default_app_budget(), 4000);
    let req = StartSessionReq::with_defaults();
    assert_eq!(req.browser, "auto");
    assert_eq!(req.backend, "mock");
}

#[test]
fn surfaces_follow_request_then_backend() {
    let mut req = StartSessionReq::with_defaults();
    assert_eq!(parse_surface(&req).unwrap(), SurfaceKind::BrowserAgent);
    req.backend = "desktop".into();
    assert_eq!(parse_surface(&req).unwrap(), SurfaceKind::Desktop);
    req.surface = Some("browser_agent".into());
    assert_eq!(parse_surface(&req).unwrap(), SurfaceKind::BrowserAgent);
    req.surface = Some("moon".into());
    let e = parse_surface(&req).unwrap_err();
    assert_eq!(e.code(), ErrorCode::InvalidInput);
    assert_eq!(e.message(), "unknown surface: moon (desktop|browser_agent)");
}

#[test]
fn desktop_tab_ids_match_by_case_or_pid() {
    assert!(desktop_tab_ids_equiv("win:Notepad:9", "win:notepad:9"));
    assert!(desktop_tab_ids_equiv("win:Notepad:9", "win:Other:9"));
    assert!(!desktop_tab_ids_equiv("win:Notepad:9", "win:notepad:8"));
    assert!(!desktop_tab_ids_equiv("proc:A:9", "proc:B:9"));
    assert!(!desktop_tab_ids_equiv("win:a:x9", "win:b:x9"));
}

#[test]
fn observe_browser_names_and_frontmost_kind() {
    assert_eq!(parse_observe_browser(None).unwrap(), None);
    assert_eq!(parse_observe_browser(Some("  ")).unwrap(), None);
    assert_eq!(parse_observe_browser(Some(" Google Chrome ")).unwrap(), Some("chrome"));
    assert_eq!(parse_observe_browser(Some("EDGE")).unwrap(), Some("edge"));
    assert_eq!(parse_observe_browser(Some("safari")).unwrap_err().code(), ErrorCode::InvalidInput);
    assert_eq!(kind_from_frontmost(Some("Microsoft Edge")), Some("edge"));
    assert_eq!(kind_from_frontmost(Some("Google Chrome")), Some("chrome"));
    assert_eq!(kind_from_frontmost(Some("Finder")), None);
    assert_eq!(kind_from_frontmost(None), None);
}

#[test]
fn lens_tabs_found_by_id_and_kind() {
    let tabs = vec![lens("7", "chrome", false), lens("7", "edge", true), lens("8", "edge", false)];
    assert_eq!(find_extension_tab(&tabs, "7", None).unwrap_err().code(), ErrorCode::InvalidInput);
    assert_eq!(find_extension_tab(&tabs, "7", Some("edge")).unwrap(), 1);
    assert_eq!(find_extension_tab(&tabs, "9", None).unwrap_err().message(), "tab not found");
    assert_eq!(focused_extension_tab(&tabs, Some("edge")), Some(1));
    assert_eq!(focused_extension_tab(&tabs, Some("chrome")), Some(0));
    assert_eq!(focused_extension_tab(&tabs, None), Some(1));
    let pick = choose_observe_tab(&tabs, Some(" 8 "), None, None).unwrap();
    assert_eq!(pick.index, 2);
    assert_eq!(pick.kind, Some("edge"));
    assert_eq!(pick.tab_id, "8");
    assert!(pick.select_first);
    let front = choose_observe_tab(&tabs, None, None, Some("Microsoft Edge")).unwrap();
    assert_eq!(front.index, 1);
    assert!(!front.select_first);
    assert_eq!(choose_observe_tab(&tabs, None, None, Some("Finder")).unwrap_err().code(), ErrorCode::InvalidInput);
    assert_eq!(choose_observe_tab(&tabs, None, None, Some("Chrome")).unwrap_err().code(), ErrorCode::ActionFailed);
    assert_eq!(choose_observe_tab(&tabs, None, Some("chrome"), None).unwrap().index, 0);
}

#[test]
fn app_ids_for_login_state() {
    assert_eq!(proc_app_id("Microsoft Edge", 10), "proc:Microsoft_Edge:10");
    let users = vec![proc_("Google Chrome", 3), proc_("Microsoft Edge", 10)];
    assert_eq!(lens_app_id(&users, Some("edge")), "proc:Microsoft_Edge:10");
    assert_eq!(lens_app_id(&users, Some("chrome")), "proc:Google_Chrome:3");
    assert_eq!(lens_app_id(&[], Some("edge")), "proc:edge:lens");
    assert_eq!(lens_app_id(&[], None), "proc:Chrome:lens");
    let report = login(users);
    assert_eq!(login_user_app_id(&report, None, None, 0).unwrap(), "proc:Google_Chrome:3");
    assert_eq!(login_user_app_id(&report, Some(" proc:X:1 "), None, 0).unwrap(), "proc:X:1");
    let last = LastObserve { app_id: "proc:Microsoft_Edge:10".into(), tab_id: None, at_ms: 1_000 };
    assert_eq!(login_user_app_id(&report, None, Some(&last), 2_000).unwrap(), "proc:Microsoft_Edge:10");
    let e = login_user_app_id(&login(vec![]), None, None, 0).unwrap_err();
    assert_eq!(e.code(), ErrorCode::ActionFailed);
}

#[test]
fn click_type_scroll_routes() {
    let mut viewport = click(None, false, false);
    viewport.space = Some("viewport".into());
    viewport.has_capture_id = true;
    assert_eq!(plan_browser_click(&viewport, true, false, false).unwrap(), ClickRoute::Viewport);
    let mut cap = click(None, true, true);
    cap.has_capture_id = true;
    assert_eq!(plan_browser_click(&cap, false, true, true).unwrap_err().message(), "capture_id requires space=viewport");
    assert_eq!(
        plan_browser_click(&click(Some("#a"), true, false), false, true, true).unwrap_err().message(),
        "choose selector or screenshot pixels, not both"
    );
    let mut tabbed = click(None, true, true);
    tabbed.has_tab_id = true;
    assert_eq!(plan_browser_click(&tabbed, false, true, true).unwrap_err().code(), ErrorCode::InvalidInput);
    assert_eq!(plan_browser_click(&click(Some("#a"), false, false), true, true, true).unwrap_err().code(), ErrorCode::FocusPolicyViolation);
    assert_eq!(plan_browser_click(&click(Some("#a"), false, false), false, false, true).unwrap_err().code(), ErrorCode::ExtensionDisconnected);
    assert_eq!(plan_browser_click(&click(Some("#a"), false, false), false, true, false).unwrap_err().code(), ErrorCode::ActionFailed);
    assert_eq!(plan_browser_click(&click(Some("#a"), false, false), false, true, true).unwrap(), ClickRoute::Selector);
    assert_eq!(plan_browser_click(&click(Some(""), false, false), false, true, true).unwrap_err().message(), "pixel_x required");
    assert_eq!(plan_browser_click(&click(None, true, false), false, true, true).unwrap_err().message(), "pixel_y required");
    assert_eq!(plan_browser_click(&click(None, true, true), false, false, false).unwrap(), ClickRoute::Pixel);
    assert_eq!(plan_browser_type(Some("#q"), false, false, false, true, true).unwrap(), TypeRoute::Selector);
    assert_eq!(plan_browser_type(None, true, false, false, true, true).unwrap_err().code(), ErrorCode::InvalidInput);
    assert_eq!(plan_browser_type(None, false, true, true, false, false).unwrap(), TypeRoute::AddressBar);
    assert_eq!(plan_browser_scroll(false, true, true, false).unwrap_err().code(), ErrorCode::FocusPolicyViolation);
    assert_eq!(plan_browser_scroll(false, false, true, true).unwrap(), ScrollRoute::Lens);
    assert_eq!(plan_browser_scroll(true, false, false, true).unwrap_err().code(), ErrorCode::ExtensionDisconnected);
    assert_eq!(plan_browser_scroll(true, true, false, false).unwrap(), ScrollRoute::DryRun);
    assert_eq!(plan_browser_scroll(false, false, false, false).unwrap(), ScrollRoute::Window);
}

#[test]
fn waits_and_extract_text() {
    assert_eq!(wait_budget_ms(20_000), 8000);
    assert_eq!(wait_budget_ms(150), 150);
    let ms = vec![
        ExtractMatch { text: Some("Hello ".into()), value: Some("world".into()) },
        ExtractMatch { text: None, value: None },
    ];
    assert!(extract_has_text(Some(&ms), None));
    assert!(extract_has_text(Some(&ms), Some("  ")));
    assert!(extract_has_text(Some(&ms), Some(" o w")));
    assert!(!extract_has_text(Some(&ms), Some("planet")));
    assert!(!extract_has_text(Some(&[]), None));
    assert!(!extract_has_text(None, None));
    assert_eq!(plan_login_wait(Some("AXWebArea"), false, false), WaitRoute::WebviewFast);
    assert_eq!(plan_login_wait(None, false, false), WaitRoute::Sleep);
    assert_eq!(plan_login_wait(Some("button"), false, false), WaitRoute::Poll);
    assert_eq!(plan_login_wait(None, true, false), WaitRoute::Poll);
}

#[test]
fn snapshot_vision_and_sources() {
    assert!(VisionService::should_use_vision(VisionPolicy::DomOnly, true, false).unwrap());
    assert!(!VisionService::should_use_vision(VisionPolicy::DomOnly, false, true).unwrap());
    assert!(VisionService::should_use_vision(VisionPolicy::DomFirst, false, true).unwrap());
    assert!(!VisionService::should_use_vision(VisionPolicy::DomFirst, false, false).unwrap());
    assert!(VisionService::should_use_vision(VisionPolicy::VisionFirst, false, false).unwrap());
    assert_eq!(plan_snapshot_vision(VisionPolicy::DomOnly, true, false, true, true).unwrap_err().code(), ErrorCode::VisionProviderRequired);
    assert_eq!(plan_snapshot_vision(VisionPolicy::DomFirst, false, true, true, true).unwrap(), VisionStep::Describe);
    assert_eq!(plan_snapshot_vision(VisionPolicy::DomFirst, false, true, true, false).unwrap(), VisionStep::Skip);
    assert_eq!(plan_snapshot_vision(VisionPolicy::VisionAlways, false, false, true, false).unwrap_err().code(), ErrorCode::VisionCallFailed);
    assert_eq!(plan_snapshot_vision(VisionPolicy::VisionFirst, false, false, false, true).unwrap(), VisionStep::ModelError);
    assert_eq!(plan_snapshot_vision(VisionPolicy::DomFirst, false, true, false, true).unwrap(), VisionStep::Skip);
    assert_eq!(observation_kind(SurfaceKind::Desktop), "desktop.scene");
    assert_eq!(observation_kind(SurfaceKind::BrowserAgent), "browser.snapshot");
    assert_eq!(snapshot_source(SurfaceKind::Desktop, "windows", false), "uia_scene");
    assert_eq!(snapshot_source(SurfaceKind::Desktop, "macos", false), "ax_scene");
    assert_eq!(snapshot_source(SurfaceKind::BrowserAgent, "macos", true), "extension_dom");
    assert_eq!(snapshot_source(SurfaceKind::BrowserAgent, "macos", false), "mock");
    assert_eq!(
        VisionService::mock_description("m1", 68, "Reply with the single word: pong"),
        "mock-vision: model=m1 bytes=68 prompt_chars=32"
    );
    assert_eq!(VisionService::api_key("K", None).unwrap_err().message(), "env K not set");
    assert_eq!(VisionService::api_key("K", Some("  ")).unwrap_err().message(), "K is empty");
    assert_eq!(VisionService::api_key("K", Some("sk")).unwrap(), "sk");
    assert_eq!(VisionService::reply_content(Some("ok")).unwrap(), "ok");
    assert_eq!(VisionService::reply_content(Some("")).unwrap_err().code(), ErrorCode::VisionCallFailed);
    assert_eq!(VisionPolicy::parse("vision_first"), Some(VisionPolicy::VisionFirst));
    assert_eq!(session_vision_policy(Some("nope"), VisionPolicy::DomFirst), VisionPolicy::DomFirst);
    assert_eq!(session_vision_policy(Some("dom_only"), VisionPolicy::DomFirst), VisionPolicy::DomOnly);
}

#[test]
fn session_tabs() {
    let tabs = vec![tab("u1", false), tab("a1", true), tab("a2", true)];
    assert_eq!(resolve_session_tab(Some("x"), None, &tabs).unwrap(), "x");
    assert_eq!(resolve_session_tab(None, Some("a2"), &tabs).unwrap(), "a2");
    assert_eq!(resolve_session_tab(None, Some("gone"), &tabs).unwrap(), "a1");
    assert_eq!(resolve_session_tab(None, None, &[tab("u1", false)]).unwrap(), "u1");
    assert_eq!(resolve_session_tab(None, None, &[]).unwrap_err().code(), ErrorCode::TabNotFound);
    assert!(check_tab_writable(&tabs, "a1", true, false).is_ok());
    assert_eq!(check_tab_writable(&tabs, "u1", true, false).unwrap_err().code(), ErrorCode::BorrowRequired);
    assert!(check_tab_writable(&tabs, "u1", true, true).is_ok());
    assert!(check_tab_writable(&tabs, "u1", false, false).is_ok());
    assert_eq!(check_tab_writable(&tabs, "zz", false, false).unwrap_err().message(), "tab zz");
    assert_eq!(session_start_tab(&tabs, "auto", None).as_deref(), Some("a1"));
    assert_eq!(session_start_tab(&[tab("u1", false)], "auto", None).as_deref(), Some("u1"));
    assert_eq!(session_start_tab(&[], "auto", None), None);
}

#[test]
fn observe_routes() {
    assert_eq!(plan_browser_observe(Some("5"), None, true, false).unwrap(), ObserveRoute::LensTab { tab: "5".into() });
    assert_eq!(plan_browser_observe(Some("5"), None, false, false).unwrap_err().code(), ErrorCode::ExtensionDisconnected);
    assert_eq!(plan_browser_observe(None, Some(" proc:A:1 "), true, true).unwrap(), ObserveRoute::Window { id: "proc:A:1".into() });
    assert_eq!(plan_browser_observe(None, None, true, true).unwrap(), ObserveRoute::LensThenWindows);
    assert_eq!(plan_browser_observe(None, Some(" "), true, true).unwrap_err().code(), ErrorCode::ActionFailed);
    assert_eq!(plan_browser_observe(None, None, false, false).unwrap(), ObserveRoute::Windows);
}

#[test]
fn daemon_auth_checks() {
    assert!(require_auth(Some("tok"), "tok").is_ok());
    let e = require_auth(Some("bad"), "tok").unwrap_err();
    assert_eq!((e.code(), e.message()), (ErrorCode::DaemonAuthFailed, "missing or invalid X-Vcu-Token"));
    assert!(require_auth(None, "tok").is_err());
    assert!(require_auth(None, "").is_ok());
    assert!(require_loopback(true).is_ok());
    assert_eq!(require_loopback(false).unwrap_err().message(), "extension bootstrap is only allowed from loopback");
    assert!(require_extension_origin(None).is_ok());
    assert!(require_extension_origin(Some("chrome-extension://abc")).is_ok());
    assert!(require_extension_origin(Some("moz-extension://x")).is_ok());
    assert!(require_extension_origin(Some("safari-web-extension://x")).is_ok());
    assert_eq!(
        require_extension_origin(Some("https://evil.test")).unwrap_err().message(),
        "extension bootstrap origin is not a browser extension"
    );
}

#[test]
fn user_extension_gates() {
    assert!(user_extension_ready(true, true).is_ok());
    let e = user_extension_ready(false, true).unwrap_err();
    assert_eq!((e.code(), e.message()), (ErrorCode::ExtensionDisconnected, "USER browser extension is not polling"));
    assert_eq!(user_extension_ready(true, false).unwrap_err().message(), "USER browser extension required");
    assert_eq!(
        user_tabs_ready(true, false).unwrap_err().message(),
        "extension_profile is not user; refusing Agent browser operation"
    );
    assert!(user_tabs_ready(true, true).is_ok());
}
