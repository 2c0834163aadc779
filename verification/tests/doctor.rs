use vcu_server::doctor::{
    app_backend_check, doctor_checks, dual_browser_lens_check, extension_bridge_check, login_browser_check,
    scene_webview_crop_check, stage_helper_check, windows_desktop_scope_check, BridgeProbe, ConfigSummary,
    DoctorProbe, MacosProbe,
};
use vcu_server::login_state::{BrowserProc, LoginBrowserReport};

fn report(users: Vec<BrowserProc>, agents: Vec<BrowserProc>) -> LoginBrowserReport {
    LoginBrowserReport {
        preferred_path: "desktop_user_window",
        user_browsers: users,
        agent_browsers: agents,
        cdp_listening: true,
        cdp_note: "x".into(),
        extension_profile: "agent",
        automation_infobar: true,
        allow_dialog_visible: false,
        cdp_handshake: "listening_may_block",
        host_vision: "h",
        never: vec![],
        lens_copied: true,
        lens_dir: "/tmp/lens".into(),
        next_action: "x".into(),
        never_click_allow: true,
        never_os_cursor: true,
        never_wechat: true,
        frontmost_app: None,
    }
}

fn edge_user() -> BrowserProc {
    BrowserProc {
        pid: 10,
        name: "Microsoft Edge".into(),
        profile: "user".into(),
        command_excerpt: "Microsoft Edge".into(),
    }
}

#[test]
fn dual_browser_lens_warns_when_only_one_polls() {
    let c = dual_browser_lens_check(true, true, &["edge".into()]);
    assert_eq!(c.name, "lens_dual_browser");
    assert_eq!(c.status, "warn");
    assert!(c.detail.contains("edge"), "{}", c.detail);
    assert!(c.hint.unwrap().contains("Never click Allow"));
    let p = dual_browser_lens_check(true, true, &["chrome".into(), "edge".into()]);
    assert_eq!(p.status, "pass");
    assert!(p.detail.contains("chrome+edge"));
    let one = dual_browser_lens_check(false, true, &["edge".into()]);
    assert_eq!(one.status, "pass");
}

#[test]
fn stage_helper_is_optional_off_macos() {
    let c = stage_helper_check(None, "linux");
    assert_eq!(c.name, "stage_helper");
    assert_eq!(c.status, "pass");
    assert!(c.detail.contains("macOS-only"));
    let w = stage_helper_check(None, "windows");
    assert_eq!(w.status, "pass");
    assert!(w.detail.contains("WinForms"), "{}", w.detail);
    assert!(!w.detail.contains("omit the helper"), "{}", w.detail);
}

#[test]
fn windows_app_backend_names_honest_paths_not_ax() {
    let w = app_backend_check("windows");
    assert_eq!(w.name, "app_backend");
    assert!(w.detail.contains("wm_settext"), "{}", w.detail);
    assert!(w.detail.contains("bm_click"), "{}", w.detail);
    assert!(w.detail.contains("clipboard_paste"), "{}", w.detail);
    assert!(!w.detail.contains("AXPress"), "{}", w.detail);
    let hint = w.hint.unwrap();
    assert!(hint.contains("Not product Windows CU"), "{hint}");
    assert!(hint.contains("No SendInput"), "{hint}");
    let m = app_backend_check("macos");
    assert!(m.hint.unwrap().contains("AXPress"));
}

#[test]
fn windows_desktop_scope_warns_not_product() {
    assert!(windows_desktop_scope_check("macos").is_none());
    let c = windows_desktop_scope_check("windows").unwrap();
    assert_eq!(c.name, "windows_desktop_scope");
    assert_eq!(c.status, "warn");
    assert!(c.detail.contains("Not a product Windows"), "{}", c.detail);
    assert!(!c.detail.contains("AXPress"));
}

#[test]
fn stage_helper_warns_when_missing_on_macos() {
    let c = stage_helper_check(None, "macos");
    assert_eq!(c.status, "warn");
    assert!(c.detail.contains("JXA"));
}

#[test]
fn stage_helper_passes_when_found_on_macos() {
    let c = stage_helper_check(Some("/usr/local/bin/vcu-stage"), "macos");
    assert_eq!(c.status, "pass");
    assert!(c.detail.contains("vcu-stage"));
}

#[test]
fn accessibility_repair_is_settings_hint_not_tcc_or_allow() {
    let w = scene_webview_crop_check(false, false);
    let hint = w.hint.unwrap();
    assert!(hint.contains("系统设置"), "{hint}");
    assert!(hint.contains("不要点") || hint.to_ascii_lowercase().contains("do not click"), "{hint}");
    assert!(!hint.contains("tccutil"), "{hint}");
    assert!(!hint.contains("x-apple.systempreferences"), "{hint}");
}

#[test]
fn scene_webview_crop_pass_when_ax_and_recording() {
    let c = scene_webview_crop_check(true, true);
    assert_eq!(c.name, "scene_webview_crop");
    assert_eq!(c.status, "pass");
    assert!(c.detail.contains("webview crop"));
    let w = scene_webview_crop_check(true, false);
    assert_eq!(w.status, "warn");
    let w = scene_webview_crop_check(false, true);
    assert_eq!(w.status, "warn");
}

#[test]
fn login_browser_pass_when_user_edge() {
    let r = report(vec![edge_user()], vec![]);
    let c = login_browser_check(&r);
    assert_eq!(c.name, "login_browser");
    assert_eq!(c.status, "pass");
    assert!(c.detail.contains("user browser"));
}

#[test]
fn login_browser_detail_lists_pids_and_flags() {
    let r = report(vec![edge_user()], vec![]);
    let c = login_browser_check(&r);
    assert_eq!(
        c.detail,
        "user browser login-state via desktop surface (Microsoft Edge:10); agent_profile=0 cdp_9222=true handshake=listening_may_block infobar=true allow_dialog=false"
    );
    assert_eq!(c.hint.as_deref(), Some("x"));
    let agent_only = report(vec![], vec![edge_user()]);
    let a = login_browser_check(&agent_only);
    assert_eq!(a.status, "warn");
    assert!(a.detail.ends_with("cdp_9222=true"));
    let none = login_browser_check(&report(vec![], vec![]));
    assert!(none.detail.starts_with("no Chrome/Edge main process"));
}

#[test]
fn extension_bridge_states() {
    let b = extension_bridge_check(true, true, "user", &["chrome".into(), "edge".into()]);
    assert_eq!(b.status, "pass");
    assert!(b.detail.ends_with("browsers=chrome,edge"));
    let u = extension_bridge_check(true, true, "user", &[]);
    assert!(u.detail.ends_with("browsers=unknown"));
    assert_eq!(extension_bridge_check(true, true, "agent", &[]).status, "warn");
    assert!(extension_bridge_check(false, true, "none", &[]).detail.contains("MV3"));
    assert!(extension_bridge_check(false, false, "none", &[]).hint.is_some());
}

#[test]
fn doctor_report_passes_only_with_dir_config_and_daemon() {
    let probe = DoctorProbe {
        user_dir: "/home/u/.vcu".into(),
        user_dir_exists: true,
        config: Some(ConfigSummary {
            daemon_port: 7733,
            vision_policy: "DomFirst".into(),
            models: 0,
            default_vision_model: "None".into(),
            cdp_url: Some("http://127.0.0.1:9222".into()),
        }),
        live: None,
        daemon: Ok((true, Some("http://127.0.0.1:7733".into()))),
        macos: Some(MacosProbe { ax_ok: true, screen_recording: false, chrome: false, edge: true }),
        stage_found: None,
        os: "macos".into(),
        login: report(vec![edge_user()], vec![]),
    };
    let (ok, checks) = doctor_checks(&probe);
    assert!(ok);
    let names: Vec<&str> = checks.iter().map(|c| c.name.as_str()).collect();
    assert_eq!(
        names,
        vec![
            "user_dir",
            "config",
            "vision_model",
            "daemon",
            "cdp_endpoint",
            "cdp_url_legacy",
            "macos_accessibility",
            "scene_webview_crop",
            "macos_screen_recording",
            "browsers_installed",
            "stage_helper",
            "app_backend",
            "os_cursor_policy",
            "login_browser",
        ]
    );
    assert_eq!(checks[1].detail, "port=7733 vision_policy=DomFirst models=0");
    assert_eq!(checks[2].status, "warn");
    assert_eq!(checks[9].detail, "chrome=false edge=true");
    let down = DoctorProbe { daemon: Ok((false, None)), ..probe };
    let (ok, checks) = doctor_checks(&down);
    assert!(!ok);
    assert_eq!(checks[3].detail, "not running");
    assert_eq!(checks[3].status, "fail");
}

#[test]
fn doctor_inside_daemon_uses_bridge_profile() {
    let probe = DoctorProbe {
        user_dir: "/d".into(),
        user_dir_exists: false,
        config: None,
        live: Some(BridgeProbe {
            version: "0.1.0".into(),
            connected: true,
            polling: true,
            likely_user_profile: true,
            active_browsers: vec!["edge".into()],
            chrome_app: true,
            edge_app: true,
        }),
        daemon: Err("unused".into()),
        macos: None,
        stage_found: None,
        os: "windows".into(),
        login: report(vec![], vec![]),
    };
    let (ok, checks) = doctor_checks(&probe);
    assert!(!ok);
    assert_eq!(checks[0].detail, "/d missing");
    assert_eq!(checks[1].status, "fail");
    assert_eq!(checks[2].detail, "in-process version 0.1.0");
    assert_eq!(checks[3].status, "pass");
    assert_eq!(checks[4].status, "warn");
    assert!(checks.iter().any(|c| c.name == "windows_desktop_scope"));
    let last = checks.last().unwrap();
    assert_eq!(last.name, "login_browser");
    assert_ne!(last.hint.as_deref(), Some("x"));
}
