//! The `doctor` health report: every check it prints, in order, and whether the install
//! passes. Probing (files, processes, HTTP) happens outside; the report is a function of
//! what the probes found.
use vstd::prelude::*;
use crate::login_state::{
    login_next_action, next_action_of, opt_string_view, opt_view, BrowserProc, LoginBrowserReport,
};
use crate::text::{bool_str, bool_text, cat, decimal, eq_ignore_case, i32_string, nat_decimal, owned, same_ignore_case, u64_string, chars_of};

verus! {

broadcast use vstd::string::group_string_axioms;

/// One line of the report: what was checked, `pass`/`warn`/`fail`, what was seen and
/// what to do about it.
#[derive(Debug, Clone)]
pub struct DoctorCheck {
    pub name: String,
    pub status: String,
    pub detail: String,
    pub hint: Option<String>,
}

/// A check as plain text: name, status, detail, hint.
pub open spec fn check_view(c: DoctorCheck) -> (Seq<char>, Seq<char>, Seq<char>, Option<Seq<char>>) {
    (c.name@, c.status@, c.detail@, opt_string_view(c.hint))
}

pub open spec fn check_views(v: Seq<DoctorCheck>) -> Seq<(Seq<char>, Seq<char>, Seq<char>, Option<Seq<char>>)> {
    v.map_values(|c: DoctorCheck| check_view(c))
}

fn check(name: &str, status: &str, detail: String, hint: Option<&str>) -> (c: DoctorCheck)
    ensures
        check_view(c) == (name@, status@, detail@, opt_view(hint)),
{
    let hint = match hint {
        Some(h) => Some(owned(h)),
        None => None,
    };
    DoctorCheck { name: owned(name), status: owned(status), detail, hint }
}

fn push_check(checks: &mut Vec<DoctorCheck>, c: DoctorCheck)
    ensures
        check_views(final(checks)@) == check_views(old(checks)@).push(check_view(c)),
{
    let ghost before = checks@;
    checks.push(c);
    assert(check_views(checks@) =~= check_views(before).push(check_view(c)));
}

// ---------------------------------------------------------------------------
// Scene, login browser and lens checks
// ---------------------------------------------------------------------------

pub const CROP_READY_DETAIL: &'static str = "AX + Screen Recording — screenshot/snapshot can attach webview crop (messenger pane)";
pub const CROP_READY_HINT: &'static str = "MCP vcu_screenshot/vcu_snapshot pass tab_id; mode=full or app snapshot --pixels. App snapshot does not raise HUD.";
pub const CROP_MISSING_DETAIL: &'static str = "webview crop needs Accessibility and Screen Recording; AX-only Scene still works";
pub const CROP_MISSING_HINT: &'static str = "系统设置 → 隐私与安全：辅助功能 + 屏幕录制给 vcu-daemon/终端；不要点 Edge Allow debugging";

/// Webview cropping needs both Accessibility and Screen Recording.
pub open spec fn crop_check_of(ax_ok: bool, rec: bool) -> (Seq<char>, Seq<char>, Seq<char>, Option<Seq<char>>) {
    if ax_ok && rec {
        ("scene_webview_crop"@, "pass"@, CROP_READY_DETAIL@, Some(CROP_READY_HINT@))
    } else {
        ("scene_webview_crop"@, "warn"@, CROP_MISSING_DETAIL@, Some(CROP_MISSING_HINT@))
    }
}

pub fn scene_webview_crop_check(ax_ok: bool, rec: bool) -> (c: DoctorCheck)
    ensures
        check_view(c) == crop_check_of(ax_ok, rec),
{
    if ax_ok && rec {
        check("scene_webview_crop", "pass", owned(CROP_READY_DETAIL), Some(CROP_READY_HINT))
    } else {
        check("scene_webview_crop", "warn", owned(CROP_MISSING_DETAIL), Some(CROP_MISSING_HINT))
    }
}

/// `name:pid` of a browser process.
pub open spec fn proc_label(b: BrowserProc) -> Seq<char> {
    b.name@ + ":"@ + decimal(b.pid as int)
}

/// The labels of `procs` joined by commas.
pub open spec fn proc_labels(procs: Seq<BrowserProc>) -> Seq<char>
    decreases procs.len(),
{
    if procs.len() == 0 {
        Seq::empty()
    } else if procs.len() == 1 {
        proc_label(procs[0])
    } else {
        proc_labels(procs.drop_last()) + ","@ + proc_label(procs.last())
    }
}

/// Text items joined by `sep`.
pub open spec fn joined(items: Seq<Seq<char>>, sep: Seq<char>) -> Seq<char>
    decreases items.len(),
{
    if items.len() == 0 {
        Seq::empty()
    } else if items.len() == 1 {
        items[0]
    } else {
        joined(items.drop_last(), sep) + sep + items.last()
    }
}

pub open spec fn string_views(v: Seq<String>) -> Seq<Seq<char>> {
    v.map_values(|s: String| s@)
}

pub const LOGIN_USER_HEAD: &'static str = "user browser login-state via desktop surface (";
pub const LOGIN_AGENT_HEAD: &'static str = "only empty Agent Edge (no user cookies). Start desktop on the user Edge window. cdp_9222=";
pub const LOGIN_NONE_DETAIL: &'static str = "no Chrome/Edge main process. Login-state needs the user browser window.";

/// The login-browser check: a user browser passes; only an agent profile, or nothing,
/// warns. The hint is always the report's next action.
pub open spec fn login_check_of(r: LoginBrowserReport) -> (Seq<char>, Seq<char>, Seq<char>, Option<Seq<char>>) {
    login_check_with(r, r.next_action@)
}

/// The login-browser check of a report whose next action reads `next_action`.
pub open spec fn login_check_with(r: LoginBrowserReport, next_action: Seq<char>) -> (
    Seq<char>,
    Seq<char>,
    Seq<char>,
    Option<Seq<char>>,
) {
    let detail = if r.user_browsers@.len() > 0 {
        LOGIN_USER_HEAD@ + proc_labels(r.user_browsers@) + "); agent_profile="@ + decimal(
            r.agent_browsers@.len() as int,
        ) + " cdp_9222="@ + bool_text(r.cdp_listening) + " handshake="@ + r.cdp_handshake@
            + " infobar="@ + bool_text(r.automation_infobar) + " allow_dialog="@ + bool_text(
            r.allow_dialog_visible,
        )
    } else if r.agent_browsers@.len() > 0 {
        LOGIN_AGENT_HEAD@ + bool_text(r.cdp_listening)
    } else {
        LOGIN_NONE_DETAIL@
    };
    let status = if r.user_browsers@.len() > 0 { "pass"@ } else { "warn"@ };
    ("login_browser"@, status, detail, Some(next_action))
}

fn proc_labels_string(procs: &Vec<BrowserProc>) -> (r: String)
    ensures
        r@ == proc_labels(procs@),
{
    let mut r = String::new();
    let mut i: usize = 0;
    while i < procs.len()
        invariant
            i <= procs@.len(),
            r@ == proc_labels(procs@.take(i as int)),
        decreases procs.len() - i,
    {
        let ghost before = r@;
        let b = &procs[i];
        if i > 0 {
            r = cat(r, ",");
        }
        r = cat(r, b.name.as_str());
        r = cat(r, ":");
        let pid = i32_string(b.pid);
        r = cat(r, pid.as_str());
        proof {
            reveal_strlit(",");
            reveal_strlit(":");
            let t = procs@.take(i + 1);
            assert(t.drop_last() =~= procs@.take(i as int));
            assert(t.last() == procs@[i as int]);
            if i == 0 {
                assert(t.len() == 1);
                assert(t[0] == procs@[0]);
            }
        }
        i = i + 1;
    }
    assert(procs@.take(i as int) =~= procs@);
    r
}

fn joined_strings(items: &[String], sep: &str) -> (r: String)
    ensures
        r@ == joined(string_views(items@), sep@),
{
    let mut r = String::new();
    let mut i: usize = 0;
    while i < items.len()
        invariant
            i <= items@.len(),
            r@ == joined(string_views(items@.take(i as int)), sep@),
        decreases items.len() - i,
    {
        if i > 0 {
            r = cat(r, sep);
        }
        r = cat(r, items[i].as_str());
        proof {
            let t = string_views(items@.take(i + 1));
            assert(t.drop_last() =~= string_views(items@.take(i as int)));
            assert(t.last() == items@[i as int]@);
            if i == 0 {
                assert(t.len() == 1);
            }
        }
        i = i + 1;
    }
    assert(items@.take(i as int) =~= items@);
    r
}

pub fn login_browser_check(report: &LoginBrowserReport) -> (c: DoctorCheck)
    ensures
        check_view(c) == login_check_of(*report),
{
    login_browser_check_with(report, report.next_action.as_str())
}

fn login_browser_check_with(report: &LoginBrowserReport, next_action: &str) -> (c: DoctorCheck)
    ensures
        check_view(c) == login_check_with(*report, next_action@),
{
    let user_n = report.user_browsers.len();
    let agent_n = report.agent_browsers.len();
    let (status, detail) = if user_n > 0 {
        let mut d = owned(LOGIN_USER_HEAD);
        let pids = proc_labels_string(&report.user_browsers);
        d = cat(d, pids.as_str());
        d = cat(d, "); agent_profile=");
        let n = u64_string(agent_n as u64);
        d = cat(d, n.as_str());
        d = cat(d, " cdp_9222=");
        d = cat(d, bool_str(report.cdp_listening));
        d = cat(d, " handshake=");
        d = cat(d, report.cdp_handshake);
        d = cat(d, " infobar=");
        d = cat(d, bool_str(report.automation_infobar));
        d = cat(d, " allow_dialog=");
        d = cat(d, bool_str(report.allow_dialog_visible));
        ("pass", d)
    } else if agent_n > 0 {
        ("warn", cat(owned(LOGIN_AGENT_HEAD), bool_str(report.cdp_listening)))
    } else {
        ("warn", owned(LOGIN_NONE_DETAIL))
    };
    proof {
        reveal_strlit("pass");
        reveal_strlit("warn");
    }
    check("login_browser", status, detail, Some(next_action))
}

pub const LENS_MISSING_HINT: &'static str = "Load unpacked ~/.vcu/lens-extension in the missing USER browser, then Reload. Never click Allow.";

/// Some polling browser is named `name` (ignoring ASCII case).
pub open spec fn polls(polling: Seq<String>, name: Seq<char>) -> bool {
    exists|i: int| 0 <= i < polling.len() && eq_ignore_case(#[trigger] polling[i]@, name)
}

/// With Chrome and Edge both installed, the lens should poll in both.
pub open spec fn lens_check_of(chrome_installed: bool, edge_installed: bool, polling: Seq<String>) -> (
    Seq<char>,
    Seq<char>,
    Seq<char>,
    Option<Seq<char>>,
) {
    let chrome_poll = polls(polling, "chrome"@);
    let edge_poll = polls(polling, "edge"@);
    let list = joined(string_views(polling), ","@);
    if chrome_installed && edge_installed && !(chrome_poll && edge_poll) {
        let have = if polling.len() == 0 { "none"@ } else { list };
        (
            "lens_dual_browser"@,
            "warn"@,
            "Chrome and Edge are installed but lens is polling: "@ + have,
            Some(LENS_MISSING_HINT@),
        )
    } else {
        let detail = if chrome_poll && edge_poll {
            "lens polling chrome+edge"@
        } else if polling.len() == 0 {
            "lens polling none"@
        } else {
            "lens polling "@ + list
        };
        ("lens_dual_browser"@, "pass"@, detail, None)
    }
}

fn any_polls(polling: &[String], name: &str) -> (r: bool)
    ensures
        r == polls(polling@, name@),
{
    let want = chars_of(name);
    let mut i: usize = 0;
    while i < polling.len()
        invariant
            i <= polling@.len(),
            want@ == name@,
            forall|j: int| 0 <= j < i ==> !eq_ignore_case(#[trigger] polling@[j]@, name@),
        decreases polling.len() - i,
    {
        if same_ignore_case(&chars_of(polling[i].as_str()), &want) {
            return true;
        }
        i = i + 1;
    }
    false
}

pub fn dual_browser_lens_check(chrome_installed: bool, edge_installed: bool, polling: &[String]) -> (c: DoctorCheck)
    ensures
        check_view(c) == lens_check_of(chrome_installed, edge_installed, polling@),
{
    let chrome_poll = any_polls(polling, "chrome");
    let edge_poll = any_polls(polling, "edge");
    proof {
        reveal_strlit("chrome");
        reveal_strlit("edge");
    }
    let list = joined_strings(polling, ",");
    if chrome_installed && edge_installed && !(chrome_poll && edge_poll) {
        let have = if polling.len() == 0 { owned("none") } else { list };
        return check(
            "lens_dual_browser",
            "warn",
            cat(owned("Chrome and Edge are installed but lens is polling: "), have.as_str()),
            Some(LENS_MISSING_HINT),
        );
    }
    let detail = if chrome_poll && edge_poll {
        owned("lens polling chrome+edge")
    } else if polling.len() == 0 {
        owned("lens polling none")
    } else {
        cat(owned("lens polling "), list.as_str())
    };
    check("lens_dual_browser", "pass", detail, None)
}

// ---------------------------------------------------------------------------
// Platform checks
// ---------------------------------------------------------------------------

pub const WIN_BACKEND_DETAIL: &'static str = "Windows adapter present; honest paths wm_settext / bm_click / clipboard_paste / wm_vscroll / guide_hover";
pub const WIN_BACKEND_HINT: &'static str = "CI live slices only. Not product Windows CU. Not complete Codex CU. WeChat denied. No SendInput / OS cursor.";
pub const MAC_BACKEND_HINT: &'static str = "desktop surface uses AXPress/AXSetValue; WeChat is denied; OS cursor still denied";

pub open spec fn app_backend_of(os: Seq<char>) -> (Seq<char>, Seq<char>, Seq<char>, Option<Seq<char>>) {
    if os == "windows"@ {
        ("app_backend"@, "pass"@, WIN_BACKEND_DETAIL@, Some(WIN_BACKEND_HINT@))
    } else {
        ("app_backend"@, "pass"@, "platform adapter present ("@ + os + ")"@, Some(MAC_BACKEND_HINT@))
    }
}

pub fn app_backend_check(os: &str) -> (c: DoctorCheck)
    ensures
        check_view(c) == app_backend_of(os@),
{
    if crate::text::str_eq(os, "windows") {
        return check("app_backend", "pass", owned(WIN_BACKEND_DETAIL), Some(WIN_BACKEND_HINT));
    }
    let detail = cat(cat(owned("platform adapter present ("), os), ")");
    check("app_backend", "pass", detail, Some(MAC_BACKEND_HINT))
}

pub const WIN_SCOPE_DETAIL: &'static str = "CI slices: Notepad/Explorer/cmd/PowerShell/Calculator/Settings-observe/Guide/Abort. Not a product Windows Computer Use session.";
pub const WIN_SCOPE_HINT: &'static str = "Do not claim complete Codex CU. WeChat denied. OS cursor denied.";

pub open spec fn scope_check_of(os: Seq<char>) -> Option<(Seq<char>, Seq<char>, Seq<char>, Option<Seq<char>>)> {
    if os == "windows"@ {
        Some(("windows_desktop_scope"@, "warn"@, WIN_SCOPE_DETAIL@, Some(WIN_SCOPE_HINT@)))
    } else {
        None
    }
}

pub fn windows_desktop_scope_check(os: &str) -> (c: Option<DoctorCheck>)
    ensures
        match (c, scope_check_of(os@)) {
            (Some(a), Some(b)) => check_view(a) == b,
            (None, None) => true,
            _ => false,
        },
{
    if !crate::text::str_eq(os, "windows") {
        return None;
    }
    Some(check("windows_desktop_scope", "warn", owned(WIN_SCOPE_DETAIL), Some(WIN_SCOPE_HINT)))
}

pub const STAGE_WIN_DETAIL: &'static str = "WinForms Stage HUD (not vcu-stage); abort tears down; Guide overlay; no OS cursor";
pub const STAGE_OTHER_DETAIL: &'static str = "vcu-stage is macOS-only; Linux omits the helper";
pub const STAGE_MISSING_DETAIL: &'static str = "vcu-stage not on PATH or next to vcu-daemon; desktop HUD falls back to JXA capsule";
pub const STAGE_MISSING_HINT: &'static str = "Install the macOS archive (includes vcu-stage) or run `bash scripts/build-stage.sh && cp target/release/vcu-stage ~/.local/bin/`";

/// The Stage helper is only looked for on macOS; Windows has its own HUD.
pub open spec fn stage_check_of(found: Option<Seq<char>>, os: Seq<char>) -> (
    Seq<char>,
    Seq<char>,
    Seq<char>,
    Option<Seq<char>>,
) {
    if os == "windows"@ {
        ("stage_helper"@, "pass"@, STAGE_WIN_DETAIL@, None)
    } else if os != "macos"@ {
        ("stage_helper"@, "pass"@, STAGE_OTHER_DETAIL@, None)
    } else {
        match found {
            Some(p) => ("stage_helper"@, "pass"@, "native Stage helper "@ + p, None),
            None => ("stage_helper"@, "warn"@, STAGE_MISSING_DETAIL@, Some(STAGE_MISSING_HINT@)),
        }
    }
}

/// `found` is the helper's path as displayed, when one was found.
pub fn stage_helper_check(found: Option<&str>, os: &str) -> (c: DoctorCheck)
    ensures
        check_view(c) == stage_check_of(opt_view(found), os@),
{
    if crate::text::str_eq(os, "windows") {
        return check("stage_helper", "pass", owned(STAGE_WIN_DETAIL), None);
    }
    if !crate::text::str_eq(os, "macos") {
        return check("stage_helper", "pass", owned(STAGE_OTHER_DETAIL), None);
    }
    match found {
        Some(p) => check("stage_helper", "pass", cat(owned("native Stage helper "), p), None),
        None => check("stage_helper", "warn", owned(STAGE_MISSING_DETAIL), Some(STAGE_MISSING_HINT)),
    }
}

// ---------------------------------------------------------------------------
// The whole report
// ---------------------------------------------------------------------------

/// What the config file holds, as the report prints it.
#[derive(Debug, Clone)]
pub struct ConfigSummary {
    pub daemon_port: u16,
    /// The vision policy as `{:?}` prints it.
    pub vision_policy: String,
    /// How many vision models are configured.
    pub models: u64,
    /// The default vision model as `{:?}` prints an `Option<String>`.
    pub default_vision_model: String,
    pub cdp_url: Option<String>,
}

/// What the in-process daemon knows of the extension bridge and the installed browsers.
#[derive(Debug, Clone)]
pub struct BridgeProbe {
    pub version: String,
    pub connected: bool,
    pub polling: bool,
    pub likely_user_profile: bool,
    pub active_browsers: Vec<String>,
    pub chrome_app: bool,
    pub edge_app: bool,
}

/// What the macOS probes found.
#[derive(Debug, Clone, Copy)]
pub struct MacosProbe {
    pub ax_ok: bool,
    pub screen_recording: bool,
    pub chrome: bool,
    pub edge: bool,
}

/// Everything the report is built from.
#[derive(Debug)]
pub struct DoctorProbe {
    pub user_dir: String,
    pub user_dir_exists: bool,
    pub config: Option<ConfigSummary>,
    /// Present when the report is built inside a running daemon.
    pub live: Option<BridgeProbe>,
    /// Outside a daemon: whether the probed daemon is running and its endpoint, or why
    /// probing failed.
    pub daemon: Result<(bool, Option<String>), String>,
    /// Present on macOS.
    pub macos: Option<MacosProbe>,
    pub stage_found: Option<String>,
    pub os: String,
    pub login: LoginBrowserReport,
}

pub type CheckText = (Seq<char>, Seq<char>, Seq<char>, Option<Seq<char>>);

pub const RUN_INIT: &'static str = "Run `vcu init`";
pub const RUN_DAEMON: &'static str = "Run `vcu daemon start`";
pub const NO_MODEL_DETAIL: &'static str = "no vision model configured; DOM-only mode still works";
pub const NO_MODEL_HINT: &'static str = "Optional: `vcu init model` only if the host agent has no vision. Grok/GPT-4o-class hosts can read Scene screenshots directly.";
pub const EXT_USER_HEAD: &'static str = "VCU extension polling in the USER browser (login-state DOM lens); browsers=";
pub const EXT_AGENT_DETAIL: &'static str = "extension polling on empty Agent Edge — not login-state";
pub const EXT_AGENT_HINT: &'static str = "Load ~/.local/share/vcu/extension unpacked in your USER Edge (edge://extensions) for DOM lens with cookies. Do not treat Agent Edge as logged-in.";
pub const EXT_UNKNOWN_DETAIL: &'static str = "extension polling but profile unknown";
pub const EXT_UNKNOWN_HINT: &'static str = "Prefer loading the extension in the USER Edge for login-state.";
pub const EXT_IDLE_DETAIL: &'static str = "extension hello seen but poll loop idle (MV3 SW asleep)";
pub const EXT_NONE_DETAIL: &'static str = "no extension hello yet — unpacked extension auto-pairs via POST /v1/extension/bootstrap";
pub const EXT_NONE_HINT: &'static str = "For login-state, load the unpacked extension in USER Edge, not the empty Agent profile.";
pub const CDP_DETAIL: &'static str = "CDP abandoned for login-state; use USER Edge extension extract/observe";
pub const CDP_HINT: &'static str = "Do not click Allow. Do not vcu config set-cdp for cookies/DOM.";
pub const CDP_LEGACY_HINT: &'static str = "Ignore leftover cdp_url. Prefer extension extract on the USER browser. Never click Allow.";
pub const AX_OK_DETAIL: &'static str = "System Events reachable — desktop surface can build Scene";
pub const AX_MISSING_DETAIL: &'static str = "Accessibility missing — desktop surface cannot observe real windows";
pub const AX_MISSING_HINT: &'static str = "系统设置 → 隐私与安全 → 辅助功能（一次授权给终端和 vcu-daemon；不要去点 Edge Allow debugging）";
pub const REC_OK_DETAIL: &'static str = "Screen Recording already granted — desktop Scene can attach window pixels";
pub const REC_MISSING_DETAIL: &'static str = "Screen Recording not granted to this process — Scene stays AX-only (no TCC prompt will be shown)";
pub const REC_MISSING_HINT: &'static str = "系统设置 → 隐私与安全 → 屏幕录制，勾选 vcu-daemon 和你的终端；授权后执行 `vcu daemon stop && vcu daemon start`";
pub const NO_BROWSER_HINT: &'static str = "Install Chrome or Edge for CDP/extension backends";
pub const CURSOR_DETAIL: &'static str = "browser sessions enforce os_cursor=deny";

pub open spec fn pass_or(ok: bool, other: Seq<char>) -> Seq<char> {
    if ok { "pass"@ } else { other }
}

pub open spec fn user_dir_of(exists: bool, dir: Seq<char>) -> CheckText {
    if exists {
        ("user_dir"@, "pass"@, dir, None)
    } else {
        ("user_dir"@, "fail"@, dir + " missing"@, Some(RUN_INIT@))
    }
}

pub open spec fn config_part(cfg: Option<ConfigSummary>) -> Seq<CheckText> {
    match cfg {
        Some(c) => {
            let summary = "port="@ + decimal(c.daemon_port as int) + " vision_policy="@ + c.vision_policy@
                + " models="@ + nat_decimal(c.models as nat);
            let model = if c.models == 0 {
                ("vision_model"@, "warn"@, NO_MODEL_DETAIL@, Some(NO_MODEL_HINT@))
            } else {
                ("vision_model"@, "pass"@, "default="@ + c.default_vision_model@, None)
            };
            seq![("config"@, "pass"@, summary, None), model]
        },
        None => seq![("config"@, "fail"@, "config.json unreadable"@, Some(RUN_INIT@))],
    }
}

/// The extension-bridge check: polling in the user profile passes; everything else warns.
pub open spec fn bridge_check_of(polling: bool, connected: bool, profile: Seq<char>, browsers: Seq<String>) -> CheckText {
    if polling && profile == "user"@ {
        let list = if browsers.len() == 0 { "unknown"@ } else { joined(string_views(browsers), ","@) };
        ("extension_bridge"@, "pass"@, EXT_USER_HEAD@ + list, None)
    } else if polling && profile == "agent"@ {
        ("extension_bridge"@, "warn"@, EXT_AGENT_DETAIL@, Some(EXT_AGENT_HINT@))
    } else if polling {
        ("extension_bridge"@, "warn"@, EXT_UNKNOWN_DETAIL@, Some(EXT_UNKNOWN_HINT@))
    } else if connected {
        ("extension_bridge"@, "warn"@, EXT_IDLE_DETAIL@, None)
    } else {
        ("extension_bridge"@, "warn"@, EXT_NONE_DETAIL@, Some(EXT_NONE_HINT@))
    }
}

/// The extension profile the report uses: the bridge's word that the user profile is
/// polling wins over what the process scan saw.
pub open spec fn live_profile(p: DoctorProbe) -> Seq<char> {
    match p.live {
        Some(b) => if b.likely_user_profile { "user"@ } else { p.login.extension_profile@ },
        None => p.login.extension_profile@,
    }
}

pub open spec fn daemon_part(p: DoctorProbe) -> Seq<CheckText> {
    match p.live {
        Some(b) => seq![
            ("daemon"@, "pass"@, "in-process version "@ + b.version@, None),
            bridge_check_of(b.polling, b.connected, live_profile(p), b.active_browsers@),
            lens_check_of(b.chrome_app, b.edge_app, b.active_browsers@),
        ],
        None => match p.daemon {
            Ok((running, endpoint)) => {
                let detail = match endpoint {
                    Some(e) => e@,
                    None => "not running"@,
                };
                seq![("daemon"@, pass_or(running, "fail"@), detail, if running { None } else { Some(RUN_DAEMON@) })]
            },
            Err(e) => seq![("daemon"@, "fail"@, e@, Some(RUN_DAEMON@))],
        },
    }
}

pub open spec fn cdp_part(cfg: Option<ConfigSummary>) -> Seq<CheckText> {
    let legacy = match cfg {
        Some(c) => match c.cdp_url {
            Some(url) => seq![
                (
                    "cdp_url_legacy"@,
                    "warn"@,
                    url@ + " is configured but CDP is not the login-state path"@,
                    Some(CDP_LEGACY_HINT@),
                ),
            ],
            None => Seq::empty(),
        },
        None => Seq::empty(),
    };
    seq![("cdp_endpoint"@, "pass"@, CDP_DETAIL@, Some(CDP_HINT@))] + legacy
}

pub open spec fn macos_part(m: Option<MacosProbe>) -> Seq<CheckText> {
    match m {
        Some(m) => seq![
            (
                "macos_accessibility"@,
                pass_or(m.ax_ok, "fail"@),
                if m.ax_ok { AX_OK_DETAIL@ } else { AX_MISSING_DETAIL@ },
                if m.ax_ok { None } else { Some(AX_MISSING_HINT@) },
            ),
            crop_check_of(m.ax_ok, m.screen_recording),
            (
                "macos_screen_recording"@,
                pass_or(m.screen_recording, "fail"@),
                if m.screen_recording { REC_OK_DETAIL@ } else { REC_MISSING_DETAIL@ },
                if m.screen_recording { None } else { Some(REC_MISSING_HINT@) },
            ),
            (
                "browsers_installed"@,
                pass_or(m.chrome || m.edge, "warn"@),
                "chrome="@ + bool_text(m.chrome) + " edge="@ + bool_text(m.edge),
                if m.chrome || m.edge { None } else { Some(NO_BROWSER_HINT@) },
            ),
        ],
        None => Seq::empty(),
    }
}

pub open spec fn opt_check(c: Option<CheckText>) -> Seq<CheckText> {
    match c {
        Some(x) => seq![x],
        None => Seq::empty(),
    }
}

/// The next action the report ends with: inside a daemon it is recomputed from the
/// bridge's view of the extension profile.
pub open spec fn report_next_action(p: DoctorProbe) -> Seq<char> {
    if p.live is Some {
        let prof = live_profile(p);
        next_action_of(
            p.login.user_browsers@.len() == 0 && prof != "user"@,
            p.login.lens_copied,
            prof,
            p.login.lens_dir@,
            false,
        )
    } else {
        p.login.next_action@
    }
}

/// Every check of the report, in order.
pub open spec fn doctor_checks_of(p: DoctorProbe) -> Seq<CheckText> {
    seq![user_dir_of(p.user_dir_exists, p.user_dir@)] + config_part(p.config) + daemon_part(p) + cdp_part(
        p.config,
    ) + macos_part(p.macos) + seq![stage_check_of(opt_string_view(p.stage_found), p.os@)] + seq![
        app_backend_of(p.os@),
    ] + opt_check(scope_check_of(p.os@)) + seq![("os_cursor_policy"@, "pass"@, CURSOR_DETAIL@, None)]
        + seq![login_check_with(p.login, report_next_action(p))]
}

/// The report passes when the user dir exists, the config reads and a daemon runs.
pub open spec fn doctor_ok_of(p: DoctorProbe) -> bool {
    &&& p.user_dir_exists
    &&& p.config is Some
    &&& (p.live is Some || p.daemon matches Ok((true, _)))
}

fn checks_config(checks: &mut Vec<DoctorCheck>, cfg: &Option<ConfigSummary>)
    ensures
        check_views(final(checks)@) == check_views(old(checks)@) + config_part(*cfg),
{
    let ghost before = check_views(checks@);
    match cfg {
        Some(c) => {
            let mut d = owned("port=");
            let port = u64_string(c.daemon_port as u64);
            d = cat(d, port.as_str());
            d = cat(d, " vision_policy=");
            d = cat(d, c.vision_policy.as_str());
            d = cat(d, " models=");
            let n = u64_string(c.models);
            d = cat(d, n.as_str());
            push_check(checks, check("config", "pass", d, None));
            if c.models == 0 {
                push_check(checks, check("vision_model", "warn", owned(NO_MODEL_DETAIL), Some(NO_MODEL_HINT)));
            } else {
                let dm = cat(owned("default="), c.default_vision_model.as_str());
                push_check(checks, check("vision_model", "pass", dm, None));
            }
        },
        None => {
            push_check(checks, check("config", "fail", owned("config.json unreadable"), Some(RUN_INIT)));
        },
    }
    assert(check_views(checks@) =~= before + config_part(*cfg));
}

fn checks_daemon(checks: &mut Vec<DoctorCheck>, p: &DoctorProbe)
    ensures
        check_views(final(checks)@) == check_views(old(checks)@) + daemon_part(*p),
{
    let ghost before = check_views(checks@);
    match &p.live {
        Some(b) => {
            push_check(checks, check("daemon", "pass", cat(owned("in-process version "), b.version.as_str()), None));
            let profile: &str = if b.likely_user_profile { "user" } else { p.login.extension_profile };
            push_check(checks, extension_bridge_check(b.polling, b.connected, profile, b.active_browsers.as_slice()));
            push_check(checks, dual_browser_lens_check(b.chrome_app, b.edge_app, b.active_browsers.as_slice()));
        },
        None => match &p.daemon {
            Ok((running, endpoint)) => {
                let detail = match endpoint {
                    Some(e) => owned(e.as_str()),
                    None => owned("not running"),
                };
                let status = if *running { "pass" } else { "fail" };
                let hint = if *running { None } else { Some(RUN_DAEMON) };
                proof {
                    reveal_strlit("pass");
                }
                push_check(checks, check("daemon", status, detail, hint));
            },
            Err(e) => {
                push_check(checks, check("daemon", "fail", owned(e.as_str()), Some(RUN_DAEMON)));
            },
        },
    }
    assert(check_views(checks@) =~= before + daemon_part(*p));
}

fn checks_cdp(checks: &mut Vec<DoctorCheck>, cfg: &Option<ConfigSummary>)
    ensures
        check_views(final(checks)@) == check_views(old(checks)@) + cdp_part(*cfg),
{
    let ghost before = check_views(checks@);
    push_check(checks, check("cdp_endpoint", "pass", owned(CDP_DETAIL), Some(CDP_HINT)));
    if let Some(c) = cfg {
        if let Some(url) = &c.cdp_url {
            let d = cat(owned(url.as_str()), " is configured but CDP is not the login-state path");
            push_check(checks, check("cdp_url_legacy", "warn", d, Some(CDP_LEGACY_HINT)));
        }
    }
    assert(check_views(checks@) =~= before + cdp_part(*cfg));
}

fn checks_macos(checks: &mut Vec<DoctorCheck>, m: &Option<MacosProbe>)
    ensures
        check_views(final(checks)@) == check_views(old(checks)@) + macos_part(*m),
{
    let ghost before = check_views(checks@);
    if let Some(m) = m {
        proof {
            reveal_strlit("pass");
        }
        let ax_detail = if m.ax_ok { owned(AX_OK_DETAIL) } else { owned(AX_MISSING_DETAIL) };
        let ax_hint = if m.ax_ok { None } else { Some(AX_MISSING_HINT) };
        push_check(checks, check("macos_accessibility", if m.ax_ok { "pass" } else { "fail" }, ax_detail, ax_hint));
        push_check(checks, scene_webview_crop_check(m.ax_ok, m.screen_recording));
        let rec_detail = if m.screen_recording { owned(REC_OK_DETAIL) } else { owned(REC_MISSING_DETAIL) };
        let rec_hint = if m.screen_recording { None } else { Some(REC_MISSING_HINT) };
        push_check(
            checks,
            check("macos_screen_recording", if m.screen_recording { "pass" } else { "fail" }, rec_detail, rec_hint),
        );
        let any = m.chrome || m.edge;
        let mut d = cat(owned("chrome="), bool_str(m.chrome));
        d = cat(d, " edge=");
        d = cat(d, bool_str(m.edge));
        push_check(
            checks,
            check("browsers_installed", if any { "pass" } else { "warn" }, d, if any { None } else { Some(NO_BROWSER_HINT) }),
        );
    }
    assert(check_views(checks@) =~= before + macos_part(*m));
}

pub fn extension_bridge_check(polling: bool, connected: bool, profile: &str, browsers: &[String]) -> (c: DoctorCheck)
    ensures
        check_view(c) == bridge_check_of(polling, connected, profile@, browsers@),
{
    proof {
        reveal_strlit("user");
        reveal_strlit("agent");
    }
    if polling && crate::text::str_eq(profile, "user") {
        let list = if browsers.len() == 0 { owned("unknown") } else { joined_strings(browsers, ",") };
        check("extension_bridge", "pass", cat(owned(EXT_USER_HEAD), list.as_str()), None)
    } else if polling && crate::text::str_eq(profile, "agent") {
        check("extension_bridge", "warn", owned(EXT_AGENT_DETAIL), Some(EXT_AGENT_HINT))
    } else if polling {
        check("extension_bridge", "warn", owned(EXT_UNKNOWN_DETAIL), Some(EXT_UNKNOWN_HINT))
    } else if connected {
        check("extension_bridge", "warn", owned(EXT_IDLE_DETAIL), None)
    } else {
        check("extension_bridge", "warn", owned(EXT_NONE_DETAIL), Some(EXT_NONE_HINT))
    }
}

/// The report's checks, in order, and whether it passes.
pub fn doctor_checks(p: &DoctorProbe) -> (r: (bool, Vec<DoctorCheck>))
    ensures
        r.0 == doctor_ok_of(*p),
        check_views(r.1@) == doctor_checks_of(*p),
{
    let mut checks: Vec<DoctorCheck> = Vec::new();
    let dir_check = if p.user_dir_exists {
        check("user_dir", "pass", owned(p.user_dir.as_str()), None)
    } else {
        check("user_dir", "fail", cat(owned(p.user_dir.as_str()), " missing"), Some(RUN_INIT))
    };
    push_check(&mut checks, dir_check);
    checks_config(&mut checks, &p.config);
    checks_daemon(&mut checks, p);
    checks_cdp(&mut checks, &p.config);
    checks_macos(&mut checks, &p.macos);
    let found = match &p.stage_found {
        Some(f) => Some(f.as_str()),
        None => None,
    };
    push_check(&mut checks, stage_helper_check(found, p.os.as_str()));
    push_check(&mut checks, app_backend_check(p.os.as_str()));
    let ghost before_scope = check_views(checks@);
    if let Some(scope) = windows_desktop_scope_check(p.os.as_str()) {
        push_check(&mut checks, scope);
    }
    assert(check_views(checks@) =~= before_scope + opt_check(scope_check_of(p.os@)));
    push_check(&mut checks, check("os_cursor_policy", "pass", owned(CURSOR_DETAIL), None));
    let next = match &p.live {
        Some(b) => {
            let profile: &str = if b.likely_user_profile { "user" } else { p.login.extension_profile };
            proof {
                reveal_strlit("user");
            }
            login_next_action(
                p.login.user_browsers.len() == 0 && !crate::text::str_eq(profile, "user"),
                p.login.lens_copied,
                profile,
                false,
                p.login.lens_dir.as_str(),
                false,
            )
        },
        None => owned(p.login.next_action.as_str()),
    };
    push_check(&mut checks, login_browser_check_with(&p.login, next.as_str()));
    let running = match &p.daemon {
        Ok((running, _)) => *running,
        Err(_) => false,
    };
    let ok = p.user_dir_exists && p.config.is_some() && (p.live.is_some() || running);
    assert(check_views(checks@) =~= doctor_checks_of(*p));
    (ok, checks)
}

} // verus!
