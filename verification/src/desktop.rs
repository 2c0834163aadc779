//! What a desktop-surface action does before the adapter is called: which step it is,
//! what it needs, and which windows and controls it refuses (System Settings is
//! observe-only, a Feishu/Lark Send is never pressed for the user, the OS cursor is never
//! moved, and the user's logged-in browser pages are driven through the lens, not AX).
use vstd::prelude::*;
use crate::browser::{desktop_key_of, desktop_key_plan, normalize_desktop_key, plan_desktop_key, DesktopKeyPlan};
use crate::error::{ErrorCode, VcuError};
use crate::browser::extension::{str_field, str_of};
use crate::tab_params::{get, get_field, JsonNumber, JsonValue};
use crate::login_state::{ax_exposes_send_control, is_send_name, opt_string_view, opt_view, TabInfo};
use crate::text::{cat, chars_of, has_str, lower, lower_of, owned, seq_has};

verus! {

broadcast use vstd::string::group_string_axioms;

/// A window id naming System Settings (observe-only).
pub open spec fn settings_window(tab_id: Seq<char>) -> bool {
    let t = lower(tab_id);
    seq_has(t, "system_settings"@) || seq_has(t, "system settings"@) || seq_has(t, "systemsettings"@)
        || seq_has(tab_id, "系统设置"@)
}

pub fn settings_like(tab_id: &str) -> (r: bool)
    ensures
        r == settings_window(tab_id@),
{
    let t = lower_of(tab_id);
    has_str(&t, "system_settings") || has_str(&t, "system settings") || has_str(&t, "systemsettings")
        || has_str(&chars_of(tab_id), "系统设置")
}

/// A window id naming Feishu/Lark.
pub open spec fn feishu_window(tab_id: Seq<char>) -> bool {
    let t = lower(tab_id);
    seq_has(t, "feishu"@) || seq_has(t, "lark"@) || seq_has(tab_id, "飞书"@)
}

pub fn feishu_like(tab_id: &str) -> (r: bool)
    ensures
        r == feishu_window(tab_id@),
{
    let t = lower_of(tab_id);
    has_str(&t, "feishu") || has_str(&t, "lark") || has_str(&chars_of(tab_id), "飞书")
}

pub const SETTINGS_READONLY: &'static str = "System Settings is observe-only; vcu doctor prints a hint — do not toggle Accessibility/TCC";

pub fn settings_readonly_err() -> (e: VcuError)
    ensures
        e.code == ErrorCode::FocusPolicyViolation,
        e.message@ == SETTINGS_READONLY@,
{
    VcuError::coded(ErrorCode::FocusPolicyViolation, owned(SETTINGS_READONLY))
}

/// The fields of an action request the desktop surface reads.
#[derive(Debug, Clone)]
pub struct DesktopAction {
    /// `click`, `type`, `scroll`, `key`, ...
    pub kind: String,
    /// `target.ref`
    pub target_ref: Option<String>,
    /// `args.ref`
    pub arg_ref: Option<String>,
    /// `args.pixel_x` or `target.pixel_x` is a number.
    pub has_pixel_x: bool,
    /// `args.pixel_y` or `target.pixel_y` is a number.
    pub has_pixel_y: bool,
    /// `args.space`
    pub space: Option<String>,
    /// `args.text`
    pub text: Option<String>,
    /// `args.dy`
    pub dy: Option<i64>,
    /// `args.key`, else `args.name`
    pub key: Option<String>,
    /// `args.confirm_send`
    pub confirm_send: Option<bool>,
    /// `args.path`
    pub path: Option<String>,
}

/// One desktop step and what it acts on.
#[derive(Debug, Clone)]
pub enum DesktopStep {
    /// Press the control a ref names.
    ClickRef { target: String },
    /// Map screenshot pixels onto the window (`space` is `window` unless given).
    ClickPixels { space: String },
    TypeText { text: String, target: Option<String> },
    Scroll { dy: i32, target: Option<String> },
    /// A permitted key, pressed through its ref.
    Key { plan: DesktopKeyPlan, key: &'static str, target: String, confirm_send: bool },
    Wait,
    Hover { target: String },
    Reveal { path: String },
    OpenPath { path: String },
}

pub const CLICK_NEEDS_TARGET: &'static str = "click requires target.ref or args.pixel_x/pixel_y";
pub const CLICK_NEEDS_Y: &'static str = "click requires args.pixel_y";
pub const TYPE_NEEDS_TEXT: &'static str = "type requires args.text";
pub const KEY_NEEDS_KEY: &'static str = "key requires args.key";
pub const HOVER_NEEDS_REF: &'static str = "hover requires target.ref";
pub const OS_CURSOR_DENIED: &'static str = "OS cursor actions are denied; Guide is overlay-only";
pub const REVEAL_NEEDS_PATH: &'static str = "reveal requires args.path";
pub const OPEN_NEEDS_PATH: &'static str = "open_path requires args.path";
pub const NO_DESKTOP_NAVIGATE: &'static str = "navigate is not available on the desktop surface";
pub const UNKNOWN_ACTION_HEAD: &'static str = "action not implemented on desktop: ";

/// A step as plain values, for contracts.
pub open spec fn step_view(s: DesktopStep) -> (int, Seq<char>, Option<Seq<char>>, int, Option<DesktopKeyPlan>, bool) {
    match s {
        DesktopStep::ClickRef { target } => (0, target@, None, 0, None, false),
        DesktopStep::ClickPixels { space } => (1, space@, None, 0, None, false),
        DesktopStep::TypeText { text, target } => (2, text@, opt_string_view(target), 0, None, false),
        DesktopStep::Scroll { dy, target } => (3, Seq::empty(), opt_string_view(target), dy as int, None, false),
        DesktopStep::Key { plan, key, target, confirm_send } => (4, key@, Some(target@), 0, Some(plan), confirm_send),
        DesktopStep::Wait => (5, Seq::empty(), None, 0, None, false),
        DesktopStep::Hover { target } => (6, target@, None, 0, None, false),
        DesktopStep::Reveal { path } => (7, path@, None, 0, None, false),
        DesktopStep::OpenPath { path } => (8, path@, None, 0, None, false),
    }
}

pub open spec fn or_opt(a: Option<Seq<char>>, b: Option<Seq<char>>) -> Option<Seq<char>> {
    if a is Some { a } else { b }
}

/// The step a desktop action request becomes, or why it is refused.
pub open spec fn desktop_step_of(tab_id: Seq<char>, a: DesktopAction) -> Result<
    (int, Seq<char>, Option<Seq<char>>, int, Option<DesktopKeyPlan>, bool),
    (ErrorCode, Seq<char>),
> {
    let k = a.kind@;
    let target = opt_string_view(a.target_ref);
    if k == "click"@ || k == "hit"@ || k == "press"@ {
        match or_opt(target, opt_string_view(a.arg_ref)) {
            Some(r) => Ok((0, r, None, 0, None, false)),
            None => if !a.has_pixel_x {
                Err((ErrorCode::InvalidInput, CLICK_NEEDS_TARGET@))
            } else if !a.has_pixel_y {
                Err((ErrorCode::InvalidInput, CLICK_NEEDS_Y@))
            } else {
                Ok((1, match opt_string_view(a.space) {
                    Some(sp) => sp,
                    None => "window"@,
                }, None, 0, None, false))
            },
        }
    } else if k == "type"@ {
        match a.text {
            Some(t) => Ok((2, t@, target, 0, None, false)),
            None => Err((ErrorCode::InvalidInput, TYPE_NEEDS_TEXT@)),
        }
    } else if k == "scroll"@ {
        if settings_window(tab_id) {
            Err((ErrorCode::FocusPolicyViolation, SETTINGS_READONLY@))
        } else {
            let dy = match a.dy {
                Some(d) => (d as i32) as int,
                None => 600,
            };
            Ok((3, Seq::empty(), target, dy, None, false))
        }
    } else if k == "key"@ || k == "keypress"@ {
        match a.key {
            None => Err((ErrorCode::InvalidInput, KEY_NEEDS_KEY@)),
            Some(key) => {
                let confirm = match a.confirm_send {
                    Some(c) => c,
                    None => false,
                };
                match desktop_key_plan(key@, confirm, target is Some) {
                    Ok(plan) => Ok((4, desktop_key_of(key@)->0, target, 0, Some(plan), confirm)),
                    Err(e) => Err(e),
                }
            },
        }
    } else if k == "wait"@ {
        Ok((5, Seq::empty(), None, 0, None, false))
    } else if k == "hover"@ {
        match target {
            Some(r) => Ok((6, r, None, 0, None, false)),
            None => Err((ErrorCode::InvalidInput, HOVER_NEEDS_REF@)),
        }
    } else if k == "os_cursor_move"@ || k == "os_click"@ {
        Err((ErrorCode::OsCursorDenied, OS_CURSOR_DENIED@))
    } else if k == "reveal"@ {
        match a.path {
            Some(p) => Ok((7, p@, None, 0, None, false)),
            None => Err((ErrorCode::InvalidInput, REVEAL_NEEDS_PATH@)),
        }
    } else if k == "open_path"@ {
        match a.path {
            Some(p) => Ok((8, p@, None, 0, None, false)),
            None => Err((ErrorCode::InvalidInput, OPEN_NEEDS_PATH@)),
        }
    } else if k == "navigate"@ {
        Err((ErrorCode::NotImplemented, NO_DESKTOP_NAVIGATE@))
    } else {
        Err((ErrorCode::NotImplemented, UNKNOWN_ACTION_HEAD@ + k))
    }
}

/// The first of two fields that is present (the second only when the first is absent).
pub open spec fn either(v: JsonValue, k1: Seq<char>, w: JsonValue, k2: Seq<char>) -> Option<JsonValue> {
    match get(v, k1) {
        Some(x) => Some(x),
        None => get(w, k2),
    }
}

/// A JSON number read as an `i64`, when it is an integer in range.
pub open spec fn as_i64(x: Option<JsonValue>) -> Option<i64> {
    match x {
        Some(JsonValue::Number(JsonNumber::PosInt(n))) => if n <= i64::MAX as u64 { Some(n as i64) } else { None },
        Some(JsonValue::Number(JsonNumber::NegInt(n))) => Some(n),
        _ => None,
    }
}

/// What the desktop surface reads of an action request's `target` and `args`: the refs,
/// whether pixel coordinates are numbers (`args` first, then `target`), the scroll
/// distance, the key (`args.key`, else `args.name`) and the strings and flags it uses.
pub open spec fn desktop_action_of(kind: Seq<char>, target: JsonValue, args: JsonValue, a: DesktopAction) -> bool {
    &&& a.kind@ == kind
    &&& opt_string_view(a.target_ref) == str_of(target, "ref"@)
    &&& opt_string_view(a.arg_ref) == str_of(args, "ref"@)
    &&& a.has_pixel_x == (either(args, "pixel_x"@, target, "pixel_x"@) matches Some(JsonValue::Number(_)))
    &&& a.has_pixel_y == (either(args, "pixel_y"@, target, "pixel_y"@) matches Some(JsonValue::Number(_)))
    &&& opt_string_view(a.space) == str_of(args, "space"@)
    &&& opt_string_view(a.text) == str_of(args, "text"@)
    &&& a.dy == as_i64(get(args, "dy"@))
    &&& opt_string_view(a.key) == (match either(args, "key"@, args, "name"@) {
        Some(JsonValue::Str(k)) => Some(k@),
        _ => None,
    })
    &&& a.confirm_send == (match get(args, "confirm_send"@) {
        Some(JsonValue::Bool(b)) => Some(b),
        _ => None,
    })
    &&& opt_string_view(a.path) == str_of(args, "path"@)
}

fn either_field<'a>(v: &'a JsonValue, k1: &str, w: &'a JsonValue, k2: &str) -> (r: Option<&'a JsonValue>)
    ensures
        match (r, either(*v, k1@, *w, k2@)) {
            (Some(a), Some(b)) => *a == b,
            (None, None) => true,
            _ => false,
        },
{
    match get_field(v, k1) {
        Some(x) => Some(x),
        None => get_field(w, k2),
    }
}

/// Reads a desktop action request (see `desktop_action_of`).
pub fn desktop_action_from(kind: &str, target: &JsonValue, args: &JsonValue) -> (a: DesktopAction)
    ensures
        desktop_action_of(kind@, *target, *args, a),
{
    let has_pixel_x = match either_field(args, "pixel_x", target, "pixel_x") {
        Some(JsonValue::Number(_)) => true,
        _ => false,
    };
    let has_pixel_y = match either_field(args, "pixel_y", target, "pixel_y") {
        Some(JsonValue::Number(_)) => true,
        _ => false,
    };
    let dy: Option<i64> = match get_field(args, "dy") {
        Some(JsonValue::Number(JsonNumber::PosInt(n))) => if *n <= i64::MAX as u64 { Some(*n as i64) } else { None },
        Some(JsonValue::Number(JsonNumber::NegInt(n))) => Some(*n),
        _ => None,
    };
    let key = match either_field(args, "key", args, "name") {
        Some(JsonValue::Str(k)) => Some(owned(k.as_str())),
        _ => None,
    };
    let confirm_send = match get_field(args, "confirm_send") {
        Some(JsonValue::Bool(b)) => Some(*b),
        _ => None,
    };
    DesktopAction {
        kind: owned(kind),
        target_ref: str_field(target, "ref"),
        arg_ref: str_field(args, "ref"),
        has_pixel_x,
        has_pixel_y,
        space: str_field(args, "space"),
        text: str_field(args, "text"),
        dy,
        key,
        confirm_send,
        path: str_field(args, "path"),
    }
}

/// A desktop type step carries the request's text into the control the request's
/// `target.ref` names (none when it names none); a scroll step likewise scrolls the
/// control `target.ref` names.
pub proof fn lemma_desktop_steps_keep_their_target(tab_id: Seq<char>, a: DesktopAction)
    ensures
        a.kind@ == "type"@ && a.text is Some ==> (desktop_step_of(tab_id, a) matches Ok(v) && v.0 == 2 && v.1
            == a.text->0@ && v.2 == opt_string_view(a.target_ref)),
        a.kind@ == "scroll"@ && desktop_step_of(tab_id, a) is Ok ==> (desktop_step_of(tab_id, a) matches Ok(v) && v.0
            == 3 && v.2 == opt_string_view(a.target_ref)),
{
    reveal_strlit("type");
    reveal_strlit("scroll");
    reveal_strlit("click");
    reveal_strlit("hit");
    reveal_strlit("press");
    assert("type"@.len() == 4 && "click"@.len() == 5 && "hit"@.len() == 3 && "press"@.len() == 5);
    assert("scroll"@.len() == 6);
}

fn is_kind(a: &DesktopAction, k: &str) -> (r: bool)
    ensures
        r == (a.kind@ == k@),
{
    crate::text::str_eq(a.kind.as_str(), k)
}

fn copy_opt(o: &Option<String>) -> (r: Option<String>)
    ensures
        opt_string_view(r) == opt_string_view(*o),
{
    match o {
        Some(s) => Some(owned(s.as_str())),
        None => None,
    }
}

fn fail(code: ErrorCode, msg: &str) -> (r: Result<DesktopStep, VcuError>)
    ensures
        r matches Err(e) && e.code == code && e.message@ == msg@,
{
    Err(VcuError::coded(code, owned(msg)))
}

/// The step a desktop action request becomes (see `desktop_step_of`).
pub fn plan_desktop_action(tab_id: &str, a: &DesktopAction) -> (r: Result<DesktopStep, VcuError>)
    ensures
        match (r, desktop_step_of(tab_id@, *a)) {
            (Ok(s), Ok(v)) => step_view(s) == v,
            (Err(e), Err((code, msg))) => e.code == code && e.message@ == msg,
            _ => false,
        },
        a.kind@ == "type"@ && a.text is Some ==> (r matches Ok(DesktopStep::TypeText { text, target }) && text@
            == a.text->0@ && opt_string_view(target) == opt_string_view(a.target_ref)),
{
    proof {
        lemma_desktop_steps_keep_their_target(tab_id@, *a);
    }
    if is_kind(a, "click") || is_kind(a, "hit") || is_kind(a, "press") {
        let r = if a.target_ref.is_some() { copy_opt(&a.target_ref) } else { copy_opt(&a.arg_ref) };
        return match r {
            Some(target) => Ok(DesktopStep::ClickRef { target }),
            None => {
                if !a.has_pixel_x {
                    fail(ErrorCode::InvalidInput, CLICK_NEEDS_TARGET)
                } else if !a.has_pixel_y {
                    fail(ErrorCode::InvalidInput, CLICK_NEEDS_Y)
                } else {
                    let space = match &a.space {
                        Some(sp) => owned(sp.as_str()),
                        None => owned("window"),
                    };
                    Ok(DesktopStep::ClickPixels { space })
                }
            },
        };
    }
    if is_kind(a, "type") {
        return match &a.text {
            Some(t) => Ok(DesktopStep::TypeText { text: owned(t.as_str()), target: copy_opt(&a.target_ref) }),
            None => fail(ErrorCode::InvalidInput, TYPE_NEEDS_TEXT),
        };
    }
    if is_kind(a, "scroll") {
        if settings_like(tab_id) {
            return Err(settings_readonly_err());
        }
        let dy: i32 = match a.dy {
            Some(d) => d as i32,
            None => 600,
        };
        return Ok(DesktopStep::Scroll { dy, target: copy_opt(&a.target_ref) });
    }
    if is_kind(a, "key") || is_kind(a, "keypress") {
        let key = match &a.key {
            Some(k) => k,
            None => return fail(ErrorCode::InvalidInput, KEY_NEEDS_KEY),
        };
        let confirm = match a.confirm_send {
            Some(c) => c,
            None => false,
        };
        let plan = match plan_desktop_key(key.as_str(), confirm, a.target_ref.is_some()) {
            Ok(p) => p,
            Err(e) => return Err(e),
        };
        let target = match &a.target_ref {
            Some(t) => owned(t.as_str()),
            None => return fail(ErrorCode::Internal, KEY_NEEDS_KEY),
        };
        let name = match normalize_desktop_key(key.as_str()) {
            Some(n) => n,
            None => return fail(ErrorCode::Internal, KEY_NEEDS_KEY),
        };
        return Ok(DesktopStep::Key { plan, key: name, target, confirm_send: confirm });
    }
    if is_kind(a, "wait") {
        return Ok(DesktopStep::Wait);
    }
    if is_kind(a, "hover") {
        return match &a.target_ref {
            Some(t) => Ok(DesktopStep::Hover { target: owned(t.as_str()) }),
            None => fail(ErrorCode::InvalidInput, HOVER_NEEDS_REF),
        };
    }
    if is_kind(a, "os_cursor_move") || is_kind(a, "os_click") {
        return fail(ErrorCode::OsCursorDenied, OS_CURSOR_DENIED);
    }
    if is_kind(a, "reveal") {
        return match &a.path {
            Some(p) => Ok(DesktopStep::Reveal { path: owned(p.as_str()) }),
            None => fail(ErrorCode::InvalidInput, REVEAL_NEEDS_PATH),
        };
    }
    if is_kind(a, "open_path") {
        return match &a.path {
            Some(p) => Ok(DesktopStep::OpenPath { path: owned(p.as_str()) }),
            None => fail(ErrorCode::InvalidInput, OPEN_NEEDS_PATH),
        };
    }
    if is_kind(a, "navigate") {
        return fail(ErrorCode::NotImplemented, NO_DESKTOP_NAVIGATE);
    }
    Err(VcuError::coded(ErrorCode::NotImplemented, cat(owned(UNKNOWN_ACTION_HEAD), a.kind.as_str())))
}

pub const FEISHU_SEND_REFUSED: &'static str = "Feishu/Lark send is not automatic; name a recipient first";
pub const USER_HTML_NEEDS_LENS: &'static str = "USER browser HTML must use extension_dom (vcu browser click); AXWebArea is not a DOM click";

/// The window is a tab of the user's logged-in browser.
pub open spec fn user_login_tab(tabs: Seq<TabInfo>, tab_id: Seq<char>) -> bool {
    exists|i: int|
        0 <= i < tabs.len() && (#[trigger] tabs[i]).tab_id@ == tab_id && opt_string_view(tabs[i].browser_profile)
            == Some("user"@) && tabs[i].login_state == Some(true)
}

/// Whether a desktop click on `target` may go ahead: System Settings is observe-only, a
/// control named like Send in Feishu/Lark is not pressed, and a webview of the user's
/// logged-in browser is clicked through the lens, not AX.
pub open spec fn desktop_click_refusal(
    tab_id: Seq<char>,
    cached_name: Option<Seq<char>>,
    webview: bool,
    tabs: Seq<TabInfo>,
) -> Option<(ErrorCode, Seq<char>)> {
    if settings_window(tab_id) {
        Some((ErrorCode::FocusPolicyViolation, SETTINGS_READONLY@))
    } else if feishu_window(tab_id) && (cached_name matches Some(n) && is_send_name(n)) {
        Some((ErrorCode::FocusPolicyViolation, FEISHU_SEND_REFUSED@))
    } else if webview && user_login_tab(tabs, tab_id) {
        Some((ErrorCode::ActionFailed, USER_HTML_NEEDS_LENS@))
    } else {
        None
    }
}

fn is_user_login_tab(tabs: &[TabInfo], tab_id: &str) -> (r: bool)
    ensures
        r == user_login_tab(tabs@, tab_id@),
{
    let mut i: usize = 0;
    while i < tabs.len()
        invariant
            i <= tabs@.len(),
            forall|j: int|
                0 <= j < i ==> !((#[trigger] tabs@[j]).tab_id@ == tab_id@ && opt_string_view(
                    tabs@[j].browser_profile,
                ) == Some("user"@) && tabs@[j].login_state == Some(true)),
        decreases tabs.len() - i,
    {
        let t = &tabs[i];
        let user = match &t.browser_profile {
            Some(p) => crate::text::str_eq(p.as_str(), "user"),
            None => false,
        };
        proof {
            reveal_strlit("user");
        }
        let logged_in = match t.login_state {
            Some(b) => b,
            None => false,
        };
        if crate::text::str_eq(t.tab_id.as_str(), tab_id) && user && logged_in {
            return true;
        }
        i = i + 1;
    }
    false
}

pub fn desktop_click_gate(tab_id: &str, cached_name: Option<&str>, webview: bool, tabs: &[TabInfo]) -> (r: Result<
    (),
    VcuError,
>)
    ensures
        match (r, desktop_click_refusal(tab_id@, opt_view(cached_name), webview, tabs@)) {
            (Ok(_), None) => true,
            (Err(e), Some((code, msg))) => e.code == code && e.message@ == msg,
            _ => false,
        },
{
    if settings_like(tab_id) {
        return Err(settings_readonly_err());
    }
    if feishu_like(tab_id) {
        if let Some(n) = cached_name {
            let names = [n];
            let sent = ax_exposes_send_control(&names);
            proof {
                assert(names@ =~= seq![n]);
            }
            if sent {
                return Err(VcuError::coded(ErrorCode::FocusPolicyViolation, owned(FEISHU_SEND_REFUSED)));
            }
        }
    }
    if webview && is_user_login_tab(tabs, tab_id) {
        return Err(VcuError::coded(ErrorCode::ActionFailed, owned(USER_HTML_NEEDS_LENS)));
    }
    Ok(())
}

pub const ACTUATOR_CURSOR: &'static str = "desktop actuator attempted OS cursor warp";

/// An actuator that reports having moved the OS cursor fails the step.
pub fn check_actuator_cursor(os_cursor_used: Option<bool>) -> (r: Result<(), VcuError>)
    ensures
        r is Ok <==> os_cursor_used != Some(true),
        r matches Err(e) ==> e.code == ErrorCode::OsCursorDenied && e.message@ == ACTUATOR_CURSOR@,
{
    if os_cursor_used == Some(true) {
        Err(VcuError::coded(ErrorCode::OsCursorDenied, owned(ACTUATOR_CURSOR)))
    } else {
        Ok(())
    }
}

// ---------------------------------------------------------------------------
// Finishing a desktop step: what the adapter reported, and what the action returns
// ---------------------------------------------------------------------------

/// What the desktop adapter's call reported: whether it moved the OS cursor, the input
/// path it took and its result text, each when it said so.
#[derive(Debug, Clone)]
pub struct AdapterReport {
    pub os_cursor_used: Option<bool>,
    pub input_path: Option<String>,
    pub result: Option<String>,
}

/// The fields a desktop action sets on its result. `input_path` and `hit_kind` are set
/// only when given; `hid_injected` likewise.
#[derive(Debug, Clone)]
pub struct DesktopActResult {
    pub os_cursor_used: bool,
    pub hid_injected: Option<bool>,
    pub input_path: Option<&'static str>,
    pub hit_kind: Option<&'static str>,
    pub key: Option<&'static str>,
    pub confirm_send: Option<bool>,
}

pub const SCROLL_CURSOR: &'static str = "desktop scroll attempted OS cursor warp";
pub const REVEAL_CURSOR: &'static str = "Finder reveal attempted OS cursor warp";
pub const OPEN_CURSOR: &'static str = "Finder open_path attempted OS cursor warp";

/// The refusal a step's adapter call gets when it reports an OS cursor warp: clicks,
/// keys and typing, scrolls, reveals and opens are checked; waits, hovers and pixel
/// clicks call no checked actuator.
pub open spec fn cursor_refusal(step: DesktopStep) -> Option<Seq<char>> {
    match step {
        DesktopStep::ClickRef { .. } => Some(ACTUATOR_CURSOR@),
        DesktopStep::Key { .. } => Some(ACTUATOR_CURSOR@),
        DesktopStep::TypeText { .. } => Some(ACTUATOR_CURSOR@),
        DesktopStep::Scroll { .. } => Some(SCROLL_CURSOR@),
        DesktopStep::Reveal { .. } => Some(REVEAL_CURSOR@),
        DesktopStep::OpenPath { .. } => Some(OPEN_CURSOR@),
        _ => None,
    }
}

/// A press landed on a frame hit: the ref is a webview, or the adapter says so.
pub open spec fn frame_hit(webview: bool, rep: AdapterReport) -> bool {
    webview || opt_string_view(rep.input_path) == Some("ax_frame_hit"@) || (rep.result matches Some(t) && seq_has(
        t@,
        "webview"@,
    ))
}

pub open spec fn opt_static(o: Option<&'static str>) -> Option<Seq<char>> {
    match o {
        Some(t) => Some(t@),
        None => None,
    }
}

/// The result fields each step sets when it succeeds.
pub open spec fn act_result_is(step: DesktopStep, webview: bool, rep: AdapterReport, r: DesktopActResult) -> bool {
    let hit = frame_hit(webview, rep);
    &&& !r.os_cursor_used
    &&& match step {
        DesktopStep::ClickRef { .. } => r.hid_injected == Some(false) && opt_static(r.input_path) == (if hit {
            Some("ax_frame_hit"@)
        } else {
            None
        }) && opt_static(r.hit_kind) == (if hit { Some("ax_element"@) } else { None }) && r.key is None
            && r.confirm_send is None,
        DesktopStep::Key { plan, key, confirm_send, .. } => r.hid_injected == Some(false) && opt_static(r.input_path)
            == Some(
            match plan {
                DesktopKeyPlan::PressRefSend => "ax_press_send"@,
                DesktopKeyPlan::PressRef => "ax_press"@,
            },
        ) && opt_static(r.hit_kind) == (if hit { Some("ax_element"@) } else { None }) && opt_static(r.key) == Some(
            key@,
        ) && r.confirm_send == Some(confirm_send),
        DesktopStep::TypeText { .. } | DesktopStep::Scroll { .. } => r.hid_injected is None && r.input_path is None
            && r.hit_kind is None && r.key is None && r.confirm_send is None,
        DesktopStep::Reveal { .. } | DesktopStep::OpenPath { .. } | DesktopStep::ClickPixels { .. } => r.hid_injected
            == Some(false) && r.input_path is None && r.hit_kind is None && r.key is None && r.confirm_send is None,
        DesktopStep::Wait => r.hid_injected is None && opt_static(r.input_path) == Some("scene_wait"@) && r.hit_kind is None
            && r.key is None && r.confirm_send is None,
        DesktopStep::Hover { .. } => r.hid_injected == Some(false) && opt_static(r.input_path) == Some("guide_hover"@)
            && r.hit_kind is None && r.key is None && r.confirm_send is None,
    }
}

fn plain_result(hid: Option<bool>, input_path: Option<&'static str>) -> (r: DesktopActResult)
    ensures
        !r.os_cursor_used && r.hid_injected == hid && r.input_path == input_path && r.hit_kind is None && r.key is None
            && r.confirm_send is None,
{
    DesktopActResult { os_cursor_used: false, hid_injected: hid, input_path, hit_kind: None, key: None, confirm_send: None }
}

/// How a desktop action ends once the adapter has answered: a reported OS cursor warp
/// fails the checked steps (see `cursor_refusal`); otherwise the result never reports
/// the OS cursor as used, and carries the fields `act_result_is` gives.
pub fn finish_desktop_step(step: &DesktopStep, webview: bool, rep: &AdapterReport) -> (r: Result<
    DesktopActResult,
    VcuError,
>)
    ensures
        match (r, cursor_refusal(*step)) {
            (Err(e), Some(msg)) => rep.os_cursor_used == Some(true) && e.code == ErrorCode::OsCursorDenied && e.message@
                == msg,
            (Err(_), None) => false,
            (Ok(res), refusal) => (refusal is None || rep.os_cursor_used != Some(true)) && act_result_is(
                *step,
                webview,
                *rep,
                res,
            ),
        },
{
    let warped = rep.os_cursor_used == Some(true);
    let hit = webview || (match &rep.input_path {
        Some(p) => crate::text::str_eq(p.as_str(), "ax_frame_hit"),
        None => false,
    }) || (match &rep.result {
        Some(t) => has_str(&chars_of(t.as_str()), "webview"),
        None => false,
    });
    match step {
        DesktopStep::ClickRef { .. } => {
            if warped {
                return Err(VcuError::coded(ErrorCode::OsCursorDenied, owned(ACTUATOR_CURSOR)));
            }
            Ok(DesktopActResult {
                os_cursor_used: false,
                hid_injected: Some(false),
                input_path: if hit { Some("ax_frame_hit") } else { None },
                hit_kind: if hit { Some("ax_element") } else { None },
                key: None,
                confirm_send: None,
            })
        },
        DesktopStep::Key { plan, key, confirm_send, .. } => {
            if warped {
                return Err(VcuError::coded(ErrorCode::OsCursorDenied, owned(ACTUATOR_CURSOR)));
            }
            Ok(DesktopActResult {
                os_cursor_used: false,
                hid_injected: Some(false),
                input_path: Some(plan.input_path()),
                hit_kind: if hit { Some("ax_element") } else { None },
                key: Some(*key),
                confirm_send: Some(*confirm_send),
            })
        },
        DesktopStep::TypeText { .. } => {
            if warped {
                return Err(VcuError::coded(ErrorCode::OsCursorDenied, owned(ACTUATOR_CURSOR)));
            }
            Ok(plain_result(None, None))
        },
        DesktopStep::Scroll { .. } => {
            if warped {
                return Err(VcuError::coded(ErrorCode::OsCursorDenied, owned(SCROLL_CURSOR)));
            }
            Ok(plain_result(None, None))
        },
        DesktopStep::Reveal { .. } => {
            if warped {
                return Err(VcuError::coded(ErrorCode::OsCursorDenied, owned(REVEAL_CURSOR)));
            }
            Ok(plain_result(Some(false), None))
        },
        DesktopStep::OpenPath { .. } => {
            if warped {
                return Err(VcuError::coded(ErrorCode::OsCursorDenied, owned(OPEN_CURSOR)));
            }
            Ok(plain_result(Some(false), None))
        },
        DesktopStep::ClickPixels { .. } => Ok(plain_result(Some(false), None)),
        DesktopStep::Wait => Ok(plain_result(None, Some("scene_wait"))),
        DesktopStep::Hover { .. } => Ok(plain_result(Some(false), Some("guide_hover"))),
    }
}

/// A desktop action never uses the OS cursor: an `os_cursor_move` or `os_click` request
/// is refused before any step, a checked step whose adapter reports a cursor warp fails,
/// and every action that succeeds reports `os_cursor_used = false`.
pub proof fn lemma_desktop_act_never_uses_os_cursor(
    tab_id: Seq<char>,
    a: DesktopAction,
    step: DesktopStep,
    webview: bool,
    rep: AdapterReport,
    finished: Result<DesktopActResult, VcuError>,
)
    requires
        match (finished, cursor_refusal(step)) {
            (Err(e), Some(msg)) => rep.os_cursor_used == Some(true) && e.code == ErrorCode::OsCursorDenied && e.message@
                == msg,
            (Err(_), None) => false,
            (Ok(res), refusal) => (refusal is None || rep.os_cursor_used != Some(true)) && act_result_is(
                step,
                webview,
                rep,
                res,
            ),
        },
    ensures
        (a.kind@ == "os_cursor_move"@ || a.kind@ == "os_click"@) ==> desktop_step_of(tab_id, a) == Err::<
            (int, Seq<char>, Option<Seq<char>>, int, Option<DesktopKeyPlan>, bool),
            (ErrorCode, Seq<char>),
        >((ErrorCode::OsCursorDenied, OS_CURSOR_DENIED@)),
        finished matches Ok(res) ==> !res.os_cursor_used,
        (cursor_refusal(step) is Some && rep.os_cursor_used == Some(true)) ==> (finished matches Err(e) && e.code
            == ErrorCode::OsCursorDenied),
{
    reveal_strlit("os_cursor_move");
    reveal_strlit("os_click");
    reveal_strlit("click");
    reveal_strlit("hit");
    reveal_strlit("press");
    reveal_strlit("type");
    reveal_strlit("scroll");
    reveal_strlit("key");
    reveal_strlit("keypress");
    reveal_strlit("wait");
    reveal_strlit("hover");
    if a.kind@ == "os_cursor_move"@ || a.kind@ == "os_click"@ {
        let k = a.kind@;
        assert(k.len() == 14 || k.len() == 8);
        assert(k[0] == 'o');
        assert(k != "click"@ && k != "hit"@ && k != "press"@ && k != "type"@ && k != "scroll"@ && k != "key"@);
        assert("keypress"@[0] == 'k');
        assert(k != "keypress"@);
        assert(k != "wait"@ && k != "hover"@);
    }
}

/// The desktop-scene refs an extract selector matches (indices, in order).
pub fn scene_extract_matches(refs: &[crate::browser::SceneRef], selector: &str) -> (r: Vec<usize>)
    ensures
        crate::browser::usize_ints(r@) == crate::browser::hit_indices(refs@, crate::browser::selector_hit(selector@)),
{
    crate::browser::selector_matches(refs, selector)
}

} // verus!
