//! Decisions the daemon's HTTP API makes before and between its calls into the browser
//! lens and the desktop adapter: request defaults, which surface a session runs on,
//! which tab or window a request binds to, and which route a click, type, scroll or
//! wait request takes (or why it is refused).
use vstd::prelude::*;
use crate::error::{ErrorCode, VcuError};
use crate::browser::extension::array_at;
use crate::browser::{debug_opt_str, debug_option, debug_str, debug_str_of, opt_str};
use crate::tab_params::{get, get_field, json_group_id, trimmed_id, JsonValue};
use crate::login_state::{
    app_binding, bind_app_id, browser_name_is_frontmost, first_where, is_first, is_frontmost_name,
    lemma_first_where, lemma_first_where_none, nonblank, opt_ref, opt_string_view, opt_view, BrowserProc,
    LastObserve, LoginBrowserReport, TabInfo,
};
use crate::text::{
    all_digits, begins, begins_str, cat, chars_of, decimal, eq_ignore_case, has_str, has_vec, i32_string,
    last_piece, last_piece_vec, lower, lower_of, lower_vec, owned, replace_char, replace_char_vec,
    same_ignore_case, same_str, same_vec, seq_has, string_of, trim, trimmed_of, u64_string, nat_decimal,
};

verus! {

broadcast use vstd::string::group_string_axioms;

// ---------------------------------------------------------------------------
// Request defaults
// ---------------------------------------------------------------------------

/// Browser a session starts with when the request names none.
pub fn default_browser() -> (r: String)
    ensures
        r@ == "auto"@,
{
    owned("auto")
}

/// Backend a session starts with when the request names none.
pub fn default_backend() -> (r: String)
    ensures
        r@ == "mock"@,
{
    owned("mock")
}

/// Pixels a scroll moves by default.
pub fn default_scroll_dy() -> (r: i32)
    ensures
        r == 600,
{
    600
}

/// Milliseconds a login-state wait lasts by default.
pub fn default_wait_ms() -> (r: u64)
    ensures
        r == 200,
{
    200
}

/// Selector an extract uses by default.
pub fn default_extract_selector() -> (r: String)
    ensures
        r@ == "a"@,
{
    owned("a")
}

/// Snapshot mode used by default.
pub fn default_mode() -> (r: String)
    ensures
        r@ == "a11y"@,
{
    owned("a11y")
}

/// Snapshot budget (milliseconds) used by default.
pub fn default_budget() -> (r: u64)
    ensures
        r == 4000,
{
    4000
}

/// Milliseconds an extension long-poll waits by default.
pub fn default_wait() -> (r: u64)
    ensures
        r == 5000,
{
    5000
}

/// Desktop-app snapshot budget (milliseconds) used by default.
pub fn default_app_budget() -> (r: u64)
    ensures
        r == 4000,
{
    4000
}

// ---------------------------------------------------------------------------
// Sessions
// ---------------------------------------------------------------------------

/// A request to start a session.
#[derive(Debug, Clone)]
pub struct StartSessionReq {
    pub browser: String,
    pub backend: String,
    pub vision_policy: Option<String>,
    pub surface: Option<String>,
    /// Desktop window id (proc:Name:pid). When set, that tab is activated.
    pub app_id: Option<String>,
}

impl StartSessionReq {
    /// A request with the default browser and backend and nothing else set.
    pub fn with_defaults() -> (r: StartSessionReq)
        ensures
            r.browser@ == "auto"@,
            r.backend@ == "mock"@,
            r.vision_policy is None,
            r.surface is None,
            r.app_id is None,
    {
        StartSessionReq {
            browser: default_browser(),
            backend: default_backend(),
            vision_policy: None,
            surface: None,
            app_id: None,
        }
    }
}

/// Where a session acts: on desktop windows or in the agent browser.
#[derive(Debug, Clone, Copy, PartialEq, Eq, Structural)]
pub enum SurfaceKind {
    Desktop,
    BrowserAgent,
}

pub const UNKNOWN_SURFACE_HEAD: &'static str = "unknown surface: ";
pub const UNKNOWN_SURFACE_TAIL: &'static str = " (desktop|browser_agent)";

/// The surface a start request asks for: named outright, or implied by the backend.
pub open spec fn surface_of(surface: Option<Seq<char>>, backend: Seq<char>) -> Result<SurfaceKind, Seq<char>> {
    match surface {
        Some(s) => if s == "desktop"@ {
            Ok(SurfaceKind::Desktop)
        } else if s == "browser_agent"@ {
            Ok(SurfaceKind::BrowserAgent)
        } else {
            Err(UNKNOWN_SURFACE_HEAD@ + s + UNKNOWN_SURFACE_TAIL@)
        },
        None => if backend == "desktop"@ {
            Ok(SurfaceKind::Desktop)
        } else {
            Ok(SurfaceKind::BrowserAgent)
        },
    }
}

pub fn parse_surface(req: &StartSessionReq) -> (r: Result<SurfaceKind, VcuError>)
    ensures
        match (r, surface_of(opt_string_view(req.surface), req.backend@)) {
            (Ok(a), Ok(b)) => a == b,
            (Err(e), Err(m)) => e.code == ErrorCode::InvalidInput && e.message@ == m,
            _ => false,
        },
{
    match &req.surface {
        Some(s) => {
            if crate::text::str_eq(s.as_str(), "desktop") {
                Ok(SurfaceKind::Desktop)
            } else if crate::text::str_eq(s.as_str(), "browser_agent") {
                Ok(SurfaceKind::BrowserAgent)
            } else {
                let m = cat(cat(owned(UNKNOWN_SURFACE_HEAD), s.as_str()), UNKNOWN_SURFACE_TAIL);
                Err(VcuError::coded(ErrorCode::InvalidInput, m))
            }
        },
        None => {
            if crate::text::str_eq(req.backend.as_str(), "desktop") {
                Ok(SurfaceKind::Desktop)
            } else {
                Ok(SurfaceKind::BrowserAgent)
            }
        },
    }
}

/// Two desktop tab ids name the same window: equal, equal ignoring ASCII case, or both
/// `win:` ids whose last `:` pieces are the same all-digit pid.
pub open spec fn tab_ids_equiv(listed: Seq<char>, requested: Seq<char>) -> bool {
    let lp = last_piece(listed, ':');
    ||| listed == requested
    ||| eq_ignore_case(listed, requested)
    ||| begins(listed, "win:"@) && begins(requested, "win:"@) && lp == last_piece(requested, ':')
        && all_digits(lp)
}

fn all_digit_chars(v: &Vec<char>) -> (r: bool)
    ensures
        r == all_digits(v@),
{
    let mut i: usize = 0;
    while i < v.len()
        invariant
            i <= v@.len(),
            forall|j: int| 0 <= j < i ==> crate::text::is_digit(#[trigger] v@[j]),
        decreases v.len() - i,
    {
        if !('0' <= v[i] && v[i] <= '9') {
            return false;
        }
        i = i + 1;
    }
    true
}

pub fn desktop_tab_ids_equiv(listed: &str, requested: &str) -> (r: bool)
    ensures
        r == tab_ids_equiv(listed@, requested@),
{
    let l = chars_of(listed);
    let q = chars_of(requested);
    if same_vec(&l, &q) || same_ignore_case(&l, &q) {
        return true;
    }
    let lp = last_piece_vec(&l, ':');
    let rp = last_piece_vec(&q, ':');
    begins_str(&l, "win:") && begins_str(&q, "win:") && same_vec(&lp, &rp) && all_digit_chars(&lp)
}

// ---------------------------------------------------------------------------
// Browser kinds and lens tabs
// ---------------------------------------------------------------------------

/// The browser kind a frontmost application name denotes (Edge before Chrome).
pub open spec fn frontmost_kind_of(name: Option<Seq<char>>) -> Option<Seq<char>> {
    match name {
        Some(n) => if is_frontmost_name("Microsoft Edge"@, n) {
            Some("edge"@)
        } else if is_frontmost_name("Chrome"@, n) {
            Some("chrome"@)
        } else {
            None
        },
        None => None,
    }
}

pub fn kind_from_frontmost(name: Option<&str>) -> (r: Option<&'static str>)
    ensures
        opt_view(r) == frontmost_kind_of(opt_view(name)),
{
    let name = match name {
        Some(n) => n,
        None => return None,
    };
    if browser_name_is_frontmost("Microsoft Edge", name) {
        Some("edge")
    } else if browser_name_is_frontmost("Chrome", name) {
        Some("chrome")
    } else {
        None
    }
}

pub const BROWSER_MUST_BE: &'static str = "browser must be chrome or edge";

/// The browser an observe request names: absent or blank means none; otherwise Chrome
/// or Edge by either of its names, ignoring case.
pub open spec fn observe_browser_of(raw: Option<Seq<char>>) -> Result<Option<Seq<char>>, ()> {
    match nonblank(raw) {
        None => Ok(None),
        Some(t) => {
            let l = lower(t);
            if l == "chrome"@ || l == "google chrome"@ {
                Ok(Some("chrome"@))
            } else if l == "edge"@ || l == "microsoft edge"@ {
                Ok(Some("edge"@))
            } else {
                Err(())
            }
        },
    }
}

pub fn parse_observe_browser(raw: Option<&str>) -> (r: Result<Option<&'static str>, VcuError>)
    ensures
        match (r, observe_browser_of(opt_view(raw))) {
            (Ok(a), Ok(b)) => opt_view(a) == b,
            (Err(e), Err(_)) => e.code == ErrorCode::InvalidInput && e.message@ == BROWSER_MUST_BE@,
            _ => false,
        },
{
    let raw = match raw {
        Some(t) => t,
        None => return Ok(None),
    };
    let t = trimmed_of(raw);
    if t.len() == 0 {
        return Ok(None);
    }
    let l = lower_vec(&t);
    if same_str(&l, "chrome") || same_str(&l, "google chrome") {
        Ok(Some("chrome"))
    } else if same_str(&l, "edge") || same_str(&l, "microsoft edge") {
        Ok(Some("edge"))
    } else {
        Err(VcuError::coded(ErrorCode::InvalidInput, owned(BROWSER_MUST_BE)))
    }
}

/// A tab as the browser lens lists it.
#[derive(Debug, Clone)]
pub struct LensTab {
    /// The tab id as text (a number is rendered in decimal).
    pub tab_id: Option<String>,
    pub browser: Option<String>,
    pub url: Option<String>,
    pub title: Option<String>,
    pub active: bool,
    pub focused: bool,
}

/// The tab's id, when it has a non-empty one.
pub open spec fn lens_tab_id(t: LensTab) -> Option<Seq<char>> {
    match t.tab_id {
        Some(s) => if s@.len() > 0 {
            Some(s@)
        } else {
            None
        },
        None => None,
    }
}

/// `edge` or `chrome` when the tab says so.
pub open spec fn tab_kind(t: LensTab) -> Option<Seq<char>> {
    match t.browser {
        Some(b) => if b@ == "edge"@ {
            Some("edge"@)
        } else if b@ == "chrome"@ {
            Some("chrome"@)
        } else {
            None
        },
        None => None,
    }
}

pub fn kind_from_tab(tab: &LensTab) -> (r: Option<&'static str>)
    ensures
        opt_view(r) == tab_kind(*tab),
{
    match &tab.browser {
        Some(b) => {
            if crate::text::str_eq(b.as_str(), "edge") {
                Some("edge")
            } else if crate::text::str_eq(b.as_str(), "chrome") {
                Some("chrome")
            } else {
                None
            }
        },
        None => None,
    }
}

/// The tab is what its window shows.
pub open spec fn visible(t: LensTab) -> bool {
    t.active || t.focused
}

pub fn tab_is_visible(tab: &LensTab) -> (r: bool)
    ensures
        r == visible(*tab),
{
    tab.active || tab.focused
}

/// The tab has id `want` and, when a browser is named, is of that browser.
pub open spec fn tab_hit(want: Seq<char>, browser: Option<Seq<char>>) -> spec_fn(LensTab) -> bool {
    |t: LensTab| lens_tab_id(t) == Some(want) && (browser matches Some(b) ==> tab_kind(t) == Some(b))
}

pub const TAB_NOT_FOUND: &'static str = "tab not found";
pub const TAB_AMBIGUOUS: &'static str = "tab_id is ambiguous across Chrome/Edge; pass --browser";

/// The one tab a requested id names: none is an error, and so are two.
pub open spec fn extension_tab_of(tabs: Seq<LensTab>, want: Seq<char>, browser: Option<Seq<char>>) -> Result<
    int,
    (ErrorCode, Seq<char>),
> {
    let p = tab_hit(want, browser);
    match first_where(tabs, p) {
        None => Err((ErrorCode::ActionFailed, TAB_NOT_FOUND@)),
        Some(i) => if exists|j: int| i < j < tabs.len() && p(#[trigger] tabs[j]) {
            Err((ErrorCode::InvalidInput, TAB_AMBIGUOUS@))
        } else {
            Ok(i)
        },
    }
}

fn opt_is(a: &Option<String>, b: &str) -> (r: bool)
    ensures
        r == (a matches Some(s) && s@ == b@),
{
    match a {
        Some(s) => crate::text::str_eq(s.as_str(), b),
        None => false,
    }
}

fn is_tab_hit(t: &LensTab, want: &str, browser: Option<&str>) -> (r: bool)
    ensures
        r == tab_hit(want@, opt_view(browser))(*t),
{
    let id_ok = match &t.tab_id {
        Some(s) => s.as_str().unicode_len() > 0 && crate::text::str_eq(s.as_str(), want),
        None => false,
    };
    if !id_ok {
        return false;
    }
    match browser {
        Some(b) => match kind_from_tab(t) {
            Some(k) => crate::text::str_eq(k, b),
            None => false,
        },
        None => true,
    }
}

/// Index of the one tab `want` names (see `extension_tab_of`).
pub fn find_extension_tab(tabs: &[LensTab], want: &str, browser: Option<&str>) -> (r: Result<usize, VcuError>)
    ensures
        match (r, extension_tab_of(tabs@, want@, opt_view(browser))) {
            (Ok(i), Ok(j)) => i == j,
            (Err(e), Err((code, msg))) => e.code == code && e.message@ == msg,
            _ => false,
        },
{
    let ghost p = tab_hit(want@, opt_view(browser));
    let mut first: Option<usize> = None;
    let mut i: usize = 0;
    while i < tabs.len()
        invariant
            i <= tabs@.len(),
            p == tab_hit(want@, opt_view(browser)),
            match first {
                Some(k) => k < i && is_first(tabs@, p, k as int) && forall|j: int|
                    k < j < i ==> !p(#[trigger] tabs@[j]),
                None => forall|j: int| 0 <= j < i ==> !p(#[trigger] tabs@[j]),
            },
        decreases tabs.len() - i,
    {
        if is_tab_hit(&tabs[i], want, browser) {
            match first {
                Some(k) => {
                    proof {
                        lemma_first_where(tabs@, p, k as int);
                        assert(p(tabs@[i as int]));
                    }
                    return Err(VcuError::coded(ErrorCode::InvalidInput, owned(TAB_AMBIGUOUS)));
                },
                None => {
                    first = Some(i);
                },
            }
        }
        i = i + 1;
    }
    match first {
        Some(k) => {
            proof {
                lemma_first_where(tabs@, p, k as int);
            }
            Ok(k)
        },
        None => {
            proof {
                lemma_first_where_none(tabs@, p);
            }
            Err(VcuError::coded(ErrorCode::ActionFailed, owned(TAB_NOT_FOUND)))
        },
    }
}

/// The tab is of browser `kind` (any tab when no kind is given).
pub open spec fn kind_matches(kind: Option<Seq<char>>) -> spec_fn(LensTab) -> bool {
    |t: LensTab| (kind matches Some(k) ==> (t.browser matches Some(b) && b@ == k))
}

pub open spec fn kind_visible(kind: Option<Seq<char>>) -> spec_fn(LensTab) -> bool {
    |t: LensTab| kind_matches(kind)(t) && visible(t)
}

/// The tab a kind-scoped observe looks at: the first visible tab of that kind, else
/// (when a kind is given) the first tab of that kind.
pub open spec fn focused_tab_of(tabs: Seq<LensTab>, kind: Option<Seq<char>>) -> Option<int> {
    if first_where(tabs, kind_visible(kind)) is Some {
        first_where(tabs, kind_visible(kind))
    } else if kind is Some {
        first_where(tabs, kind_matches(kind))
    } else {
        None
    }
}

fn first_lens_tab(tabs: &[LensTab], kind: Option<&str>, need_visible: bool) -> (r: Option<usize>)
    ensures
        r matches Some(i) ==> i < tabs@.len(),
        opt_usize(r) == first_where(
            tabs@,
            if need_visible { kind_visible(opt_view(kind)) } else { kind_matches(opt_view(kind)) },
        ),
{
    let ghost p = if need_visible { kind_visible(opt_view(kind)) } else { kind_matches(opt_view(kind)) };
    let mut i: usize = 0;
    while i < tabs.len()
        invariant
            i <= tabs@.len(),
            p == (if need_visible { kind_visible(opt_view(kind)) } else { kind_matches(opt_view(kind)) }),
            forall|j: int| 0 <= j < i ==> !p(#[trigger] tabs@[j]),
        decreases tabs.len() - i,
    {
        let t = &tabs[i];
        let kind_ok = match kind {
            Some(k) => opt_is(&t.browser, k),
            None => true,
        };
        if kind_ok && (!need_visible || tab_is_visible(t)) {
            proof {
                lemma_first_where(tabs@, p, i as int);
            }
            return Some(i);
        }
        i = i + 1;
    }
    proof {
        lemma_first_where_none(tabs@, p);
    }
    None
}

pub open spec fn opt_usize(o: Option<usize>) -> Option<int> {
    match o {
        Some(i) => Some(i as int),
        None => None,
    }
}

pub fn focused_extension_tab(tabs: &[LensTab], kind: Option<&str>) -> (r: Option<usize>)
    ensures
        r matches Some(i) ==> i < tabs@.len(),
        opt_usize(r) == focused_tab_of(tabs@, opt_view(kind)),
{
    if let Some(i) = first_lens_tab(tabs, kind, true) {
        return Some(i);
    }
    if kind.is_some() {
        first_lens_tab(tabs, kind, false)
    } else {
        None
    }
}

// ---------------------------------------------------------------------------
// Observe through the lens
// ---------------------------------------------------------------------------

/// The tab an observe reads, its browser kind, its id, and whether it must be selected
/// first (an explicitly requested tab that is not showing).
#[derive(Debug, Clone)]
pub struct ObservePick {
    pub index: usize,
    pub kind: Option<&'static str>,
    pub tab_id: String,
    pub select_first: bool,
}

pub const NO_FOCUSED_FOR_BROWSER: &'static str = "no focused USER tab for observe --browser; pass --tab";
pub const FRONTMOST_NOT_BROWSER: &'static str = "frontmost is not USER Chrome/Edge; pass observe --tab or --browser";
pub const NO_FOCUSED_TAB: &'static str = "no focused USER tab for observe; pass --tab";
pub const OBSERVE_TAB_NO_ID: &'static str = "observe tab missing tab_id";

pub open spec fn or_kind(a: Option<Seq<char>>, b: Option<Seq<char>>) -> Option<Seq<char>> {
    if a is Some { a } else { b }
}

/// Which tab an observe reads: an explicit tab by id; else the focused tab of the named
/// browser; else the focused, showing tab of the frontmost browser. The result is the
/// tab's index, its kind, its id and whether to select it first.
pub open spec fn observe_pick_of(
    tabs: Seq<LensTab>,
    want_tab: Option<Seq<char>>,
    want_browser: Option<Seq<char>>,
    frontmost: Option<Seq<char>>,
) -> Result<(int, Option<Seq<char>>, Seq<char>, bool), (ErrorCode, Seq<char>)> {
    match observe_browser_of(want_browser) {
        Err(_) => Err((ErrorCode::InvalidInput, BROWSER_MUST_BE@)),
        Ok(want_kind) => {
            let requested = nonblank(want_tab);
            let picked: Result<(int, Option<Seq<char>>), (ErrorCode, Seq<char>)> = if requested is Some {
                match extension_tab_of(tabs, requested->0, want_kind) {
                    Err(e) => Err(e),
                    Ok(i) => Ok((i, or_kind(or_kind(tab_kind(tabs[i]), want_kind), frontmost_kind_of(frontmost)))),
                }
            } else if want_kind is Some {
                match focused_tab_of(tabs, want_kind) {
                    Some(i) => if tab_kind(tabs[i]) == want_kind {
                        Ok((i, want_kind))
                    } else {
                        Err((ErrorCode::ActionFailed, NO_FOCUSED_FOR_BROWSER@))
                    },
                    None => Err((ErrorCode::ActionFailed, NO_FOCUSED_FOR_BROWSER@)),
                }
            } else {
                match frontmost_kind_of(frontmost) {
                    None => Err((ErrorCode::InvalidInput, FRONTMOST_NOT_BROWSER@)),
                    Some(k) => match focused_tab_of(tabs, Some(k)) {
                        Some(i) => if tab_kind(tabs[i]) == Some(k) && visible(tabs[i]) {
                            Ok((i, Some(k)))
                        } else {
                            Err((ErrorCode::ActionFailed, NO_FOCUSED_TAB@))
                        },
                        None => Err((ErrorCode::ActionFailed, NO_FOCUSED_TAB@)),
                    },
                }
            };
            match picked {
                Err(e) => Err(e),
                Ok((i, kind)) => match lens_tab_id(tabs[i]) {
                    None => Err((ErrorCode::ActionFailed, OBSERVE_TAB_NO_ID@)),
                    Some(id) => Ok((i, kind, id, requested is Some && !visible(tabs[i]))),
                },
            }
        },
    }
}

fn or_static(a: Option<&'static str>, b: Option<&'static str>) -> (r: Option<&'static str>)
    ensures
        opt_view(r) == or_kind(opt_view(a), opt_view(b)),
{
    if a.is_some() { a } else { b }
}

pub fn choose_observe_tab(
    tabs: &[LensTab],
    want_tab: Option<&str>,
    want_browser: Option<&str>,
    frontmost: Option<&str>,
) -> (r: Result<ObservePick, VcuError>)
    ensures
        match (r, observe_pick_of(tabs@, opt_view(want_tab), opt_view(want_browser), opt_view(frontmost))) {
            (Ok(p), Ok((i, kind, id, sel))) => p.index == i && opt_view(p.kind) == kind && p.tab_id@ == id
                && p.select_first == sel,
            (Err(e), Err((code, msg))) => e.code == code && e.message@ == msg,
            _ => false,
        },
{
    let want_kind = match parse_observe_browser(want_browser) {
        Ok(k) => k,
        Err(e) => return Err(e),
    };
    let requested: Option<Vec<char>> = match want_tab {
        Some(t) => {
            let v = trimmed_of(t);
            if v.len() == 0 { None } else { Some(v) }
        },
        None => None,
    };
    let (index, kind) = match &requested {
        Some(w) => {
            let ws = string_of(w);
            let i = match find_extension_tab(tabs, ws.as_str(), want_kind) {
                Ok(i) => i,
                Err(e) => return Err(e),
            };
            let kind = or_static(or_static(kind_from_tab(&tabs[i]), want_kind), kind_from_frontmost(frontmost));
            (i, kind)
        },
        None => match want_kind {
            Some(k) => {
                let i = match focused_extension_tab(tabs, Some(k)) {
                    Some(i) => i,
                    None => return Err(VcuError::coded(ErrorCode::ActionFailed, owned(NO_FOCUSED_FOR_BROWSER))),
                };
                let same = match kind_from_tab(&tabs[i]) {
                    Some(tk) => crate::text::str_eq(tk, k),
                    None => false,
                };
                if !same {
                    return Err(VcuError::coded(ErrorCode::ActionFailed, owned(NO_FOCUSED_FOR_BROWSER)));
                }
                (i, Some(k))
            },
            None => {
                let k = match kind_from_frontmost(frontmost) {
                    Some(k) => k,
                    None => return Err(VcuError::coded(ErrorCode::InvalidInput, owned(FRONTMOST_NOT_BROWSER))),
                };
                let i = match focused_extension_tab(tabs, Some(k)) {
                    Some(i) => i,
                    None => return Err(VcuError::coded(ErrorCode::ActionFailed, owned(NO_FOCUSED_TAB))),
                };
                let same = match kind_from_tab(&tabs[i]) {
                    Some(tk) => crate::text::str_eq(tk, k),
                    None => false,
                };
                if !same || !tab_is_visible(&tabs[i]) {
                    return Err(VcuError::coded(ErrorCode::ActionFailed, owned(NO_FOCUSED_TAB)));
                }
                (i, Some(k))
            },
        },
    };
    let tab_id = match &tabs[index].tab_id {
        Some(s) => {
            if s.as_str().unicode_len() == 0 {
                return Err(VcuError::coded(ErrorCode::ActionFailed, owned(OBSERVE_TAB_NO_ID)));
            }
            owned(s.as_str())
        },
        None => return Err(VcuError::coded(ErrorCode::ActionFailed, owned(OBSERVE_TAB_NO_ID))),
    };
    let select_first = requested.is_some() && !tab_is_visible(&tabs[index]);
    Ok(ObservePick { index, kind, tab_id, select_first })
}

// ---------------------------------------------------------------------------
// Desktop app ids of user browsers
// ---------------------------------------------------------------------------

/// `proc:<name with spaces as underscores>:<pid>`.
pub open spec fn proc_id_of(name: Seq<char>, pid: i32) -> Seq<char> {
    "proc:"@ + replace_char(name, ' ', "_"@) + ":"@ + decimal(pid as int)
}

pub fn proc_app_id(name: &str, pid: i32) -> (r: String)
    ensures
        r@ == proc_id_of(name@, pid),
{
    let mut under: Vec<char> = Vec::new();
    under.push('_');
    let replaced = replace_char_vec(&chars_of(name), ' ', &under);
    proof {
        reveal_strlit("_");
        assert(under@ =~= "_"@);
    }
    let mut r = cat(owned("proc:"), string_of(&replaced).as_str());
    r = cat(r, ":");
    cat(r, i32_string(pid).as_str())
}

pub const NO_USER_BROWSER: &'static str = "no user Chrome/Edge; login-state needs the user browser window";

/// The desktop window a login-state request acts on: an explicit or freshly observed
/// app id, else the first user browser.
pub open spec fn login_app_of(
    users: Seq<BrowserProc>,
    app_id: Option<Seq<char>>,
    last: Option<LastObserve>,
    now_ms: u64,
) -> Option<Seq<char>> {
    match app_binding(app_id, last, now_ms) {
        Some(id) => Some(id),
        None => if users.len() > 0 {
            Some(proc_id_of(users[0].name@, users[0].pid))
        } else {
            None
        },
    }
}

pub fn login_user_app_id(
    login: &LoginBrowserReport,
    app_id: Option<&str>,
    last: Option<&LastObserve>,
    now_ms: u64,
) -> (r: Result<String, VcuError>)
    ensures
        match (r, login_app_of(login.user_browsers@, opt_view(app_id), opt_ref(last), now_ms)) {
            (Ok(a), Some(b)) => a@ == b,
            (Err(e), None) => e.code == ErrorCode::ActionFailed && e.message@ == NO_USER_BROWSER@,
            _ => false,
        },
{
    if let Some(id) = bind_app_id(app_id, last, now_ms) {
        return Ok(id);
    }
    if login.user_browsers.len() == 0 {
        return Err(VcuError::coded(ErrorCode::ActionFailed, owned(NO_USER_BROWSER)));
    }
    let user = &login.user_browsers[0];
    Ok(proc_app_id(user.name.as_str(), user.pid))
}

/// A user browser of the given kind: Edge by name, Chrome by name but not Edge; any
/// browser for another or no kind.
pub open spec fn user_of_kind(kind: Option<Seq<char>>) -> spec_fn(BrowserProc) -> bool {
    |u: BrowserProc|
        {
            let n = lower(u.name@);
            if kind == Some("edge"@) {
                seq_has(n, "edge"@)
            } else if kind == Some("chrome"@) {
                seq_has(n, "chrome"@) && !seq_has(n, "edge"@)
            } else {
                true
            }
        }
}

/// The app id a lens observe is recorded under: the first user browser of its kind, or
/// `proc:<kind>:lens` (Chrome when no kind) when there is none.
pub open spec fn lens_app_of(users: Seq<BrowserProc>, kind: Option<Seq<char>>) -> Seq<char> {
    match first_where(users, user_of_kind(kind)) {
        Some(i) => proc_id_of(users[i].name@, users[i].pid),
        None => "proc:"@ + (match kind {
            Some(k) => k,
            None => "Chrome"@,
        }) + ":lens"@,
    }
}

fn user_matches_kind(u: &BrowserProc, kind: Option<&str>) -> (r: bool)
    ensures
        r == user_of_kind(opt_view(kind))(*u),
{
    proof {
        reveal_strlit("edge");
        reveal_strlit("chrome");
    }
    let n = lower_of(u.name.as_str());
    match kind {
        Some(k) => {
            if crate::text::str_eq(k, "edge") {
                has_str(&n, "edge")
            } else if crate::text::str_eq(k, "chrome") {
                has_str(&n, "chrome") && !has_str(&n, "edge")
            } else {
                true
            }
        },
        None => true,
    }
}

/// Index of the first user browser of the kind (see `user_of_kind`).
pub fn lens_user_index(users: &[BrowserProc], kind: Option<&str>) -> (r: Option<usize>)
    ensures
        r matches Some(i) ==> i < users@.len(),
        opt_usize(r) == first_where(users@, user_of_kind(opt_view(kind))),
{
    let ghost p = user_of_kind(opt_view(kind));
    let mut i: usize = 0;
    while i < users.len()
        invariant
            i <= users@.len(),
            p == user_of_kind(opt_view(kind)),
            forall|j: int| 0 <= j < i ==> !p(#[trigger] users@[j]),
        decreases users.len() - i,
    {
        if user_matches_kind(&users[i], kind) {
            proof {
                lemma_first_where(users@, p, i as int);
            }
            return Some(i);
        }
        i = i + 1;
    }
    proof {
        lemma_first_where_none(users@, p);
    }
    None
}

pub fn lens_app_id(users: &[BrowserProc], kind: Option<&str>) -> (r: String)
    ensures
        r@ == lens_app_of(users@, opt_view(kind)),
{
    match lens_user_index(users, kind) {
        Some(i) => proc_app_id(users[i].name.as_str(), users[i].pid),
        None => {
            let k = match kind {
                Some(k) => k,
                None => "Chrome",
            };
            cat(cat(owned("proc:"), k), ":lens")
        },
    }
}

// ---------------------------------------------------------------------------
// Routes of login-state actions
// ---------------------------------------------------------------------------

/// How a click request is carried out.
#[derive(Debug, Clone, Copy, PartialEq, Eq, Structural)]
pub enum ClickRoute {
    /// Screenshot-pixel click in the lens viewport.
    Viewport,
    /// DOM selector click through the user-browser lens.
    Selector,
    /// Screenshot-pixel click mapped onto the observed browser window.
    Pixel,
}

pub const CAPTURE_NEEDS_VIEWPORT: &'static str = "capture_id requires space=viewport";
pub const SELECTOR_OR_PIXELS: &'static str = "choose selector or screenshot pixels, not both";
pub const TAB_NEEDS_SELECTOR: &'static str = "tab_id requires selector; pixel clicks target the observed browser window";
pub const ALLOW_DIALOG_CLICK: &'static str = "Allow debugging dialog is visible; agent will not click. Use --dry-run or observe.";
pub const LENS_NOT_POLLING_CLICK: &'static str = "USER Edge extension is not polling; cannot click via DOM selector";
pub const AGENT_PROFILE_CLICK: &'static str = "extension_profile is not user; refusing Agent Edge click";
pub const PIXEL_X_REQUIRED: &'static str = "pixel_x required";
pub const PIXEL_Y_REQUIRED: &'static str = "pixel_y required";

/// The parts of a click request its route depends on.
#[derive(Debug, Clone)]
pub struct ClickAsk {
    pub space: Option<String>,
    pub has_capture_id: bool,
    pub selector: Option<String>,
    pub has_pixel_x: bool,
    pub has_pixel_y: bool,
    pub has_tab_id: bool,
    pub dry_run: bool,
}

/// A click's route, or why it is refused. The lens state (`polling`, `user_profile`)
/// and the Allow dialog come from probes; no click happens while the dialog shows
/// unless it is a dry run, and a selector click needs the lens polling in the user
/// profile.
pub open spec fn click_route_of(a: ClickAsk, allow_dialog: bool, polling: bool, user_profile: bool) -> Result<
    ClickRoute,
    (ErrorCode, Seq<char>),
> {
    if a.space matches Some(sp) && sp@ == "viewport"@ {
        Ok(ClickRoute::Viewport)
    } else if a.has_capture_id {
        Err((ErrorCode::InvalidInput, CAPTURE_NEEDS_VIEWPORT@))
    } else if a.selector is Some && (a.has_pixel_x || a.has_pixel_y) {
        Err((ErrorCode::InvalidInput, SELECTOR_OR_PIXELS@))
    } else if a.selector is None && a.has_tab_id {
        Err((ErrorCode::InvalidInput, TAB_NEEDS_SELECTOR@))
    } else if !a.dry_run && allow_dialog {
        Err((ErrorCode::FocusPolicyViolation, ALLOW_DIALOG_CLICK@))
    } else if a.selector matches Some(sel) && sel@.len() > 0 {
        if !polling {
            Err((ErrorCode::ExtensionDisconnected, LENS_NOT_POLLING_CLICK@))
        } else if !user_profile {
            Err((ErrorCode::ActionFailed, AGENT_PROFILE_CLICK@))
        } else {
            Ok(ClickRoute::Selector)
        }
    } else if !a.has_pixel_x {
        Err((ErrorCode::InvalidInput, PIXEL_X_REQUIRED@))
    } else if !a.has_pixel_y {
        Err((ErrorCode::InvalidInput, PIXEL_Y_REQUIRED@))
    } else {
        Ok(ClickRoute::Pixel)
    }
}

fn refuse(code: ErrorCode, msg: &str) -> (e: VcuError)
    ensures
        e.code == code,
        e.message@ == msg@,
{
    VcuError::coded(code, owned(msg))
}

pub fn plan_browser_click(a: &ClickAsk, allow_dialog: bool, polling: bool, user_profile: bool) -> (r: Result<
    ClickRoute,
    VcuError,
>)
    ensures
        match (r, click_route_of(*a, allow_dialog, polling, user_profile)) {
            (Ok(x), Ok(y)) => x == y,
            (Err(e), Err((code, msg))) => e.code == code && e.message@ == msg,
            _ => false,
        },
{
    if let Some(sp) = &a.space {
        if crate::text::str_eq(sp.as_str(), "viewport") {
            return Ok(ClickRoute::Viewport);
        }
    }
    if a.has_capture_id {
        return Err(refuse(ErrorCode::InvalidInput, CAPTURE_NEEDS_VIEWPORT));
    }
    if a.selector.is_some() && (a.has_pixel_x || a.has_pixel_y) {
        return Err(refuse(ErrorCode::InvalidInput, SELECTOR_OR_PIXELS));
    }
    if a.selector.is_none() && a.has_tab_id {
        return Err(refuse(ErrorCode::InvalidInput, TAB_NEEDS_SELECTOR));
    }
    if !a.dry_run && allow_dialog {
        return Err(refuse(ErrorCode::FocusPolicyViolation, ALLOW_DIALOG_CLICK));
    }
    if let Some(sel) = &a.selector {
        if sel.as_str().unicode_len() > 0 {
            if !polling {
                return Err(refuse(ErrorCode::ExtensionDisconnected, LENS_NOT_POLLING_CLICK));
            }
            if !user_profile {
                return Err(refuse(ErrorCode::ActionFailed, AGENT_PROFILE_CLICK));
            }
            return Ok(ClickRoute::Selector);
        }
    }
    if !a.has_pixel_x {
        return Err(refuse(ErrorCode::InvalidInput, PIXEL_X_REQUIRED));
    }
    if !a.has_pixel_y {
        return Err(refuse(ErrorCode::InvalidInput, PIXEL_Y_REQUIRED));
    }
    Ok(ClickRoute::Pixel)
}

/// How a type request is carried out.
#[derive(Debug, Clone, Copy, PartialEq, Eq, Structural)]
pub enum TypeRoute {
    /// Into the element a DOM selector names, through the lens.
    Selector,
    /// Into the user browser's address/search field.
    AddressBar,
}

pub const ALLOW_DIALOG_TYPE: &'static str = "Allow debugging dialog is visible; agent will not type.";
pub const LENS_NOT_POLLING_TYPE: &'static str = "USER Edge extension is not polling; cannot type via DOM selector";
pub const AGENT_PROFILE_TYPE: &'static str = "extension_profile is not user; refusing Agent Edge type";
pub const TAB_NEEDS_SELECTOR_TYPE: &'static str = "tab_id requires a DOM selector for type";

pub open spec fn type_route_of(
    selector: Option<Seq<char>>,
    has_tab_id: bool,
    dry_run: bool,
    allow_dialog: bool,
    polling: bool,
    user_profile: bool,
) -> Result<TypeRoute, (ErrorCode, Seq<char>)> {
    if !dry_run && allow_dialog {
        Err((ErrorCode::FocusPolicyViolation, ALLOW_DIALOG_TYPE@))
    } else if selector matches Some(sel) && sel.len() > 0 {
        if !polling {
            Err((ErrorCode::ExtensionDisconnected, LENS_NOT_POLLING_TYPE@))
        } else if !user_profile {
            Err((ErrorCode::ActionFailed, AGENT_PROFILE_TYPE@))
        } else {
            Ok(TypeRoute::Selector)
        }
    } else if has_tab_id {
        Err((ErrorCode::InvalidInput, TAB_NEEDS_SELECTOR_TYPE@))
    } else {
        Ok(TypeRoute::AddressBar)
    }
}

pub fn plan_browser_type(
    selector: Option<&str>,
    has_tab_id: bool,
    dry_run: bool,
    allow_dialog: bool,
    polling: bool,
    user_profile: bool,
) -> (r: Result<TypeRoute, VcuError>)
    ensures
        match (r, type_route_of(opt_view(selector), has_tab_id, dry_run, allow_dialog, polling, user_profile)) {
            (Ok(x), Ok(y)) => x == y,
            (Err(e), Err((code, msg))) => e.code == code && e.message@ == msg,
            _ => false,
        },
        (selector matches Some(s) && s@.len() > 0) ==> !(r matches Ok(TypeRoute::AddressBar)),
        (selector matches Some(s) && s@.len() > 0) && (dry_run || !allow_dialog) && !polling ==> (r matches Err(e)
            && e.code == ErrorCode::ExtensionDisconnected && e.message@ == LENS_NOT_POLLING_TYPE@),
{
    if !dry_run && allow_dialog {
        return Err(refuse(ErrorCode::FocusPolicyViolation, ALLOW_DIALOG_TYPE));
    }
    proof {
        if let Some(sel) = selector {
            if sel@.len() > 0 {
                lemma_selector_type_never_hits_address_bar(sel@, has_tab_id, dry_run, allow_dialog, polling, user_profile);
            }
        }
    }
    if let Some(sel) = selector {
        if sel.unicode_len() > 0 {
            if !polling {
                return Err(refuse(ErrorCode::ExtensionDisconnected, LENS_NOT_POLLING_TYPE));
            }
            if !user_profile {
                return Err(refuse(ErrorCode::ActionFailed, AGENT_PROFILE_TYPE));
            }
            return Ok(TypeRoute::Selector);
        }
    }
    if has_tab_id {
        return Err(refuse(ErrorCode::InvalidInput, TAB_NEEDS_SELECTOR_TYPE));
    }
    Ok(TypeRoute::AddressBar)
}

/// How a scroll request is carried out.
#[derive(Debug, Clone, Copy, PartialEq, Eq, Structural)]
pub enum ScrollRoute {
    /// Through the user-browser lens.
    Lens,
    /// Nothing is scrolled: a dry run without the lens.
    DryRun,
    /// Through the desktop adapter on the user browser window.
    Window,
}

pub const ALLOW_DIALOG_SCROLL: &'static str = "Allow debugging dialog is visible; agent will not scroll.";
pub const TAB_SCROLL_NEEDS_LENS: &'static str = "explicit tab scroll requires the USER extension";

pub open spec fn scroll_route_of(dry_run: bool, allow_dialog: bool, lens_ready: bool, has_tab_id: bool) -> Result<
    ScrollRoute,
    (ErrorCode, Seq<char>),
> {
    if !dry_run && allow_dialog {
        Err((ErrorCode::FocusPolicyViolation, ALLOW_DIALOG_SCROLL@))
    } else if lens_ready {
        Ok(ScrollRoute::Lens)
    } else if has_tab_id {
        Err((ErrorCode::ExtensionDisconnected, TAB_SCROLL_NEEDS_LENS@))
    } else if dry_run {
        Ok(ScrollRoute::DryRun)
    } else {
        Ok(ScrollRoute::Window)
    }
}

pub fn plan_browser_scroll(dry_run: bool, allow_dialog: bool, lens_ready: bool, has_tab_id: bool) -> (r: Result<
    ScrollRoute,
    VcuError,
>)
    ensures
        match (r, scroll_route_of(dry_run, allow_dialog, lens_ready, has_tab_id)) {
            (Ok(x), Ok(y)) => x == y,
            (Err(e), Err((code, msg))) => e.code == code && e.message@ == msg,
            _ => false,
        },
{
    if !dry_run && allow_dialog {
        return Err(refuse(ErrorCode::FocusPolicyViolation, ALLOW_DIALOG_SCROLL));
    }
    if lens_ready {
        return Ok(ScrollRoute::Lens);
    }
    if has_tab_id {
        return Err(refuse(ErrorCode::ExtensionDisconnected, TAB_SCROLL_NEEDS_LENS));
    }
    if dry_run {
        Ok(ScrollRoute::DryRun)
    } else {
        Ok(ScrollRoute::Window)
    }
}

// ---------------------------------------------------------------------------
// Waits
// ---------------------------------------------------------------------------

/// The longest a login-state wait may last, in milliseconds.
pub const WAIT_CAP_MS: u64 = 8000;

pub fn wait_budget_ms(ms: u64) -> (r: u64)
    ensures
        r == (if ms < WAIT_CAP_MS { ms } else { WAIT_CAP_MS }),
{
    if ms < WAIT_CAP_MS { ms } else { WAIT_CAP_MS }
}

/// One element an extract returned: its text and value, when they are strings.
#[derive(Debug, Clone)]
pub struct ExtractMatch {
    pub text: Option<String>,
    pub value: Option<String>,
}

pub open spec fn text_or_empty(s: Option<String>) -> Seq<char> {
    match s {
        Some(t) => t@,
        None => Seq::empty(),
    }
}

/// The text a wait looks in: text then value.
pub open spec fn match_text(m: ExtractMatch) -> Seq<char> {
    text_or_empty(m.text) + text_or_empty(m.value)
}

pub fn extract_match_text(m: &ExtractMatch) -> (r: String)
    ensures
        r@ == match_text(*m),
{
    let mut r = String::new();
    if let Some(t) = &m.text {
        r = cat(r, t.as_str());
    }
    if let Some(v) = &m.value {
        r = cat(r, v.as_str());
    }
    r
}

/// A selector wait is satisfied: the extract returned an array with some element, and
/// with a (non-blank) needle, some element's text contains it.
pub open spec fn extract_satisfies(matches: Option<Seq<ExtractMatch>>, needle: Option<Seq<char>>) -> bool {
    match matches {
        None => false,
        Some(ms) => ms.len() > 0 && match nonblank(needle) {
            None => true,
            Some(n) => exists|i: int| 0 <= i < ms.len() && seq_has(match_text(#[trigger] ms[i]), n),
        },
    }
}

/// `matches` is `None` when the extract's `matches` is not an array.
pub fn extract_has_text(matches: Option<&[ExtractMatch]>, needle: Option<&str>) -> (r: bool)
    ensures
        r == extract_satisfies(
            match matches {
                Some(m) => Some(m@),
                None => None,
            },
            opt_view(needle),
        ),
{
    let arr = match matches {
        Some(m) => m,
        None => return false,
    };
    if arr.len() == 0 {
        return false;
    }
    let n = match needle {
        Some(t) => {
            let v = trimmed_of(t);
            if v.len() == 0 {
                return true;
            }
            v
        },
        None => return true,
    };
    let mut i: usize = 0;
    while i < arr.len()
        invariant
            i <= arr@.len(),
            n@ == trim(needle->0@),
            n@.len() > 0,
            needle is Some,
            arr@.len() > 0,
            matches is Some && matches->0@ == arr@,
            forall|j: int| 0 <= j < i ==> !seq_has(match_text(#[trigger] arr@[j]), n@),
        decreases arr.len() - i,
    {
        let t = extract_match_text(&arr[i]);
        if has_vec(&chars_of(t.as_str()), &n) {
            assert(seq_has(match_text(arr@[i as int]), n@));
            return true;
        }
        i = i + 1;
    }
    false
}

/// What a login-state wait on the browser window does.
#[derive(Debug, Clone, Copy, PartialEq, Eq, Structural)]
pub enum WaitRoute {
    /// A web-area or webview role is present at once.
    WebviewFast,
    /// No ref, name or role: just sleep for the budget.
    Sleep,
    /// Poll window snapshots until an element matches or the budget ends.
    Poll,
}

pub open spec fn wait_route_of(role: Option<Seq<char>>, has_ref: bool, has_name: bool) -> WaitRoute {
    let r = lower(match role {
        Some(x) => x,
        None => Seq::empty(),
    });
    if seq_has(r, "webarea"@) || seq_has(r, "webview"@) {
        WaitRoute::WebviewFast
    } else if !(has_ref || has_name || role is Some) {
        WaitRoute::Sleep
    } else {
        WaitRoute::Poll
    }
}

pub fn plan_login_wait(role: Option<&str>, has_ref: bool, has_name: bool) -> (r: WaitRoute)
    ensures
        r == wait_route_of(opt_view(role), has_ref, has_name),
{
    let r = match role {
        Some(x) => lower_of(x),
        None => Vec::new(),
    };
    proof {
        if role is None {
            assert(r@ =~= lower(Seq::<char>::empty()));
        }
    }
    if has_str(&r, "webarea") || has_str(&r, "webview") {
        WaitRoute::WebviewFast
    } else if !(has_ref || has_name || role.is_some()) {
        WaitRoute::Sleep
    } else {
        WaitRoute::Poll
    }
}

// ---------------------------------------------------------------------------
// Session snapshots
// ---------------------------------------------------------------------------

/// When a session consults a vision model.
#[derive(Debug, Clone, Copy, PartialEq, Eq, Structural)]
pub enum VisionPolicy {
    DomOnly,
    DomFirst,
    VisionFirst,
    VisionAlways,
}

/// Vision is used when forced, always under the vision policies, never under DOM-only,
/// and under DOM-first only when the DOM came back empty.
pub open spec fn uses_vision(policy: VisionPolicy, force: bool, dom_empty: bool) -> bool {
    if force {
        true
    } else {
        match policy {
            VisionPolicy::DomOnly => false,
            VisionPolicy::VisionAlways | VisionPolicy::VisionFirst => true,
            VisionPolicy::DomFirst => dom_empty,
        }
    }
}

/// The key in `value`, read from the environment variable `env_name`: an unset or blank
/// key is refused (with the message and the detail the refusal carries).
pub open spec fn api_key_of(env_name: Seq<char>, value: Option<Seq<char>>) -> Result<
    Seq<char>,
    (Seq<char>, Option<Seq<char>>),
> {
    match value {
        None => Err(("env "@ + env_name + VISION_KEY_UNSET_TAIL@, Some("export "@ + env_name + "=... then retry"@))),
        Some(v) => if trim(v).len() == 0 {
            Err((env_name + VISION_KEY_EMPTY_TAIL@, None))
        } else {
            Ok(v)
        },
    }
}

/// The vision model service: when to consult it, and what its replies mean.
pub struct VisionService;

pub const VISION_KEY_UNSET_TAIL: &'static str = " not set";
pub const VISION_KEY_EMPTY_TAIL: &'static str = " is empty";
pub const EMPTY_VISION_RESPONSE: &'static str = "empty vision response";

impl VisionService {
    pub fn should_use_vision(policy: VisionPolicy, force: bool, dom_empty: bool) -> (r: Result<bool, VcuError>)
        ensures
            r matches Ok(b) && b == uses_vision(policy, force, dom_empty),
    {
        if force {
            return Ok(true);
        }
        match policy {
            VisionPolicy::DomOnly => Ok(false),
            VisionPolicy::VisionAlways | VisionPolicy::VisionFirst => Ok(true),
            VisionPolicy::DomFirst => Ok(dom_empty),
        }
    }

    /// What the mock provider answers: the model, the PNG's byte count and the prompt's
    /// character count.
    pub fn mock_description(model: &str, png_len: u64, prompt: &str) -> (r: String)
        ensures
            r@ == "mock-vision: model="@ + model@ + " bytes="@ + crate::text::nat_decimal(png_len as nat)
                + " prompt_chars="@ + crate::text::nat_decimal(prompt@.len()),
    {
        let chars = chars_of(prompt);
        let n = chars.len() as u64;
        let mut r = cat(owned("mock-vision: model="), model);
        r = cat(r, " bytes=");
        r = cat(r, crate::text::u64_string(png_len).as_str());
        r = cat(r, " prompt_chars=");
        cat(r, crate::text::u64_string(n).as_str())
    }

    /// The API key read from the environment variable `env_name` (`None` when unset):
    /// unset and blank keys are refused.
    pub fn api_key(env_name: &str, value: Option<&str>) -> (r: Result<String, VcuError>)
        ensures
            match (r, api_key_of(env_name@, opt_view(value))) {
                (Ok(k), Ok(v)) => k@ == v,
                (Err(e), Err((msg, detail))) => e.code == ErrorCode::VisionProviderRequired && e.message@ == msg
                    && opt_string_view(e.detail) == detail,
                _ => false,
            },
    {
        match value {
            None => Err(VcuError::with_detail(
                ErrorCode::VisionProviderRequired,
                cat(cat(owned("env "), env_name), VISION_KEY_UNSET_TAIL),
                cat(cat(owned("export "), env_name), "=... then retry"),
            )),
            Some(v) => {
                if trimmed_of(v).len() == 0 {
                    Err(VcuError::coded(ErrorCode::VisionProviderRequired, cat(owned(env_name), VISION_KEY_EMPTY_TAIL)))
                } else {
                    Ok(owned(v))
                }
            },
        }
    }

    /// The configured model a vision call uses, as an index into `model_names` (the
    /// configured models' names, in the order the configuration lists them): the default
    /// model when one is named, else the first configured one; none configured, or a
    /// default that is not configured, is an error.
    pub fn resolve_model(default_model: Option<&str>, model_names: &[String]) -> (r: Result<usize, VcuError>)
        ensures
            match resolve_model_of(opt_view(default_model), strings_view(model_names@)) {
                Ok(i) => r matches Ok(j) && j == i,
                Err((code, msg)) => r matches Err(e) && e.code == code && e.message@ == msg,
            },
    {
        let name: &str = match default_model {
            Some(d) => d,
            None => {
                if model_names.len() == 0 {
                    return Err(VcuError::coded(ErrorCode::VisionProviderRequired, owned(NO_VISION_MODEL)));
                }
                model_names[0].as_str()
            },
        };
        let ghost all = strings_view(model_names@);
        let ghost p = |n: Seq<char>| n == name@;
        let mut i: usize = 0;
        while i < model_names.len()
            invariant
                i <= model_names@.len(),
                all == strings_view(model_names@),
                p == (|n: Seq<char>| n == name@),
                name@ == (match default_model {
                    Some(d) => d@,
                    None => all[0],
                }),
                default_model is None ==> all.len() > 0,
                forall|j: int| 0 <= j < i ==> !p(#[trigger] all[j]),
            decreases model_names.len() - i,
        {
            if crate::text::str_eq(model_names[i].as_str(), name) {
                proof {
                    lemma_first_where(all, p, i as int);
                    let n = resolve_name(opt_view(default_model), all);
                    assert(p =~= (|x: Seq<char>| x == n));
                }
                return Ok(i);
            }
            i = i + 1;
        }
        proof {
            lemma_first_where_none(all, p);
            let n = resolve_name(opt_view(default_model), all);
            assert(p =~= (|x: Seq<char>| x == n));
        }
        Err(VcuError::coded(ErrorCode::ModelNotFound, cat(cat(owned("model '"), name), "' not found")))
    }

    /// The summary in a chat-completions reply (`choices[0].message.content`); an absent
    /// or empty one is a failed call.
    pub fn reply_content(content: Option<&str>) -> (r: Result<String, VcuError>)
        ensures
            match (r, opt_view(content)) {
                (Ok(s), Some(c)) => c.len() > 0 && s@ == c,
                (Err(e), c) => (c is None || c->0.len() == 0) && e.code == ErrorCode::VisionCallFailed
                    && e.message@ == EMPTY_VISION_RESPONSE@,
                _ => false,
            },
    {
        match content {
            Some(c) => {
                if c.unicode_len() > 0 {
                    return Ok(owned(c));
                }
                Err(VcuError::coded(ErrorCode::VisionCallFailed, owned(EMPTY_VISION_RESPONSE)))
            },
            None => Err(VcuError::coded(ErrorCode::VisionCallFailed, owned(EMPTY_VISION_RESPONSE))),
        }
    }
}

pub const NO_VISION_MODEL: &'static str = "no vision model configured";

/// Which configured model (by position) a vision call uses (see
/// `VisionService::resolve_model`).
pub open spec fn resolve_model_of(default_model: Option<Seq<char>>, names: Seq<Seq<char>>) -> Result<
    int,
    (ErrorCode, Seq<char>),
> {
    if default_model is None && names.len() == 0 {
        Err((ErrorCode::VisionProviderRequired, NO_VISION_MODEL@))
    } else {
        let n = resolve_name(default_model, names);
        match first_where(names, |x: Seq<char>| x == n) {
            Some(i) => Ok(i),
            None => Err((ErrorCode::ModelNotFound, "model '"@ + n + "' not found"@)),
        }
    }
}

/// The model name a vision call looks up: the default, else the first configured.
pub open spec fn resolve_name(default_model: Option<Seq<char>>, names: Seq<Seq<char>>) -> Seq<char> {
    match default_model {
        Some(d) => d,
        None => names[0],
    }
}

/// What a snapshot does about vision once the DOM is in.
#[derive(Debug, Clone, Copy, PartialEq, Eq, Structural)]
pub enum VisionStep {
    /// No vision this time.
    Skip,
    /// Describe the screenshot with the resolved model.
    Describe,
    /// Fail with the error that resolving the model gave.
    ModelError,
}

pub const DOM_ONLY_REJECTS_FORCE: &'static str = "vision_policy=dom_only rejects force_vision";
pub const NO_SCREENSHOT_FOR_VISION: &'static str = "no screenshot available for vision";

/// The vision step of a snapshot: a DOM-only session refuses forced vision; a model
/// that cannot be resolved, or a missing screenshot, fails the snapshot only when
/// vision was forced or the policy puts vision first; otherwise vision is skipped.
pub open spec fn vision_step_of(
    policy: VisionPolicy,
    force: bool,
    dom_empty: bool,
    model_resolved: bool,
    has_png: bool,
) -> Result<VisionStep, (ErrorCode, Seq<char>)> {
    let strict = force || policy == VisionPolicy::VisionAlways || policy == VisionPolicy::VisionFirst;
    if !uses_vision(policy, force, dom_empty) {
        Ok(VisionStep::Skip)
    } else if policy == VisionPolicy::DomOnly && force {
        Err((ErrorCode::VisionProviderRequired, DOM_ONLY_REJECTS_FORCE@))
    } else if model_resolved {
        if has_png {
            Ok(VisionStep::Describe)
        } else if strict {
            Err((ErrorCode::VisionCallFailed, NO_SCREENSHOT_FOR_VISION@))
        } else {
            Ok(VisionStep::Skip)
        }
    } else if strict {
        Ok(VisionStep::ModelError)
    } else {
        Ok(VisionStep::Skip)
    }
}

pub fn plan_snapshot_vision(
    policy: VisionPolicy,
    force: bool,
    dom_empty: bool,
    model_resolved: bool,
    has_png: bool,
) -> (r: Result<VisionStep, VcuError>)
    ensures
        match (r, vision_step_of(policy, force, dom_empty, model_resolved, has_png)) {
            (Ok(x), Ok(y)) => x == y,
            (Err(e), Err((code, msg))) => e.code == code && e.message@ == msg,
            _ => false,
        },
{
    let need = match VisionService::should_use_vision(policy, force, dom_empty) {
        Ok(b) => b,
        Err(e) => return Err(e),
    };
    if !need {
        return Ok(VisionStep::Skip);
    }
    if policy == VisionPolicy::DomOnly && force {
        return Err(refuse(ErrorCode::VisionProviderRequired, DOM_ONLY_REJECTS_FORCE));
    }
    let strict = force || policy == VisionPolicy::VisionAlways || policy == VisionPolicy::VisionFirst;
    if model_resolved {
        if has_png {
            Ok(VisionStep::Describe)
        } else if strict {
            Err(refuse(ErrorCode::VisionCallFailed, NO_SCREENSHOT_FOR_VISION))
        } else {
            Ok(VisionStep::Skip)
        }
    } else if strict {
        Ok(VisionStep::ModelError)
    } else {
        Ok(VisionStep::Skip)
    }
}

/// The kind of observation a snapshot records.
pub fn observation_kind(surface: SurfaceKind) -> (r: &'static str)
    ensures
        r@ == (if surface == SurfaceKind::Desktop { "desktop.scene"@ } else { "browser.snapshot"@ }),
{
    if surface == SurfaceKind::Desktop { "desktop.scene" } else { "browser.snapshot" }
}

/// Where a snapshot's scene came from: UIA or AX on the desktop (by platform), the
/// user-browser lens, or the mock browser.
pub fn snapshot_source(surface: SurfaceKind, platform: &str, extension_backend: bool) -> (r: &'static str)
    ensures
        r@ == (if surface == SurfaceKind::Desktop {
            if platform@ == "windows"@ { "uia_scene"@ } else { "ax_scene"@ }
        } else if extension_backend {
            "extension_dom"@
        } else {
            "mock"@
        }),
{
    if surface == SurfaceKind::Desktop {
        if crate::text::str_eq(platform, "windows") { "uia_scene" } else { "ax_scene" }
    } else if extension_backend {
        "extension_dom"
    } else {
        "mock"
    }
}

pub const NO_ACTIVE_TAB: &'static str = "no active tab";

/// The tab a session request acts on: the explicit one; else the session's active tab
/// when it is listed; else the first agent-owned tab; else the first tab.
pub open spec fn session_tab_of(explicit: Option<Seq<char>>, active: Option<Seq<char>>, tabs: Seq<TabInfo>) -> Option<
    Seq<char>,
> {
    if explicit is Some {
        explicit
    } else if active matches Some(a) && exists|i: int| 0 <= i < tabs.len() && (#[trigger] tabs[i]).tab_id@ == a {
        active
    } else if first_where(tabs, agent_owned_tab()) is Some {
        Some(tabs[first_where(tabs, agent_owned_tab())->0].tab_id@)
    } else if tabs.len() > 0 {
        Some(tabs[0].tab_id@)
    } else {
        None
    }
}

pub open spec fn agent_owned_tab() -> spec_fn(TabInfo) -> bool {
    |t: TabInfo| t.agent_owned
}

fn tab_listed(tabs: &[TabInfo], id: &str) -> (r: bool)
    ensures
        r == exists|i: int| 0 <= i < tabs@.len() && (#[trigger] tabs@[i]).tab_id@ == id@,
{
    let mut i: usize = 0;
    while i < tabs.len()
        invariant
            i <= tabs@.len(),
            forall|j: int| 0 <= j < i ==> (#[trigger] tabs@[j]).tab_id@ != id@,
        decreases tabs.len() - i,
    {
        if crate::text::str_eq(tabs[i].tab_id.as_str(), id) {
            assert(tabs@[i as int].tab_id@ == id@);
            return true;
        }
        i = i + 1;
    }
    false
}

pub fn resolve_session_tab(explicit: Option<&str>, active: Option<&str>, tabs: &[TabInfo]) -> (r: Result<
    String,
    VcuError,
>)
    ensures
        match (r, session_tab_of(opt_view(explicit), opt_view(active), tabs@)) {
            (Ok(a), Some(b)) => a@ == b,
            (Err(e), None) => e.code == ErrorCode::TabNotFound && e.message@ == NO_ACTIVE_TAB@,
            _ => false,
        },
{
    if let Some(t) = explicit {
        return Ok(owned(t));
    }
    if let Some(a) = active {
        if tab_listed(tabs, a) {
            return Ok(owned(a));
        }
    }
    let ghost p = agent_owned_tab();
    let mut i: usize = 0;
    while i < tabs.len()
        invariant
            i <= tabs@.len(),
            p == agent_owned_tab(),
            explicit is None,
            active matches Some(a) ==> !exists|k: int| 0 <= k < tabs@.len() && (#[trigger] tabs@[k]).tab_id@ == a@,
            forall|j: int| 0 <= j < i ==> !p(#[trigger] tabs@[j]),
        decreases tabs.len() - i,
    {
        if tabs[i].agent_owned {
            proof {
                lemma_first_where(tabs@, p, i as int);
            }
            return Ok(owned(tabs[i].tab_id.as_str()));
        }
        i = i + 1;
    }
    proof {
        lemma_first_where_none(tabs@, p);
    }
    if tabs.len() > 0 {
        Ok(owned(tabs[0].tab_id.as_str()))
    } else {
        Err(refuse(ErrorCode::TabNotFound, NO_ACTIVE_TAB))
    }
}

/// Whether a session may write to a tab: it must be listed (under an equivalent id);
/// agent-owned tabs are writable; a user tab needs a borrow when the policy says so.
pub open spec fn tab_write_of(tabs: Seq<TabInfo>, tab_id: Seq<char>, borrow_required: bool, borrowed: bool) -> Result<
    (),
    (ErrorCode, Seq<char>),
> {
    match first_where(tabs, equiv_tab(tab_id)) {
        None => Err((ErrorCode::TabNotFound, "tab "@ + tab_id)),
        Some(i) => if tabs[i].agent_owned {
            Ok(())
        } else if borrow_required && !borrowed {
            Err((ErrorCode::BorrowRequired, "user tab "@ + tab_id + " is not borrowed"@))
        } else {
            Ok(())
        },
    }
}

pub open spec fn equiv_tab(tab_id: Seq<char>) -> spec_fn(TabInfo) -> bool {
    |t: TabInfo| tab_ids_equiv(t.tab_id@, tab_id)
}

pub fn check_tab_writable(tabs: &[TabInfo], tab_id: &str, borrow_required: bool, borrowed: bool) -> (r: Result<
    (),
    VcuError,
>)
    ensures
        match (r, tab_write_of(tabs@, tab_id@, borrow_required, borrowed)) {
            (Ok(_), Ok(_)) => true,
            (Err(e), Err((code, msg))) => e.code == code && e.message@ == msg,
            _ => false,
        },
{
    let ghost p = equiv_tab(tab_id@);
    let mut i: usize = 0;
    while i < tabs.len()
        invariant
            i <= tabs@.len(),
            p == equiv_tab(tab_id@),
            forall|j: int| 0 <= j < i ==> !p(#[trigger] tabs@[j]),
        decreases tabs.len() - i,
    {
        if desktop_tab_ids_equiv(tabs[i].tab_id.as_str(), tab_id) {
            proof {
                lemma_first_where(tabs@, p, i as int);
            }
            if tabs[i].agent_owned {
                return Ok(());
            }
            if borrow_required && !borrowed {
                let m = cat(cat(owned("user tab "), tab_id), " is not borrowed");
                return Err(VcuError::coded(ErrorCode::BorrowRequired, m));
            }
            return Ok(());
        }
        i = i + 1;
    }
    proof {
        lemma_first_where_none(tabs@, p);
    }
    Err(VcuError::coded(ErrorCode::TabNotFound, cat(owned("tab "), tab_id)))
}

// ---------------------------------------------------------------------------
// Vision handoff
// ---------------------------------------------------------------------------

/// The PNGs a host must look at before acting, in order.
#[derive(Debug, Clone)]
pub struct VisionHandoff {
    pub must_view: Vec<String>,
    pub serial: bool,
    pub rule: &'static str,
}

pub const HANDOFF_RULE: &'static str = "Host vision must view these PNGs in the same turn before click/type. Do not ask the user what is on screen.";

/// The body keys whose paths a handoff lists, in order.
pub fn vision_handoff_keys() -> (r: Vec<&'static str>)
    ensures
        r@.len() == 6,
        r@[0]@ == "screenshot_path"@,
        r@[1]@ == "webview_screenshot_path"@,
        r@[2]@ == "login_latest_png"@,
        r@[3]@ == "feishu_latest_png"@,
        r@[4]@ == "path"@,
        r@[5]@ == "webview_path"@,
{
    let mut v: Vec<&'static str> = Vec::new();
    v.push("screenshot_path");
    v.push("webview_screenshot_path");
    v.push("login_latest_png");
    v.push("feishu_latest_png");
    v.push("path");
    v.push("webview_path");
    v
}

/// The non-empty paths, each once, in first-seen order.
pub open spec fn handoff_list(paths: Seq<Option<Seq<char>>>) -> Seq<Seq<char>>
    decreases paths.len(),
{
    if paths.len() == 0 {
        Seq::empty()
    } else {
        let before = handoff_list(paths.drop_last());
        match paths.last() {
            Some(p) => if p.len() > 0 && !before.contains(p) {
                before.push(p)
            } else {
                before
            },
            None => before,
        }
    }
}

pub open spec fn opt_strings(v: Seq<Option<String>>) -> Seq<Option<Seq<char>>> {
    v.map_values(|o: Option<String>| opt_string_view(o))
}

pub open spec fn strings(v: Seq<String>) -> Seq<Seq<char>> {
    v.map_values(|s: String| s@)
}

fn listed_already(v: &Vec<String>, p: &str) -> (r: bool)
    ensures
        r == strings(v@).contains(p@),
{
    let mut i: usize = 0;
    while i < v.len()
        invariant
            i <= v@.len(),
            forall|j: int| 0 <= j < i ==> v@[j]@ != p@,
        decreases v.len() - i,
    {
        if crate::text::str_eq(v[i].as_str(), p) {
            assert(strings(v@)[i as int] == p@);
            return true;
        }
        i = i + 1;
    }
    assert forall|j: int| 0 <= j < strings(v@).len() implies strings(v@)[j] != p@ by {
        assert(strings(v@)[j] == v@[j]@);
    }
    false
}

/// The handoff for a body whose handoff-key values are `paths` (see
/// `vision_handoff_keys`): none when no non-empty path is there.
pub fn stamp_vision_handoff(paths: &[Option<String>]) -> (r: Option<VisionHandoff>)
    ensures
        match r {
            Some(h) => strings(h.must_view@) == handoff_list(opt_strings(paths@)) && h.must_view@.len() > 0
                && h.serial && h.rule@ == HANDOFF_RULE@,
            None => handoff_list(opt_strings(paths@)).len() == 0,
        },
{
    let mut must: Vec<String> = Vec::new();
    let mut i: usize = 0;
    while i < paths.len()
        invariant
            i <= paths@.len(),
            strings(must@) == handoff_list(opt_strings(paths@.take(i as int))),
        decreases paths.len() - i,
    {
        let ghost before = must@;
        proof {
            let t = opt_strings(paths@.take(i + 1));
            assert(t.drop_last() =~= opt_strings(paths@.take(i as int)));
            assert(t.last() == opt_string_view(paths@[i as int]));
        }
        if let Some(p) = &paths[i] {
            if p.as_str().unicode_len() > 0 && !listed_already(&must, p.as_str()) {
                must.push(owned(p.as_str()));
                assert(strings(must@) =~= strings(before).push(p@));
            }
        }
        i = i + 1;
    }
    assert(paths@.take(i as int) =~= paths@);
    if must.len() == 0 {
        return None;
    }
    Some(VisionHandoff { must_view: must, serial: true, rule: HANDOFF_RULE })
}

/// A handoff never lists a path twice.
pub proof fn lemma_handoff_distinct(paths: Seq<Option<Seq<char>>>)
    ensures
        handoff_list(paths).no_duplicates(),
    decreases paths.len(),
{
    if paths.len() > 0 {
        lemma_handoff_distinct(paths.drop_last());
    }
}

/// A handoff lists exactly the non-empty paths it was given.
pub proof fn lemma_handoff_complete(paths: Seq<Option<Seq<char>>>, p: Seq<char>)
    ensures
        handoff_list(paths).contains(p) <==> (p.len() > 0 && paths.contains(Some(p))),
    decreases paths.len(),
{
    if paths.len() > 0 {
        let init = paths.drop_last();
        let before = handoff_list(init);
        lemma_handoff_complete(init, p);
        let out = handoff_list(paths);
        // Anything of `init` is in `paths`, and `paths` is `init` and its last entry.
        assert(init.contains(Some(p)) ==> paths.contains(Some(p))) by {
            if init.contains(Some(p)) {
                let k = choose|k: int| 0 <= k < init.len() && init[k] == Some(p);
                assert(paths[k] == Some(p));
            }
        }
        assert(paths.contains(Some(p)) ==> (init.contains(Some(p)) || paths.last() == Some(p))) by {
            if paths.contains(Some(p)) {
                let k = choose|k: int| 0 <= k < paths.len() && paths[k] == Some(p);
                if k < paths.len() - 1 {
                    assert(init[k] == Some(p));
                }
            }
        }
        // The output is `before`, possibly with the last path pushed.
        assert(out.contains(p) <==> (before.contains(p) || (paths.last() == Some(p) && p.len() > 0))) by {
            match paths.last() {
                Some(q) => {
                    if q.len() > 0 && !before.contains(q) {
                        assert(out == before.push(q));
                        if out.contains(p) && !before.contains(p) {
                            let k = choose|k: int| 0 <= k < out.len() && out[k] == p;
                            assert(k == before.len());
                        }
                        if before.contains(p) {
                            let k = choose|k: int| 0 <= k < before.len() && before[k] == p;
                            assert(out[k] == p);
                        }
                        if p == q {
                            assert(out[before.len() as int] == p);
                        }
                    } else {
                        assert(out == before);
                    }
                },
                None => {
                    assert(out == before);
                },
            }
        }
    }
}

// ---------------------------------------------------------------------------
// Starting a session
// ---------------------------------------------------------------------------

/// The browser a session names.
#[derive(Debug, Clone, Copy, PartialEq, Eq, Structural)]
pub enum BrowserKind {
    Chrome,
    Edge,
    Mock,
    Auto,
}

/// The backend a session drives.
#[derive(Debug, Clone, Copy, PartialEq, Eq, Structural)]
pub enum BackendKind {
    Cdp,
    Extension,
    Desktop,
    Mock,
}

/// What a session adapts: desktop windows or a browser.
#[derive(Debug, Clone, Copy, PartialEq, Eq, Structural)]
pub enum AdapterKind {
    Desktop,
    Browser,
}

pub open spec fn browser_kind_of(name: Seq<char>) -> BrowserKind {
    if name == "chrome"@ {
        BrowserKind::Chrome
    } else if name == "edge"@ {
        BrowserKind::Edge
    } else if name == "mock"@ {
        BrowserKind::Mock
    } else {
        BrowserKind::Auto
    }
}

pub fn browser_kind_from_name(name: &str) -> (r: BrowserKind)
    ensures
        r == browser_kind_of(name@),
{
    if crate::text::str_eq(name, "chrome") {
        BrowserKind::Chrome
    } else if crate::text::str_eq(name, "edge") {
        BrowserKind::Edge
    } else if crate::text::str_eq(name, "mock") {
        BrowserKind::Mock
    } else {
        BrowserKind::Auto
    }
}

pub open spec fn backend_kind_of(name: Seq<char>) -> BackendKind {
    if name == "cdp"@ {
        BackendKind::Cdp
    } else if name == "extension"@ {
        BackendKind::Extension
    } else if name == "desktop"@ {
        BackendKind::Desktop
    } else {
        BackendKind::Mock
    }
}

pub fn backend_kind_from_name(name: &str) -> (r: BackendKind)
    ensures
        r == backend_kind_of(name@),
{
    if crate::text::str_eq(name, "cdp") {
        BackendKind::Cdp
    } else if crate::text::str_eq(name, "extension") {
        BackendKind::Extension
    } else if crate::text::str_eq(name, "desktop") {
        BackendKind::Desktop
    } else {
        BackendKind::Mock
    }
}

/// The backend a session runs: the desktop backend on the desktop surface, else the
/// one the request names.
pub fn session_backend_name(surface: SurfaceKind, requested: &str) -> (r: &str)
    ensures
        r@ == (if surface == SurfaceKind::Desktop { "desktop"@ } else { requested@ }),
{
    if surface == SurfaceKind::Desktop { "desktop" } else { requested }
}

pub fn adapter_for(surface: SurfaceKind) -> (r: AdapterKind)
    ensures
        r == (if surface == SurfaceKind::Desktop { AdapterKind::Desktop } else { AdapterKind::Browser }),
{
    if surface == SurfaceKind::Desktop { AdapterKind::Desktop } else { AdapterKind::Browser }
}

pub open spec fn vision_policy_of(name: Seq<char>) -> Option<VisionPolicy> {
    if name == "dom_only"@ {
        Some(VisionPolicy::DomOnly)
    } else if name == "dom_first"@ {
        Some(VisionPolicy::DomFirst)
    } else if name == "vision_first"@ {
        Some(VisionPolicy::VisionFirst)
    } else if name == "vision_always"@ {
        Some(VisionPolicy::VisionAlways)
    } else {
        None
    }
}

impl VisionPolicy {
    /// A policy by its snake_case name.
    pub fn parse(name: &str) -> (r: Option<VisionPolicy>)
        ensures
            r == vision_policy_of(name@),
    {
        if crate::text::str_eq(name, "dom_only") {
            Some(VisionPolicy::DomOnly)
        } else if crate::text::str_eq(name, "dom_first") {
            Some(VisionPolicy::DomFirst)
        } else if crate::text::str_eq(name, "vision_first") {
            Some(VisionPolicy::VisionFirst)
        } else if crate::text::str_eq(name, "vision_always") {
            Some(VisionPolicy::VisionAlways)
        } else {
            None
        }
    }
}

/// A session's vision policy: the request's, when it names a known one, else the
/// configured default.
pub fn session_vision_policy(requested: Option<&str>, configured: VisionPolicy) -> (r: VisionPolicy)
    ensures
        r == (match opt_view(requested) {
            Some(n) => match vision_policy_of(n) {
                Some(p) => p,
                None => configured,
            },
            None => configured,
        }),
{
    match requested {
        Some(n) => match VisionPolicy::parse(n) {
            Some(p) => p,
            None => configured,
        },
        None => configured,
    }
}

/// The tab a new session starts on: the login tab the request picks; else the first
/// agent-owned tab; else the first tab.
pub open spec fn session_start_tab_of(tabs: Seq<TabInfo>, browser: Seq<char>, app_id: Option<Seq<char>>) -> Option<
    Seq<char>,
> {
    match crate::login_state::login_tab_of(tabs, browser, app_id) {
        Some(t) => Some(t),
        None => if first_where(tabs, agent_owned_tab()) is Some {
            Some(tabs[first_where(tabs, agent_owned_tab())->0].tab_id@)
        } else if tabs.len() > 0 {
            Some(tabs[0].tab_id@)
        } else {
            None
        },
    }
}

pub fn session_start_tab(tabs: &[TabInfo], browser: &str, app_id: Option<&str>) -> (r: Option<String>)
    ensures
        opt_string_view(r) == session_start_tab_of(tabs@, browser@, opt_view(app_id)),
{
    if let Some(t) = crate::login_state::pick_login_tab(tabs, browser, app_id) {
        return Some(t);
    }
    let ghost p = agent_owned_tab();
    let mut i: usize = 0;
    while i < tabs.len()
        invariant
            i <= tabs@.len(),
            p == agent_owned_tab(),
            crate::login_state::login_tab_of(tabs@, browser@, opt_view(app_id)) is None,
            forall|j: int| 0 <= j < i ==> !p(#[trigger] tabs@[j]),
        decreases tabs.len() - i,
    {
        if tabs[i].agent_owned {
            proof {
                lemma_first_where(tabs@, p, i as int);
            }
            return Some(owned(tabs[i].tab_id.as_str()));
        }
        i = i + 1;
    }
    proof {
        lemma_first_where_none(tabs@, p);
    }
    if tabs.len() > 0 {
        Some(owned(tabs[0].tab_id.as_str()))
    } else {
        None
    }
}

// ---------------------------------------------------------------------------
// Login-state observe
// ---------------------------------------------------------------------------

/// How a login-state observe reads the user's browser.
#[derive(Debug, Clone, PartialEq, Eq)]
pub enum ObserveRoute {
    /// The requested tab, through the lens.
    LensTab { tab: String },
    /// The named desktop window.
    Window { id: String },
    /// The lens first; on a soft failure, the user browser windows.
    LensThenWindows,
    /// The user browser windows, frontmost first.
    Windows,
}

pub const OBSERVE_TAB_NEEDS_LENS: &'static str = "observe --tab needs USER lens polling";
pub const NO_USER_BROWSER_PROCESS: &'static str = "no user Chrome/Edge process; login-state observe needs the user browser window";

/// The extension profile an observe reports: `user` while the lens polls in the user
/// profile, else what the process scan saw.
pub fn observe_extension_profile(lens_user: bool, scanned: &'static str) -> (r: &'static str)
    ensures
        r@ == (if lens_user { "user"@ } else { scanned@ }),
{
    if lens_user { "user" } else { scanned }
}

/// The route of an observe: an explicit tab needs the lens; an explicit window id is
/// snapshotted directly; otherwise the lens is tried first when it polls in the user
/// profile, and the user browser windows are the fallback (there must be one).
pub open spec fn observe_route_of(
    tab: Option<Seq<char>>,
    id: Option<Seq<char>>,
    lens_user: bool,
    no_user_browser: bool,
) -> Result<(int, Seq<char>), (ErrorCode, Seq<char>)> {
    if nonblank(tab) is Some {
        if !lens_user {
            Err((ErrorCode::ExtensionDisconnected, OBSERVE_TAB_NEEDS_LENS@))
        } else {
            Ok((0, nonblank(tab)->0))
        }
    } else if nonblank(id) is Some {
        Ok((1, nonblank(id)->0))
    } else if id is None && lens_user {
        Ok((2, Seq::empty()))
    } else if no_user_browser {
        Err((ErrorCode::ActionFailed, NO_USER_BROWSER_PROCESS@))
    } else {
        Ok((3, Seq::empty()))
    }
}

pub open spec fn route_view(r: ObserveRoute) -> (int, Seq<char>) {
    match r {
        ObserveRoute::LensTab { tab } => (0, tab@),
        ObserveRoute::Window { id } => (1, id@),
        ObserveRoute::LensThenWindows => (2, Seq::empty()),
        ObserveRoute::Windows => (3, Seq::empty()),
    }
}

fn nonblank_string(s: Option<&str>) -> (r: Option<String>)
    ensures
        opt_string_view(r) == nonblank(opt_view(s)),
{
    match s {
        Some(t) => {
            let v = trimmed_of(t);
            if v.len() == 0 { None } else { Some(string_of(&v)) }
        },
        None => None,
    }
}

pub fn plan_browser_observe(tab: Option<&str>, id: Option<&str>, lens_user: bool, no_user_browser: bool) -> (r: Result<
    ObserveRoute,
    VcuError,
>)
    ensures
        match (r, observe_route_of(opt_view(tab), opt_view(id), lens_user, no_user_browser)) {
            (Ok(a), Ok(b)) => route_view(a) == b,
            (Err(e), Err((code, msg))) => e.code == code && e.message@ == msg,
            _ => false,
        },
{
    if let Some(t) = nonblank_string(tab) {
        if !lens_user {
            return Err(refuse(ErrorCode::ExtensionDisconnected, OBSERVE_TAB_NEEDS_LENS));
        }
        return Ok(ObserveRoute::LensTab { tab: t });
    }
    if let Some(w) = nonblank_string(id) {
        return Ok(ObserveRoute::Window { id: w });
    }
    if id.is_none() && lens_user {
        return Ok(ObserveRoute::LensThenWindows);
    }
    if no_user_browser {
        return Err(refuse(ErrorCode::ActionFailed, NO_USER_BROWSER_PROCESS));
    }
    Ok(ObserveRoute::Windows)
}

/// A failed lens attempt ends the observe when the request itself was wrong or named a
/// browser; otherwise the user browser windows are tried.
pub fn lens_failure_is_final(code: ErrorCode, browser: Option<&str>) -> (r: bool)
    ensures
        r == (code == ErrorCode::InvalidInput || nonblank(opt_view(browser)) is Some),
{
    code == ErrorCode::InvalidInput || nonblank_string(browser).is_some()
}

/// While trying user browser windows, the first one with a screenshot, or the frontmost
/// one, ends the search.
pub fn observe_window_settles(has_png: bool, is_front: bool) -> (r: bool)
    ensures
        r == (has_png || is_front),
{
    has_png || is_front
}

// ---------------------------------------------------------------------------
// Laws
// ---------------------------------------------------------------------------

/// The app id a user browser is recorded under gives its pid back to the macOS
/// adapter, whatever the browser's name.
pub proof fn lemma_proc_id_names_pid(name: Seq<char>, pid: i32)
    ensures
        crate::app::macos::pid_of_id(proc_id_of(name, pid)) == Some(pid),
{
    reveal_strlit("proc:");
    reveal_strlit(":");
    let id = proc_id_of(name, pid);
    let head = replace_char(name, ' ', "_"@);
    assert(id =~= "proc:"@ + (head + ":"@ + decimal(pid as int)));
    assert(begins(id, "proc:"@)) by {
        assert(id.take(5) =~= "proc:"@);
    }
    assert(id.skip(5) =~= head + seq![':'] + decimal(pid as int));
    crate::text::lemma_decimal_no_colon(pid);
    crate::text::lemma_last_piece_after(head, ':', decimal(pid as int));
    crate::text::lemma_parse_decimal(pid);
}

/// No click goes ahead while the Allow-debugging dialog shows, except a dry run or a
/// viewport click (which never touches the dialog's window); a DOM-selector click needs
/// the lens polling in the user profile.
pub proof fn lemma_click_respects_dialog_and_lens(a: ClickAsk, allow_dialog: bool, polling: bool, user_profile: bool)
    ensures
        (click_route_of(a, allow_dialog, polling, user_profile) matches Ok(r) && r != ClickRoute::Viewport) ==> a.dry_run
            || !allow_dialog,
        (click_route_of(a, allow_dialog, polling, user_profile) matches Ok(ClickRoute::Selector)) ==> polling
            && user_profile,
        (click_route_of(a, allow_dialog, polling, user_profile) matches Ok(ClickRoute::Pixel)) ==> a.has_pixel_x
            && a.has_pixel_y,
{
}

/// Typing and scrolling never happen while the Allow-debugging dialog shows unless it
/// is a dry run; typing into a DOM selector needs the lens polling in the user profile.
pub proof fn lemma_type_scroll_respect_dialog(
    selector: Option<Seq<char>>,
    has_tab_id: bool,
    dry_run: bool,
    allow_dialog: bool,
    polling: bool,
    user_profile: bool,
    lens_ready: bool,
)
    ensures
        type_route_of(selector, has_tab_id, dry_run, allow_dialog, polling, user_profile) is Ok ==> dry_run
            || !allow_dialog,
        (type_route_of(selector, has_tab_id, dry_run, allow_dialog, polling, user_profile) matches Ok(
            TypeRoute::Selector,
        )) ==> polling && user_profile,
        scroll_route_of(dry_run, allow_dialog, lens_ready, has_tab_id) is Ok ==> dry_run || !allow_dialog,
        (scroll_route_of(dry_run, allow_dialog, lens_ready, has_tab_id) matches Ok(ScrollRoute::Window)) ==> !dry_run,
{
}

/// A type request that names a (non-empty) DOM selector is typed into that element or
/// refused: it never falls back to the address bar. Without the lens polling it is
/// refused as a disconnected extension (unless the Allow dialog refuses it first).
pub proof fn lemma_selector_type_never_hits_address_bar(
    sel: Seq<char>,
    has_tab_id: bool,
    dry_run: bool,
    allow_dialog: bool,
    polling: bool,
    user_profile: bool,
)
    requires
        sel.len() > 0,
    ensures
        !(type_route_of(Some(sel), has_tab_id, dry_run, allow_dialog, polling, user_profile) matches Ok(
            TypeRoute::AddressBar,
        )),
        (dry_run || !allow_dialog) && !polling ==> type_route_of(
            Some(sel),
            has_tab_id,
            dry_run,
            allow_dialog,
            polling,
            user_profile,
        ) == Err::<TypeRoute, (ErrorCode, Seq<char>)>((ErrorCode::ExtensionDisconnected, LENS_NOT_POLLING_TYPE@)),
        type_route_of(Some(sel), has_tab_id, dry_run, allow_dialog, polling, user_profile) is Ok ==> type_route_of(
            Some(sel),
            has_tab_id,
            dry_run,
            allow_dialog,
            polling,
            user_profile,
        ) == Ok::<TypeRoute, (ErrorCode, Seq<char>)>(TypeRoute::Selector) && polling && user_profile,
{
}

/// The last observe binds requests that name no app for sixty seconds (counted in
/// whole seconds), and not after.
pub proof fn lemma_observe_binds_for_a_minute(l: LastObserve, now_ms: u64)
    requires
        l.app_id@.len() > 0,
    ensures
        now_ms >= l.at_ms && now_ms - l.at_ms < 60_000 ==> app_binding(None, Some(l), now_ms) == Some(l.app_id@),
        now_ms >= l.at_ms + 60_000 ==> app_binding(None, Some(l), now_ms) is None,
{
    assert(nonblank(None::<Seq<char>>) is None);
}

/// A session snapshot never skips a vision step the session forced, and a DOM-only
/// session never calls a model.
pub proof fn lemma_vision_policy(policy: VisionPolicy, force: bool, dom_empty: bool, resolved: bool, has_png: bool)
    ensures
        policy == VisionPolicy::DomOnly ==> !(vision_step_of(policy, force, dom_empty, resolved, has_png) matches Ok(
            VisionStep::Describe,
        )),
        force && policy != VisionPolicy::DomOnly ==> !(vision_step_of(policy, force, dom_empty, resolved, has_png) matches Ok(
            VisionStep::Skip,
        )),
{
}

// ---------------------------------------------------------------------------
// Who may call the daemon
// ---------------------------------------------------------------------------

pub const BAD_TOKEN: &'static str = "missing or invalid X-Vcu-Token";
pub const NOT_LOOPBACK: &'static str = "extension bootstrap is only allowed from loopback";
pub const NOT_EXTENSION_ORIGIN: &'static str = "extension bootstrap origin is not a browser extension";

/// A request carries the pairing token in `X-Vcu-Token` (`header`, absent or not text
/// when `None`); anything else is refused.
pub fn require_auth(header: Option<&str>, pairing_token: &str) -> (r: Result<(), VcuError>)
    ensures
        r is Ok <==> (match header {
            Some(h) => h@,
            None => Seq::<char>::empty(),
        }) == pairing_token@,
        r matches Err(e) ==> e.code == ErrorCode::DaemonAuthFailed && e.message@ == BAD_TOKEN@,
{
    let got: &str = match header {
        Some(h) => h,
        None => "",
    };
    proof {
        reveal_strlit("");
        assert(""@ =~= Seq::<char>::empty());
    }
    if crate::text::str_eq(got, pairing_token) {
        Ok(())
    } else {
        Err(VcuError::coded(ErrorCode::DaemonAuthFailed, owned(BAD_TOKEN)))
    }
}

/// Extension bootstrap is accepted only from a loopback address.
pub fn require_loopback(is_loopback: bool) -> (r: Result<(), VcuError>)
    ensures
        r is Ok <==> is_loopback,
        r matches Err(e) ==> e.code == ErrorCode::DaemonAuthFailed && e.message@ == NOT_LOOPBACK@,
{
    if is_loopback {
        Ok(())
    } else {
        Err(VcuError::coded(ErrorCode::DaemonAuthFailed, owned(NOT_LOOPBACK)))
    }
}

/// A browser extension's origin (or none, as extension service workers may send).
pub open spec fn extension_origin(o: Seq<char>) -> bool {
    begins(o, "chrome-extension://"@) || begins(o, "moz-extension://"@) || begins(o, "safari-web-extension://"@)
}

/// Extension bootstrap accepts no `Origin` or a browser extension's.
pub fn require_extension_origin(origin: Option<&str>) -> (r: Result<(), VcuError>)
    ensures
        r is Ok <==> match origin {
            None => true,
            Some(o) => extension_origin(o@),
        },
        r matches Err(e) ==> e.code == ErrorCode::DaemonAuthFailed && e.message@ == NOT_EXTENSION_ORIGIN@,
{
    match origin {
        None => Ok(()),
        Some(o) => {
            let v = chars_of(o);
            if begins_str(&v, "chrome-extension://") || begins_str(&v, "moz-extension://") || begins_str(
                &v,
                "safari-web-extension://",
            ) {
                Ok(())
            } else {
                Err(VcuError::coded(ErrorCode::DaemonAuthFailed, owned(NOT_EXTENSION_ORIGIN)))
            }
        },
    }
}

// ---------------------------------------------------------------------------
// The user browser's extension as a precondition
// ---------------------------------------------------------------------------

pub const USER_EXT_NOT_POLLING: &'static str = "USER browser extension is not polling";
pub const USER_EXT_REQUIRED: &'static str = "USER browser extension required";
pub const AGENT_BROWSER_REFUSED: &'static str = "extension_profile is not user; refusing Agent browser operation";

/// DOM reads (screenshot, extract) need the extension polling in the user's browser.
pub fn user_extension_ready(polling: bool, likely_user_profile: bool) -> (r: Result<(), VcuError>)
    ensures
        r is Ok <==> (polling && likely_user_profile),
        !polling ==> (r matches Err(e) && e.code == ErrorCode::ExtensionDisconnected && e.message@ == USER_EXT_NOT_POLLING@),
        polling && !likely_user_profile ==> (r matches Err(e) && e.code == ErrorCode::ActionFailed && e.message@
            == USER_EXT_REQUIRED@),
{
    if !polling {
        return Err(VcuError::coded(ErrorCode::ExtensionDisconnected, owned(USER_EXT_NOT_POLLING)));
    }
    if !likely_user_profile {
        return Err(VcuError::coded(ErrorCode::ActionFailed, owned(USER_EXT_REQUIRED)));
    }
    Ok(())
}

/// Tab commands (list, select, close, open, group) go only to the user's browser: the
/// extension must be polling there, never in the Agent browser.
pub fn user_tabs_ready(polling: bool, likely_user_profile: bool) -> (r: Result<(), VcuError>)
    ensures
        r is Ok <==> (polling && likely_user_profile),
        !polling ==> (r matches Err(e) && e.code == ErrorCode::ExtensionDisconnected && e.message@ == USER_EXT_NOT_POLLING@),
        polling && !likely_user_profile ==> (r matches Err(e) && e.code == ErrorCode::ActionFailed && e.message@
            == AGENT_BROWSER_REFUSED@),
{
    if !polling {
        return Err(VcuError::coded(ErrorCode::ExtensionDisconnected, owned(USER_EXT_NOT_POLLING)));
    }
    if !likely_user_profile {
        return Err(VcuError::coded(ErrorCode::ActionFailed, owned(AGENT_BROWSER_REFUSED)));
    }
    Ok(())
}

// ---------------------------------------------------------------------------
// Which browser a tab command is routed to
// ---------------------------------------------------------------------------

pub open spec fn or_want(k: Option<Seq<char>>, want: Option<Seq<char>>) -> Option<Seq<char>> {
    if k is Some {
        k
    } else {
        want
    }
}

/// The browser of the tab `tab_id` names in the listing, else the one asked for; an
/// unknown or ambiguous tab is an error (see `extension_tab_of`).
pub fn tab_command_kind(tabs: &[LensTab], tab_id: &str, want: Option<&'static str>) -> (r: Result<
    Option<&'static str>,
    VcuError,
>)
    ensures
        match (r, extension_tab_of(tabs@, tab_id@, opt_view(want))) {
            (Ok(k), Ok(i)) => opt_view(k) == or_want(tab_kind(tabs@[i]), opt_view(want)),
            (Err(e), Err((code, msg))) => e.code == code && e.message@ == msg,
            _ => false,
        },
{
    let i = find_extension_tab(tabs, tab_id, want)?;
    match kind_from_tab(&tabs[i]) {
        Some(k) => Ok(Some(k)),
        None => Ok(want),
    }
}

/// The kinds the listed ids resolve to, in order: ids that name no tab are skipped, a
/// tab of no known kind counts as the asked-for kind; `None` when an id is ambiguous.
pub open spec fn ids_kinds(tabs: Seq<LensTab>, ids: Seq<Seq<char>>, want: Option<Seq<char>>) -> Option<
    Seq<Seq<char>>,
>
    decreases ids.len(),
{
    if ids.len() == 0 {
        Some(Seq::empty())
    } else {
        match ids_kinds(tabs, ids.drop_last(), want) {
            None => None,
            Some(ks) => match extension_tab_of(tabs, ids.last(), want) {
                Ok(i) => match or_want(tab_kind(tabs[i]), want) {
                    Some(k) => Some(ks.push(k)),
                    None => Some(ks),
                },
                Err((code, _)) => if code == ErrorCode::InvalidInput {
                    None
                } else {
                    Some(ks)
                },
            },
        }
    }
}

pub const TAB_IDS_SPAN: &'static str = "tab_ids span Chrome and Edge; pass one --browser";

/// The browser a multi-tab command goes to: the asked-for one when no id resolves,
/// else the one kind all resolved ids share; ids of both browsers are refused.
pub open spec fn tab_ids_kind_of(tabs: Seq<LensTab>, ids: Seq<Seq<char>>, want: Option<Seq<char>>) -> Result<
    Option<Seq<char>>,
    (ErrorCode, Seq<char>),
> {
    match ids_kinds(tabs, ids, want) {
        None => Err((ErrorCode::InvalidInput, TAB_AMBIGUOUS@)),
        Some(ks) => if ks.len() == 0 {
            Ok(want)
        } else if exists|j: int| 0 <= j < ks.len() && #[trigger] ks[j] != ks[0] {
            Err((ErrorCode::InvalidInput, TAB_IDS_SPAN@))
        } else {
            Ok(Some(ks[0]))
        },
    }
}

pub open spec fn strings_view(v: Seq<String>) -> Seq<Seq<char>> {
    v.map_values(|s: String| s@)
}

proof fn lemma_ids_kinds_stays_none(tabs: Seq<LensTab>, s: Seq<Seq<char>>, want: Option<Seq<char>>, k: int)
    requires
        0 <= k <= s.len(),
        ids_kinds(tabs, s.take(k), want) is None,
    ensures
        ids_kinds(tabs, s, want) is None,
    decreases s.len(),
{
    if k == s.len() {
        assert(s.take(k) =~= s);
    } else {
        assert(s.drop_last().take(k) =~= s.take(k));
        lemma_ids_kinds_stays_none(tabs, s.drop_last(), want, k);
    }
}

pub fn tab_ids_kind(tabs: &[LensTab], ids: &[String], want: Option<&'static str>) -> (r: Result<
    Option<&'static str>,
    VcuError,
>)
    ensures
        match (r, tab_ids_kind_of(tabs@, strings_view(ids@), opt_view(want))) {
            (Ok(k), Ok(j)) => opt_view(k) == j,
            (Err(e), Err((code, msg))) => e.code == code && e.message@ == msg,
            _ => false,
        },
{
    let ghost all = strings_view(ids@);
    let mut kinds: Vec<&'static str> = Vec::new();
    let mut i: usize = 0;
    while i < ids.len()
        invariant
            i <= ids@.len(),
            all == strings_view(ids@),
            ids_kinds(tabs@, all.take(i as int), opt_view(want)) matches Some(ks) && ks.len() == kinds@.len()
                && forall|j: int| 0 <= j < ks.len() ==> ks[j] == (#[trigger] kinds@[j])@,
        decreases ids.len() - i,
    {
        proof {
            assert(all.take(i + 1).drop_last() =~= all.take(i as int));
            assert(all.take(i + 1).last() == ids@[i as int]@);
        }
        match find_extension_tab(tabs, ids[i].as_str(), want) {
            Ok(found) => {
                match kind_from_tab(&tabs[found]) {
                    Some(k) => kinds.push(k),
                    None => match want {
                        Some(w) => kinds.push(w),
                        None => {},
                    },
                }
            },
            Err(e) => {
                if e.code == ErrorCode::InvalidInput {
                    proof {
                        lemma_ids_kinds_stays_none(tabs@, all, opt_view(want), i + 1);
                    }
                    return Err(e);
                }
            },
        }
        i = i + 1;
    }
    proof {
        assert(all.take(ids@.len() as int) =~= all);
    }
    let ghost ks = ids_kinds(tabs@, all, opt_view(want))->Some_0;
    if kinds.len() == 0 {
        return Ok(want);
    }
    let first = kinds[0];
    let mut j: usize = 1;
    while j < kinds.len()
        invariant
            1 <= j <= kinds@.len(),
            first == kinds@[0],
            ids_kinds(tabs@, strings_view(ids@), opt_view(want)) == Some(ks),
            ks.len() == kinds@.len(),
            forall|t: int| 0 <= t < ks.len() ==> ks[t] == (#[trigger] kinds@[t])@,
            forall|t: int| 0 <= t < j ==> (#[trigger] kinds@[t])@ == first@,
        decreases kinds.len() - j,
    {
        if !crate::text::str_eq(kinds[j], first) {
            proof {
                assert(ks[j as int] != ks[0]);
            }
            return Err(VcuError::coded(ErrorCode::InvalidInput, owned(TAB_IDS_SPAN)));
        }
        j = j + 1;
    }
    proof {
        assert forall|t: int| 0 <= t < ks.len() implies #[trigger] ks[t] == ks[0] by {
            assert(kinds@[t]@ == first@);
        }
    }
    Ok(Some(first))
}

/// The browser `open_tab` goes to: the asked-for one, else the browser of the app the
/// last observe bound.
pub fn open_kind(want: Option<&'static str>, last_app_id: Option<&str>) -> (r: Option<&'static str>)
    ensures
        opt_view(r) == (if want is Some {
            opt_view(want)
        } else {
            match last_app_id {
                Some(id) => crate::login_state::browser_kind_of(id@),
                None => None,
            }
        }),
{
    if want.is_some() {
        return want;
    }
    match last_app_id {
        Some(id) => crate::login_state::browser_kind_from_app_id(id),
        None => None,
    }
}

/// The browser a listed tab or group records, when it is Chrome or Edge.
pub open spec fn json_kind(g: JsonValue) -> Option<Seq<char>> {
    match get(g, "browser"@) {
        Some(JsonValue::Str(b)) => if b@ == "edge"@ {
            Some("edge"@)
        } else if b@ == "chrome"@ {
            Some("chrome"@)
        } else {
            None
        },
        _ => None,
    }
}

fn json_kind_of(g: &JsonValue) -> (r: Option<&'static str>)
    ensures
        opt_view(r) == json_kind(*g),
{
    match get_field(g, "browser") {
        Some(JsonValue::Str(b)) => {
            if crate::text::str_eq(b.as_str(), "edge") {
                Some("edge")
            } else if crate::text::str_eq(b.as_str(), "chrome") {
                Some("chrome")
            } else {
                None
            }
        },
        _ => None,
    }
}

/// The group has id `want` and, when a browser is named, is of that browser.
pub open spec fn group_hit(want: Seq<char>, browser: Option<Seq<char>>) -> spec_fn(JsonValue) -> bool {
    |g: JsonValue| trimmed_id(g, "group_id"@) == Some(want) && (browser matches Some(b) ==> json_kind(g) == Some(b))
}

pub const GROUP_NOT_FOUND: &'static str = "group not found";
pub const GROUP_AMBIGUOUS: &'static str = "group_id is ambiguous across Chrome/Edge; pass --browser";

/// The one listed group a requested id names: none is an error, and so are two.
pub open spec fn extension_group_of(groups: Seq<JsonValue>, want: Seq<char>, browser: Option<Seq<char>>) -> Result<
    int,
    (ErrorCode, Seq<char>),
> {
    let p = group_hit(want, browser);
    match first_where(groups, p) {
        None => Err((ErrorCode::ActionFailed, GROUP_NOT_FOUND@)),
        Some(i) => if exists|j: int| i < j < groups.len() && p(#[trigger] groups[j]) {
            Err((ErrorCode::InvalidInput, GROUP_AMBIGUOUS@))
        } else {
            Ok(i)
        },
    }
}

fn is_group_hit(g: &JsonValue, want: &str, browser: Option<&str>) -> (r: bool)
    ensures
        r == group_hit(want@, opt_view(browser))(*g),
{
    let id_ok = match json_group_id(g) {
        Some(id) => crate::text::str_eq(id.as_str(), want),
        None => false,
    };
    if !id_ok {
        return false;
    }
    match browser {
        Some(b) => match json_kind_of(g) {
            Some(k) => crate::text::str_eq(k, b),
            None => false,
        },
        None => true,
    }
}

/// Index, in the listing's `groups`, of the one group `want` names (see
/// `extension_group_of`).
pub fn find_extension_group(listed: &JsonValue, want: &str, browser: Option<&str>) -> (r: Result<usize, VcuError>)
    ensures
        match (r, extension_group_of(array_at(*listed, "groups"@), want@, opt_view(browser))) {
            (Ok(i), Ok(j)) => i == j,
            (Err(e), Err((code, msg))) => e.code == code && e.message@ == msg,
            _ => false,
        },
{
    let empty: Vec<JsonValue> = Vec::new();
    let groups: &[JsonValue] = match get_field(listed, "groups") {
        Some(JsonValue::Array(a)) => a.as_slice(),
        _ => empty.as_slice(),
    };
    assert(groups@ =~= array_at(*listed, "groups"@));
    let ghost p = group_hit(want@, opt_view(browser));
    let mut first: Option<usize> = None;
    let mut i: usize = 0;
    while i < groups.len()
        invariant
            i <= groups@.len(),
            groups@ == array_at(*listed, "groups"@),
            p == group_hit(want@, opt_view(browser)),
            match first {
                Some(k) => k < i && is_first(groups@, p, k as int) && forall|j: int|
                    k < j < i ==> !p(#[trigger] groups@[j]),
                None => forall|j: int| 0 <= j < i ==> !p(#[trigger] groups@[j]),
            },
        decreases groups.len() - i,
    {
        if is_group_hit(&groups[i], want, browser) {
            match first {
                Some(k) => {
                    proof {
                        lemma_first_where(groups@, p, k as int);
                        assert(p(groups@[i as int]));
                    }
                    return Err(VcuError::coded(ErrorCode::InvalidInput, owned(GROUP_AMBIGUOUS)));
                },
                None => {
                    first = Some(i);
                },
            }
        }
        i = i + 1;
    }
    match first {
        Some(k) => {
            proof {
                lemma_first_where(groups@, p, k as int);
            }
            Ok(k)
        },
        None => {
            proof {
                lemma_first_where_none(groups@, p);
            }
            Err(VcuError::coded(ErrorCode::ActionFailed, owned(GROUP_NOT_FOUND)))
        },
    }
}

/// The browser a group command goes to, once the groups are listed: the found group's
/// browser (else the asked-for one); an ambiguous id is refused; a group not found
/// falls back to the asked-for browser, else to the browser of the app the last
/// observe bound.
pub open spec fn group_kind_of(
    groups: Seq<JsonValue>,
    gid: Seq<char>,
    want: Option<Seq<char>>,
    last_app_id: Option<Seq<char>>,
) -> Result<Option<Seq<char>>, (ErrorCode, Seq<char>)> {
    match extension_group_of(groups, gid, want) {
        Ok(i) => Ok(or_want(json_kind(groups[i]), want)),
        Err((code, msg)) => if code == ErrorCode::InvalidInput {
            Err((code, msg))
        } else if want is Some {
            Ok(want)
        } else {
            match last_app_id {
                Some(id) => Ok(crate::login_state::browser_kind_of(id)),
                None => Ok(None),
            }
        },
    }
}

pub fn group_kind(listed: &JsonValue, gid: &str, want: Option<&'static str>, last_app_id: Option<&str>) -> (r: Result<
    Option<&'static str>,
    VcuError,
>)
    ensures
        match (r, group_kind_of(array_at(*listed, "groups"@), gid@, opt_view(want), opt_view(last_app_id))) {
            (Ok(k), Ok(j)) => opt_view(k) == j,
            (Err(e), Err((code, msg))) => e.code == code && e.message@ == msg,
            _ => false,
        },
{
    match find_extension_group(listed, gid, want) {
        Ok(i) => {
            let g = match get_field(listed, "groups") {
                Some(JsonValue::Array(a)) => &a[i],
                _ => {
                    proof {
                        assert(array_at(*listed, "groups"@).len() == 0);
                    }
                    return Ok(want);
                },
            };
            match json_kind_of(g) {
                Some(k) => Ok(Some(k)),
                None => Ok(want),
            }
        },
        Err(e) => {
            if e.code == ErrorCode::InvalidInput {
                Err(e)
            } else {
                Ok(open_kind(want, last_app_id))
            }
        },
    }
}

// ---------------------------------------------------------------------------
// What a model sees of a viewport result
// ---------------------------------------------------------------------------

/// Where `key` first stands among an object's fields.
pub open spec fn key_at(f: Seq<(String, JsonValue)>, key: Seq<char>) -> Option<int> {
    first_where(f, |e: (String, JsonValue)| e.0@ == key)
}

fn find_key(f: &Vec<(String, JsonValue)>, key: &str) -> (r: Option<usize>)
    ensures
        opt_usize(r) == key_at(f@, key@),
        r matches Some(i) ==> i < f@.len(),
{
    let mut i: usize = 0;
    while i < f.len()
        invariant
            i <= f@.len(),
            forall|k: int| 0 <= k < i ==> (#[trigger] f@[k]).0@ != key@,
        decreases f.len() - i,
    {
        if crate::text::str_eq(f[i].0.as_str(), key) {
            proof {
                lemma_first_where(f@, |e: (String, JsonValue)| e.0@ == key@, i as int);
            }
            return Some(i);
        }
        i = i + 1;
    }
    proof {
        lemma_first_where_none(f@, |e: (String, JsonValue)| e.0@ == key@);
    }
    None
}

/// `inner` stands in `outer` where the field `key` stood, the rest kept: `step` says
/// what became of that field's value. Without such an object field, nothing changes.
pub open spec fn changed_field(
    outer: JsonValue,
    r: JsonValue,
    key: Seq<char>,
    step: spec_fn(JsonValue, JsonValue) -> bool,
) -> bool {
    match outer {
        JsonValue::Object(f) => match key_at(f@, key) {
            Some(i) => r matches JsonValue::Object(f2) && f2@ == f@.update(i, (f@[i].0, f2@[i].1)) && step(
                f@[i].1,
                f2@[i].1,
            ),
            None => r == outer,
        },
        _ => r == outer,
    }
}

/// The layout signature without its `nodes` field.
pub open spec fn nodes_dropped(sig: JsonValue, r: JsonValue) -> bool {
    match sig {
        JsonValue::Object(h) => match key_at(h@, "nodes"@) {
            Some(m) => r matches JsonValue::Object(h2) && h2@ == h@.remove(m),
            None => r == sig,
        },
        _ => r == sig,
    }
}

/// The viewport result a model is given: `/viewport/layout_signature/nodes` removed,
/// everything else as it was.
pub open spec fn viewport_summarized(v: JsonValue, r: JsonValue) -> bool {
    changed_field(
        v,
        r,
        "viewport"@,
        |vp: JsonValue, vp2: JsonValue| changed_field(vp, vp2, "layout_signature"@, |s: JsonValue, s2: JsonValue| nodes_dropped(s, s2)),
    )
}

fn drop_nodes(sig: JsonValue) -> (r: JsonValue)
    ensures
        nodes_dropped(sig, r),
{
    match sig {
        JsonValue::Object(h) => {
            let mut h = h;
            match find_key(&h, "nodes") {
                Some(m) => {
                    let _ = h.remove(m);
                    JsonValue::Object(h)
                },
                None => JsonValue::Object(h),
            }
        },
        other => other,
    }
}

fn summarize_signature_in(vp: JsonValue) -> (r: JsonValue)
    ensures
        changed_field(vp, r, "layout_signature"@, |s: JsonValue, s2: JsonValue| nodes_dropped(s, s2)),
{
    match vp {
        JsonValue::Object(g) => {
            let mut g = g;
            let ghost g0 = g@;
            match find_key(&g, "layout_signature") {
                Some(j) => {
                    let (k, sig) = g.remove(j);
                    let sig2 = drop_nodes(sig);
                    g.insert(j, (k, sig2));
                    assert(g@ =~= g0.update(j as int, (g0[j as int].0, g@[j as int].1)));
                    JsonValue::Object(g)
                },
                None => JsonValue::Object(g),
            }
        },
        other => other,
    }
}

/// The viewport result as a model receives it: the layout signature keeps its counts
/// but loses the per-node list (see `viewport_summarized`).
pub fn summarize_viewport_result(result: JsonValue) -> (r: JsonValue)
    ensures
        viewport_summarized(result, r),
{
    match result {
        JsonValue::Object(f) => {
            let mut f = f;
            let ghost f0 = f@;
            match find_key(&f, "viewport") {
                Some(i) => {
                    let (k, vp) = f.remove(i);
                    let vp2 = summarize_signature_in(vp);
                    f.insert(i, (k, vp2));
                    assert(f@ =~= f0.update(i as int, (f0[i as int].0, f@[i as int].1)));
                    JsonValue::Object(f)
                },
                None => JsonValue::Object(f),
            }
        },
        other => other,
    }
}

// ---------------------------------------------------------------------------
// Selector waits, one round at a time
// ---------------------------------------------------------------------------

/// What the host does next in a selector wait.
#[derive(Debug)]
pub enum SelectorWaitNext {
    /// The selector matched (with the text, when one was asked for).
    Found { count: u64, waited_ms: u64 },
    /// Sleep this long, then extract again.
    Sleep { ms: u64 },
    Fail(VcuError),
}

/// The number of matches an extract reports: its `count`, else the length of its
/// `matches` array, else none.
pub open spec fn reply_count(count: Option<u64>, matches: Option<Seq<ExtractMatch>>) -> int {
    match count {
        Some(c) => c as int,
        None => match matches {
            Some(m) => m.len() as int,
            None => 0,
        },
    }
}

pub open spec fn opt_matches_view(m: Option<Vec<ExtractMatch>>) -> Option<Seq<ExtractMatch>> {
    match m {
        Some(v) => Some(v@),
        None => None,
    }
}

/// The message of a selector wait that ran out of time.
pub open spec fn selector_timeout_text(ms: u64, selector: Seq<char>, text: Option<Seq<char>>) -> Seq<char> {
    "wait timed out after "@ + nat_decimal(ms as nat) + "ms for selector="@ + debug_str_of(selector) + " text="@
        + debug_opt_str(text)
}

/// One round of a selector wait, `elapsed_ms` after it started, given the extract's
/// reply: a reply with matches (holding the text, when one is asked for) ends it;
/// otherwise, once the time (capped at 8 s, at least 1 ms) is up, a failed extract
/// fails the wait with its own error and an empty one with a timeout; else the host
/// looks again in 80 ms.
pub open spec fn selector_round_ok(
    requested_ms: u64,
    selector: Seq<char>,
    text: Option<Seq<char>>,
    elapsed_ms: u64,
    reply: Result<(Option<u64>, Option<Vec<ExtractMatch>>), VcuError>,
    r: SelectorWaitNext,
) -> bool {
    let ms: u64 = if requested_ms < WAIT_CAP_MS { requested_ms } else { WAIT_CAP_MS };
    let budget: u64 = if ms < 1 { 1 } else { ms };
    let up = elapsed_ms >= budget;
    let give_up = (r matches SelectorWaitNext::Fail(e) && e.code == ErrorCode::ActionFailed && e.message@
        == selector_timeout_text(ms, selector, text));
    let again = (r matches SelectorWaitNext::Sleep { ms: s } && s == 80);
    match reply {
        Ok((count, matches)) => {
            let n = reply_count(count, opt_matches_view(matches));
            if n > 0 && extract_satisfies(opt_matches_view(matches), text) {
                r matches SelectorWaitNext::Found { count: c, waited_ms } && c == n && waited_ms == elapsed_ms
            } else if up {
                give_up
            } else {
                again
            }
        },
        Err(e) => if up {
            r == SelectorWaitNext::Fail(e)
        } else {
            again
        },
    }
}

pub fn selector_wait_round(
    requested_ms: u64,
    selector: &str,
    text: Option<&str>,
    elapsed_ms: u64,
    reply: Result<(Option<u64>, Option<Vec<ExtractMatch>>), VcuError>,
) -> (r: SelectorWaitNext)
    ensures
        selector_round_ok(requested_ms, selector@, opt_str(text), elapsed_ms, reply, r),
{
    let ms = wait_budget_ms(requested_ms);
    let budget: u64 = if ms < 1 { 1 } else { ms };
    let up = elapsed_ms >= budget;
    match reply {
        Ok((count, matches)) => {
            let n: u64 = match count {
                Some(c) => c,
                None => match &matches {
                    Some(m) => m.len() as u64,
                    None => 0,
                },
            };
            let has = match &matches {
                Some(m) => extract_has_text(Some(m.as_slice()), text),
                None => extract_has_text(None, text),
            };
            if n > 0 && has {
                return SelectorWaitNext::Found { count: n, waited_ms: elapsed_ms };
            }
        },
        Err(e) => {
            if up {
                return SelectorWaitNext::Fail(e);
            }
        },
    }
    if up {
        let msg = cat(
            cat(
                cat(cat(cat(owned("wait timed out after "), u64_string(ms).as_str()), "ms for selector="), debug_str(selector).as_str()),
                " text=",
            ),
            debug_option(text).as_str(),
        );
        SelectorWaitNext::Fail(VcuError::coded(ErrorCode::ActionFailed, msg))
    } else {
        SelectorWaitNext::Sleep { ms: 80 }
    }
}

// ---------------------------------------------------------------------------
// Pixel clicks and the capture they map onto
// ---------------------------------------------------------------------------

pub const CAPTURE_OF_OTHER_WINDOW: &'static str = "observe this browser first; screenshot belongs to a different or missing window";

/// A pixel click maps onto the last capture only when that capture is of the window the
/// click is bound to (`sidecar_app_id` is the app id the capture's sidecar records).
pub fn require_capture_of(sidecar_app_id: Option<&str>, app_id: &str) -> (r: Result<(), VcuError>)
    ensures
        r is Ok <==> opt_view(sidecar_app_id) == Some(app_id@),
        r matches Err(e) ==> e.code == ErrorCode::InvalidInput && e.message@ == CAPTURE_OF_OTHER_WINDOW@,
{
    let same = match sidecar_app_id {
        Some(s) => crate::text::str_eq(s, app_id),
        None => false,
    };
    if same {
        Ok(())
    } else {
        Err(VcuError::coded(ErrorCode::InvalidInput, owned(CAPTURE_OF_OTHER_WINDOW)))
    }
}

// ---------------------------------------------------------------------------
// Listing the user browser's tabs for a desktop scene, with retries
// ---------------------------------------------------------------------------

/// What the host does next while fetching the tab list a browser scene is merged with.
#[derive(Debug, Clone, Copy, PartialEq, Eq, Structural)]
pub enum TabListNext {
    /// Ask the extension for the tab list.
    Call,
    /// Merge the tab list just received.
    Merge,
    /// Wait this long, then take the next attempt.
    Sleep { ms: u64 },
    /// Leave the scene without browser tabs.
    GiveUp,
}

pub const TAB_LIST_ATTEMPTS: u32 = 3;

/// Before attempt `attempt` (counting from 0, three in all): ask when the extension is
/// polling; otherwise wait 150 ms, except on the last attempt, which gives up.
pub fn tab_list_before_call(attempt: u32, polling: bool) -> (r: TabListNext)
    ensures
        r == (if polling && attempt < TAB_LIST_ATTEMPTS {
            TabListNext::Call
        } else if attempt + 1 < TAB_LIST_ATTEMPTS {
            TabListNext::Sleep { ms: 150 }
        } else {
            TabListNext::GiveUp
        }),
{
    if polling && attempt < TAB_LIST_ATTEMPTS {
        TabListNext::Call
    } else if attempt < TAB_LIST_ATTEMPTS - 1 {
        TabListNext::Sleep { ms: 150 }
    } else {
        TabListNext::GiveUp
    }
}

/// After attempt `attempt` asked: a non-empty tab list is merged; an empty one is asked
/// for again after 150 ms unless this was the last attempt; a failed call gives up
/// (`listed` is `None` on failure, else whether the list has a tab).
pub fn tab_list_after_call(attempt: u32, listed: Option<bool>) -> (r: TabListNext)
    ensures
        r == (match listed {
            Some(true) => TabListNext::Merge,
            Some(false) => if attempt + 1 < TAB_LIST_ATTEMPTS {
                TabListNext::Sleep { ms: 150 }
            } else {
                TabListNext::GiveUp
            },
            None => TabListNext::GiveUp,
        }),
{
    match listed {
        Some(true) => TabListNext::Merge,
        Some(false) => if attempt < TAB_LIST_ATTEMPTS - 1 {
            TabListNext::Sleep { ms: 150 }
        } else {
            TabListNext::GiveUp
        },
        None => TabListNext::GiveUp,
    }
}

// ---------------------------------------------------------------------------
// Typing into the login-state browser's address field
// ---------------------------------------------------------------------------

pub const NO_ADDRESS_FIELD: &'static str = "no address/search field for login-state type";
pub const ADDRESS_BAR_REF: &'static str = "address-bar";

/// Where a login-state type goes: the ref the request names (`address-bar` unless it
/// names one) and the address field found, by name and current value.
#[derive(Debug, Clone)]
pub struct LoginTypeTarget {
    pub ref_id: String,
    pub field_name: String,
    pub field_value: String,
}

/// A login-state type needs the browser's address or search field (`found`, as the AX
/// probe reports its name and value); without one it is refused.
pub fn login_type_target(found: Option<(String, String)>, requested_ref: Option<&str>) -> (r: Result<
    LoginTypeTarget,
    VcuError,
>)
    ensures
        match found {
            None => r matches Err(e) && e.code == ErrorCode::InvalidInput && e.message@ == NO_ADDRESS_FIELD@,
            Some((name, value)) => r matches Ok(t) && t.field_name@ == name@ && t.field_value@ == value@
                && t.ref_id@ == (match requested_ref {
                Some(x) => x@,
                None => ADDRESS_BAR_REF@,
            }),
        },
{
    match found {
        None => Err(VcuError::coded(ErrorCode::InvalidInput, owned(NO_ADDRESS_FIELD))),
        Some((field_name, field_value)) => {
            let ref_id = match requested_ref {
                Some(x) => owned(x),
                None => owned(ADDRESS_BAR_REF),
            };
            Ok(LoginTypeTarget { ref_id, field_name, field_value })
        },
    }
}

} // verus!
