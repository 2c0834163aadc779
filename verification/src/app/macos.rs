//! macOS app adapter: allowlist policy, process ids, and the AppleScript the adapter runs
//! through `osascript` (AXPress / AXSetValue only; the user cursor is never warped).
use vstd::prelude::*;
use crate::error::{ErrorCode, VcuError};
use crate::text::{
    begins, begins_str, cat, chars_of, cut, cut_vec, decimal, eq_ignore_case, has_str, i32_string,
    lower, lower_of, owned, parse_i32, parse_i32_vec, replace_all, replace_char, replace_char_vec,
    replace_first, replace_first_str, replace_str, same_ignore_case, same_str, seq_has, str_eq,
    string_of, trim, trim_vec, trimmed_of, trim_end, trim_end_vec, lines, lines_vec, views, nat_decimal,
    u64_string, has_char, is_ws, trail_ws, occurs_at, lemma_cut_at,
};
use super::AppTab;
use super::{denied_app_error, is_denied_app, is_denied_name, to_lowercase, unicode_lower, DENIED_HEAD, DENIED_TAIL};

verus! {

broadcast use vstd::string::group_string_axioms;

/// The macOS app adapter; `allowlist` holds process names matched case-insensitively by
/// containment.
pub struct MacosAppBackend {
    pub allowlist: Vec<String>,
}

pub open spec fn builtin_allowlist() -> Seq<Seq<char>> {
    seq![
        "TextEdit"@, "Notes"@, "Safari"@, "Terminal"@, "Ghostty"@, "Finder"@, "Preview"@, "Code"@,
        "Cursor"@, "Microsoft Edge"@, "Edge"@, "Google Chrome"@, "Chrome"@, "Feishu"@, "Lark"@,
        "飞书"@, "System Settings"@, "系统设置"@,
    ]
}

/// `list` with `e` appended unless it is blank or already present (ignoring ASCII case).
pub open spec fn add_unique(list: Seq<Seq<char>>, e: Seq<char>) -> Seq<Seq<char>> {
    if trim(e).len() == 0 || exists|i: int| 0 <= i < list.len() && eq_ignore_case(#[trigger] list[i], e) {
        list
    } else {
        list.push(e)
    }
}

/// `add_unique` of every entry, in order.
pub open spec fn add_all(list: Seq<Seq<char>>, extra: Seq<Seq<char>>) -> Seq<Seq<char>>
    decreases extra.len(),
{
    if extra.len() == 0 {
        list
    } else {
        add_unique(add_all(list, extra.drop_last()), extra.last())
    }
}

/// The comma-separated entries of an allowlist variable, trimmed, blanks dropped.
pub open spec fn env_entries(s: Seq<char>) -> Seq<Seq<char>>
    decreases s.len(),
{
    let c = cut(s, ',');
    let head = trim(c.0);
    let rest = match c.1 {
        Some(r) => if r.len() < s.len() { env_entries(r) } else { Seq::empty() },
        None => Seq::empty(),
    };
    if head.len() == 0 { rest } else { seq![head] + rest }
}

pub open spec fn view_strings(v: Seq<String>) -> Seq<Seq<char>> {
    v.map_values(|s: String| s@)
}

/// The allowlist: the built-in names, then the extra names, then the entries of the
/// `VCU_APP_ALLOWLIST` value, each added only when new.
pub open spec fn allowlist_of(extra: Option<Seq<Seq<char>>>, env: Option<Seq<char>>) -> Seq<Seq<char>> {
    let base = match extra {
        Some(e) => add_all(builtin_allowlist(), e),
        None => builtin_allowlist(),
    };
    match env {
        Some(v) => add_all(base, env_entries(v)),
        None => base,
    }
}

fn contains_ignore_case(list: &Vec<String>, e: &str) -> (r: bool)
    ensures
        r == exists|i: int| 0 <= i < list@.len() && eq_ignore_case(#[trigger] view_strings(list@)[i], e@),
{
    let ev = chars_of(e);
    let mut i: usize = 0;
    while i < list.len()
        invariant
            i <= list@.len(),
            ev@ == e@,
            forall|k: int| 0 <= k < i ==> !eq_ignore_case(#[trigger] view_strings(list@)[k], e@),
        decreases list.len() - i,
    {
        let a = chars_of(list[i].as_str());
        if same_ignore_case(&a, &ev) {
            assert(view_strings(list@)[i as int] == list@[i as int]@);
            return true;
        }
        assert(view_strings(list@)[i as int] == list@[i as int]@);
        i = i + 1;
    }
    false
}

fn push_unique(list: &mut Vec<String>, e: &str)
    ensures
        view_strings(final(list)@) == add_unique(view_strings(old(list)@), e@),
{
    let blank = trimmed_of(e).len() == 0;
    if blank || contains_ignore_case(list, e) {
        return;
    }
    list.push(owned(e));
    assert(view_strings(list@) =~= view_strings(old(list)@).push(e@));
}

fn env_entry_list(s: &Vec<char>) -> (r: Vec<Vec<char>>)
    ensures
        r@.map_values(|v: Vec<char>| v@) == env_entries(s@),
    decreases s@.len(),
{
    let (head, rest) = cut_vec(s, ',');
    let h = trim_vec(&head);
    proof {
        lemma_cut_shorter(s@, ',');
    }
    let mut tail: Vec<Vec<char>> = match rest {
        Some(r) => env_entry_list(&r),
        None => Vec::new(),
    };
    if h.len() == 0 {
        assert(tail@.map_values(|v: Vec<char>| v@) =~= env_entries(s@));
        tail
    } else {
        let mut out: Vec<Vec<char>> = Vec::new();
        out.push(h);
        out.append(&mut tail);
        assert(out@.map_values(|v: Vec<char>| v@) =~= env_entries(s@));
        out
    }
}

proof fn lemma_cut_shorter(s: Seq<char>, c: char)
    ensures
        cut(s, c).1 matches Some(r) ==> r.len() < s.len(),
    decreases s.len(),
{
    if s.len() > 0 && s[0] != c {
        lemma_cut_shorter(s.drop_first(), c);
    }
}

impl MacosAppBackend {
    /// The built-in allowlist plus the entries of a `VCU_APP_ALLOWLIST` value.
    pub fn new(env_allowlist: Option<&str>) -> (b: MacosAppBackend)
        ensures
            view_strings(b.allowlist@) == allowlist_of(None, match env_allowlist {
                Some(e) => Some(e@),
                None => None,
            }),
    {
        MacosAppBackend::with_allowlist(None, env_allowlist)
    }

    /// The built-in allowlist, extended by `extra` and the `VCU_APP_ALLOWLIST` value.
    pub fn with_allowlist(extra: Option<Vec<String>>, env_allowlist: Option<&str>) -> (b: MacosAppBackend)
        ensures
            view_strings(b.allowlist@) == allowlist_of(
                match extra {
                    Some(e) => Some(view_strings(e@)),
                    None => None,
                },
                match env_allowlist {
                    Some(e) => Some(e@),
                    None => None,
                },
            ),
    {
        let mut allowlist: Vec<String> = Vec::new();
        allowlist.push(owned("TextEdit"));
        allowlist.push(owned("Notes"));
        allowlist.push(owned("Safari"));
        allowlist.push(owned("Terminal"));
        allowlist.push(owned("Ghostty"));
        allowlist.push(owned("Finder"));
        allowlist.push(owned("Preview"));
        allowlist.push(owned("Code"));
        allowlist.push(owned("Cursor"));
        allowlist.push(owned("Microsoft Edge"));
        allowlist.push(owned("Edge"));
        allowlist.push(owned("Google Chrome"));
        allowlist.push(owned("Chrome"));
        allowlist.push(owned("Feishu"));
        allowlist.push(owned("Lark"));
        allowlist.push(owned("飞书"));
        allowlist.push(owned("System Settings"));
        allowlist.push(owned("系统设置"));
        assert(view_strings(allowlist@) =~= builtin_allowlist());
        if let Some(extra) = extra {
            let ghost ev = view_strings(extra@);
            let mut j: usize = 0;
            let ghost base = view_strings(allowlist@);
            assert(ev.take(0) =~= Seq::<Seq<char>>::empty());
            while j < extra.len()
                invariant
                    j <= extra@.len(),
                    ev == view_strings(extra@),
                    view_strings(allowlist@) == add_all(base, ev.take(j as int)),
                decreases extra.len() - j,
            {
                push_unique(&mut allowlist, extra[j].as_str());
                assert(ev.take(j + 1).drop_last() =~= ev.take(j as int));
                assert(ev.take(j + 1).last() == extra@[j as int]@);
                j = j + 1;
            }
            assert(ev.take(j as int) =~= ev);
        }
        if let Some(env) = env_allowlist {
            let entries = env_entry_list(&chars_of(env));
            let ghost ev = entries@.map_values(|v: Vec<char>| v@);
            let ghost base = view_strings(allowlist@);
            let mut k: usize = 0;
            assert(ev.take(0) =~= Seq::<Seq<char>>::empty());
            while k < entries.len()
                invariant
                    k <= entries@.len(),
                    ev == entries@.map_values(|v: Vec<char>| v@),
                    view_strings(allowlist@) == add_all(base, ev.take(k as int)),
                decreases entries.len() - k,
            {
                let e = string_of(&entries[k]);
                push_unique(&mut allowlist, e.as_str());
                assert(ev.take(k + 1).drop_last() =~= ev.take(k as int));
                assert(ev.take(k + 1).last() == entries@[k as int]@);
                k = k + 1;
            }
            assert(ev.take(k as int) =~= ev);
        }
        MacosAppBackend { allowlist }
    }

    pub fn allowed(&self, name: &str) -> (r: bool)
        ensures
            r == allowed_by(view_strings(self.allowlist@), name@),
    {
        if is_denied_app(name) {
            return false;
        }
        if self.allowlist.len() == 0 {
            return true;
        }
        let lower = to_lowercase(name);
        let l = chars_of(lower.as_str());
        let mut i: usize = 0;
        while i < self.allowlist.len()
            invariant
                i <= self.allowlist@.len(),
                l@ == unicode_lower(name@),
                !is_denied_name(name@),
                self.allowlist@.len() > 0,
                forall|k: int| 0 <= k < i ==> !seq_has(l@, unicode_lower(#[trigger] view_strings(self.allowlist@)[k])),
            decreases self.allowlist.len() - i,
        {
            let a = to_lowercase(self.allowlist[i].as_str());
            assert(view_strings(self.allowlist@)[i as int] == self.allowlist@[i as int]@);
            if has_str(&l, a.as_str()) {
                return true;
            }
            i = i + 1;
        }
        false
    }

    /// The process name in a `proc:<name>:<pid>` id (underscores read as spaces); other
    /// ids are names already.
    pub fn process_name_from_id(id: &str) -> (r: String)
        ensures
            r@ == process_name_of(id@),
    {
        let v = chars_of(id);
        if begins_str(&v, "proc:") {
            proof {
                reveal_strlit("proc:");
            }
            let rest = skip_vec(&v, 5);
            let (name, _) = cut_vec(&rest, ':');
            let mut space: Vec<char> = Vec::new();
            space.push(' ');
            string_of(&replace_char_vec(&name, '_', &space))
        } else {
            owned(id)
        }
    }

    /// The pid in a `proc:<name>:<pid>` id.
    pub fn pid_from_id(id: &str) -> (r: Option<i32>)
        ensures
            r == pid_of_id(id@),
    {
        let v = chars_of(id);
        if begins_str(&v, "proc:") {
            proof {
                reveal_strlit("proc:");
            }
            let rest = skip_vec(&v, 5);
            let last = crate::text::last_piece_vec(&rest, ':');
            parse_i32_vec(&last)
        } else {
            None
        }
    }

    pub fn ensure_operable(&self, name: &str) -> (r: Result<(), VcuError>)
        ensures
            match r {
                Ok(()) => allowed_by(view_strings(self.allowlist@), name@),
                Err(e) => e.code == ErrorCode::AppDenied && !allowed_by(view_strings(self.allowlist@), name@)
                    && e.message@ == (if is_denied_name(name@) {
                    DENIED_HEAD@ + name@ + DENIED_TAIL@
                } else {
                    NOT_ALLOWED_HEAD@ + name@ + NOT_ALLOWED_TAIL@
                }),
            },
    {
        if is_denied_app(name) {
            return Err(denied_app_error(name));
        }
        if !self.allowed(name) {
            return Err(VcuError::coded(
                ErrorCode::AppDenied,
                cat(cat(owned(NOT_ALLOWED_HEAD), name), NOT_ALLOWED_TAIL),
            ));
        }
        Ok(())
    }

    /// `s` as the body of an AppleScript string literal: backslashes and quotes escaped.
    pub fn as_literal(s: &str) -> (r: String)
        ensures
            r@ == applescript_literal(s@),
    {
        let v = chars_of(s);
        let mut bs: Vec<char> = Vec::new();
        bs.push('\\');
        bs.push('\\');
        let mut q: Vec<char> = Vec::new();
        q.push('\\');
        q.push('"');
        assert(bs@ =~= seq!['\\', '\\']);
        assert(q@ =~= seq!['\\', '"']);
        let a = replace_char_vec(&v, '\\', &bs);
        string_of(&replace_char_vec(&a, '"', &q))
    }
}

pub const NOT_ALLOWED_HEAD: &'static str = "process '";
pub const NOT_ALLOWED_TAIL: &'static str = "' not in app allowlist";

/// Denied apps never pass; an empty allowlist admits everything else; otherwise the
/// Unicode-lower-cased name must contain a lower-cased entry.
pub open spec fn allowed_by(allowlist: Seq<Seq<char>>, name: Seq<char>) -> bool {
    !is_denied_name(name) && (allowlist.len() == 0 || exists|i: int|
        0 <= i < allowlist.len() && seq_has(unicode_lower(name), unicode_lower(#[trigger] allowlist[i])))
}

pub open spec fn process_name_of(id: Seq<char>) -> Seq<char> {
    if begins(id, "proc:"@) {
        replace_char(cut(id.skip(5), ':').0, '_', seq![' '])
    } else {
        id
    }
}

pub open spec fn pid_of_id(id: Seq<char>) -> Option<i32> {
    if begins(id, "proc:"@) {
        parse_i32(crate::text::last_piece(id.skip(5), ':'))
    } else {
        None
    }
}

pub open spec fn applescript_literal(s: Seq<char>) -> Seq<char> {
    replace_char(replace_char(s, '\\', seq!['\\', '\\']), '"', seq!['\\', '"'])
}

pub(crate) fn skip_vec(v: &Vec<char>, n: usize) -> (r: Vec<char>)
    requires
        n <= v@.len(),
    ensures
        r@ == v@.skip(n as int),
{
    let mut r: Vec<char> = Vec::new();
    let mut k: usize = n;
    while k < v.len()
        invariant
            n <= k <= v.len(),
            r@ == v@.subrange(n as int, k as int),
        decreases v.len() - k,
    {
        r.push(v[k]);
        k = k + 1;
        assert(r@ =~= v@.subrange(n as int, k as int));
    }
    assert(r@ =~= v@.skip(n as int));
    r
}

/// Chromium, Safari, Electron and Settings windows need `AXEnhancedUserInterface`.
pub open spec fn wants_enhanced(p: Seq<char>) -> bool {
    let l = lower(p);
    seq_has(l, "edge"@) || seq_has(l, "chrome"@) || seq_has(l, "chromium"@) || seq_has(l, "safari"@)
        || seq_has(l, "feishu"@) || seq_has(l, "lark"@) || seq_has(p, "飞书"@) || seq_has(
        l,
        "system settings"@,
    ) || seq_has(p, "系统设置"@)
}

pub fn ax_wants_enhanced(process: &str) -> (r: bool)
    ensures
        r == wants_enhanced(process@),
{
    let p = chars_of(process);
    let l = lower_of(process);
    has_str(&l, "edge") || has_str(&l, "chrome") || has_str(&l, "chromium") || has_str(&l, "safari")
        || has_str(&l, "feishu") || has_str(&l, "lark") || has_str(&p, "飞书") || has_str(
        &l,
        "system settings",
    ) || has_str(&p, "系统设置")
}

pub fn ax_prefer_text_kids(process: &str) -> (r: bool)
    ensures
        r == eq_ignore_case(process@, "TextEdit"@),
{
    same_ignore_case(&chars_of(process), &chars_of("TextEdit"))
}

pub open spec fn is_notes(p: Seq<char>) -> bool {
    eq_ignore_case(p, "Notes"@) || seq_has(p, "备忘录"@)
}

pub fn ax_is_notes(process: &str) -> (r: bool)
    ensures
        r == is_notes(process@),
{
    let p = chars_of(process);
    same_ignore_case(&p, &chars_of("Notes")) || has_str(&p, "备忘录")
}

/// Apps whose windows are listed through CoreGraphics rather than System Events.
pub open spec fn cg_windows_app(p: Seq<char>) -> bool {
    let l = lower(p);
    l == "finder"@ || l == "terminal"@ || seq_has(l, "ghostty"@) || seq_has(l, "feishu"@) || seq_has(
        l,
        "lark"@,
    ) || seq_has(p, "飞书"@) || seq_has(l, "system settings"@) || seq_has(p, "系统设置"@)
}

pub fn uses_cg_windows(process: &str) -> (r: bool)
    ensures
        r == cg_windows_app(process@),
{
    let p = chars_of(process);
    let l = lower_of(process);
    same_str(&l, "finder") || same_str(&l, "terminal") || has_str(&l, "ghostty") || has_str(&l, "feishu")
        || has_str(&l, "lark") || has_str(&p, "飞书") || has_str(&l, "system settings") || has_str(
        &p,
        "系统设置",
    )
}

/// Terminals take text through Edit > Paste.
pub fn uses_menu_paste(process: &str) -> (r: bool)
    ensures
        r == (lower(process@) == "terminal"@ || seq_has(lower(process@), "ghostty"@)),
{
    let l = lower_of(process);
    same_str(&l, "terminal") || has_str(&l, "ghostty")
}

pub const AX_BFS_MAX_DEPTH: i32 = 13;
pub const AX_BFS_MAX_NODES: i32 = 80;
pub const AX_BFS_BROWSER_NODES: i32 = 160;
pub const AX_BFS_TIMEOUT_MS: u64 = 4500;
pub const AX_BFS_BROWSER_TIMEOUT_MS: u64 = 8000;

/// Finder and Notes stay shallow; enhanced apps go deeper than the default.
pub open spec fn bfs_max_depth_of(p: Seq<char>) -> i32 {
    if seq_has(lower(p), "finder"@) || is_notes(p) {
        4
    } else if wants_enhanced(p) {
        14
    } else {
        AX_BFS_MAX_DEPTH
    }
}

pub open spec fn bfs_max_nodes_of(p: Seq<char>) -> i32 {
    if seq_has(lower(p), "finder"@) || is_notes(p) {
        AX_BFS_MAX_NODES
    } else if wants_enhanced(p) {
        AX_BFS_BROWSER_NODES
    } else {
        AX_BFS_MAX_NODES
    }
}

pub open spec fn bfs_timeout_of(p: Seq<char>) -> u64 {
    if is_notes(p) {
        4000
    } else if wants_enhanced(p) {
        AX_BFS_BROWSER_TIMEOUT_MS
    } else {
        AX_BFS_TIMEOUT_MS
    }
}

pub fn ax_bfs_max_depth(process: &str) -> (r: i32)
    ensures
        r == bfs_max_depth_of(process@),
{
    if has_str(&lower_of(process), "finder") || ax_is_notes(process) {
        4
    } else if ax_wants_enhanced(process) {
        14
    } else {
        AX_BFS_MAX_DEPTH
    }
}

pub fn ax_bfs_max_nodes(process: &str) -> (r: i32)
    ensures
        r == bfs_max_nodes_of(process@),
{
    if has_str(&lower_of(process), "finder") || ax_is_notes(process) {
        AX_BFS_MAX_NODES
    } else if ax_wants_enhanced(process) {
        AX_BFS_BROWSER_NODES
    } else {
        AX_BFS_MAX_NODES
    }
}

pub fn ax_bfs_timeout_ms(process: &str) -> (r: u64)
    ensures
        r == bfs_timeout_of(process@),
{
    if ax_is_notes(process) {
        4000
    } else if ax_wants_enhanced(process) {
        AX_BFS_BROWSER_TIMEOUT_MS
    } else {
        AX_BFS_TIMEOUT_MS
    }
}

pub open spec fn enhanced_prelude_of(p: Seq<char>) -> Seq<char> {
    if wants_enhanced(p) { AX_ENHANCED_PRELUDE@ } else { Seq::empty() }
}

pub fn ax_enhanced_prelude(process: &str) -> (r: &'static str)
    ensures
        r@ == enhanced_prelude_of(process@),
{
    if ax_wants_enhanced(process) {
        AX_ENHANCED_PRELUDE
    } else {
        proof {
            reveal_strlit("");
        }
        ""
    }
}

pub open spec fn web_pref_of(p: Seq<char>) -> Seq<char> {
    if eq_ignore_case(p, "TextEdit"@) { BFS_WEB_PREF_TEXT_KIDS@ } else { Seq::empty() }
}

fn bfs_web_pref(process: &str) -> (r: &'static str)
    ensures
        r@ == web_pref_of(process@),
{
    if ax_prefer_text_kids(process) {
        BFS_WEB_PREF_TEXT_KIDS
    } else {
        proof {
            reveal_strlit("");
        }
        ""
    }
}

pub open spec fn notes_leaf_of(p: Seq<char>) -> Seq<char> {
    if is_notes(p) { BFS_NOTES_LEAF@ } else { Seq::empty() }
}

fn bfs_notes_leaf(process: &str) -> (r: &'static str)
    ensures
        r@ == notes_leaf_of(process@),
{
    if ax_is_notes(process) {
        BFS_NOTES_LEAF
    } else {
        proof {
            reveal_strlit("");
        }
        ""
    }
}

/// The `tell process "<name>"` line a script opens with.
pub open spec fn tell_marker(process: Seq<char>) -> Seq<char> {
    "tell process \""@ + process + "\""@
}

/// Chromium windows: walk the first reasonably sized window instead of `window 1`.
/// Other apps are unchanged.
pub open spec fn browser_window_preferred(script: Seq<char>, process: Seq<char>) -> Seq<char> {
    let l = lower(process);
    if !seq_has(l, "edge"@) && !seq_has(l, "chrome"@) {
        script
    } else {
        replace_first(
            replace_all(script, "window 1"@, "vcuBrowserWindow"@),
            tell_marker(process),
            tell_marker(process) + "\n"@ + BROWSER_WINDOW_PRELUDE@,
        )
    }
}

fn prefer_browser_content_window(script: String, process: &str) -> (r: String)
    ensures
        r@ == browser_window_preferred(script@, process@),
{
    let l = lower_of(process);
    if !has_str(&l, "edge") && !has_str(&l, "chrome") {
        return script;
    }
    let marker = cat(cat(owned("tell process \""), process), "\"");
    let with_prelude = cat(cat(owned(marker.as_str()), "\n"), BROWSER_WINDOW_PRELUDE);
    let replaced = replace_str(script.as_str(), "window 1", "vcuBrowserWindow");
    replace_first_str(replaced.as_str(), marker.as_str(), with_prelude.as_str())
}

/// BFS over `UI elements of window 1` (or the preferred browser window).
pub open spec fn bfs_text(process: Seq<char>, on_match: Seq<char>, not_found: Seq<char>) -> Seq<char> {
    browser_window_preferred(bfs_raw_text(process, on_match, not_found), process)
}

pub fn ax_bfs_script(process: &str, on_match: &str, not_found: &str) -> (r: String)
    ensures
        r@ == bfs_text(process@, on_match@, not_found@),
{
    let raw = ax_bfs_raw(process, on_match, not_found);
    prefer_browser_content_window(raw, process)
}

/// The Scene snapshot walk: rows, tabs, the web area and page metadata.
pub open spec fn snapshot_text(process: Seq<char>) -> Seq<char> {
    let max = bfs_max_nodes_of(process);
    bfs_text(process, snapshot_on_match_text(max), snapshot_not_found_text(max))
}

pub fn ax_snapshot_script(process: &str) -> (r: String)
    ensures
        r@ == snapshot_text(process@),
{
    let max = ax_bfs_max_nodes(process);
    let m = snapshot_on_match(max);
    let n = snapshot_not_found(max);
    ax_bfs_script(process, m.as_str(), n.as_str())
}

pub open spec fn chrome_bfs_text(process: Seq<char>, on_match: Seq<char>, not_found: Seq<char>) -> Seq<char> {
    browser_window_preferred(chrome_bfs_raw_text(process, on_match, not_found), process)
}

/// Chrome-only BFS: no frames, do not enter AXWebArea (page DOM). For address bar.
pub fn ax_chrome_bfs_script(process: &str, on_match: &str, not_found: &str) -> (r: String)
    ensures
        r@ == chrome_bfs_text(process@, on_match@, not_found@),
{
    let raw = ax_chrome_bfs_raw(process, on_match, not_found);
    prefer_browser_content_window(raw, process)
}

pub fn ax_set_address_script(process: &str, val: &str) -> (r: String)
    ensures
        r@ == chrome_bfs_text(process@, set_address_match_text(val@), NOT_FOUND_RETURN@),
{
    let m = set_address_match(val);
    ax_chrome_bfs_script(process, m.as_str(), NOT_FOUND_RETURN)
}

pub fn ax_find_address_script(process: &str) -> (r: String)
    ensures
        r@ == chrome_bfs_text(process@, FIND_ADDRESS_MATCH@, NOT_FOUND_RETURN@),
{
    ax_chrome_bfs_script(process, FIND_ADDRESS_MATCH, NOT_FOUND_RETURN)
}

/// Window frame and title, after enabling accessibility on the browser window.
pub fn ax_window_meta_script(process: &str) -> (r: String)
    ensures
        r@ == browser_window_preferred(window_meta_raw_text(process@), process@),
{
    let raw = ax_window_meta_raw(process);
    prefer_browser_content_window(raw, process)
}

/// AXPress on the Scene ref `eref`.
pub fn ax_invoke_script(process: &str, eref: &str) -> (r: String)
    ensures
        r@ == bfs_text(process@, invoke_match_text(eref@), NOT_FOUND_RETURN@),
{
    let m = invoke_match(eref);
    ax_bfs_script(process, m.as_str(), NOT_FOUND_RETURN)
}

/// AXSetValue on the Scene ref `eref` (or its first text child).
pub fn ax_set_value_script(process: &str, eref: &str, val: &str) -> (r: String)
    ensures
        r@ == bfs_text(process@, set_value_match_text(eref@, val@), NOT_FOUND_RETURN@),
{
    let m = set_value_match(eref, val);
    ax_bfs_script(process, m.as_str(), NOT_FOUND_RETURN)
}

/// An address/search text field of a browser window.
pub open spec fn address_field(role: Seq<char>, name: Seq<char>) -> bool {
    let r = lower(role);
    let n = lower(name);
    (seq_has(r, "textfield"@) || seq_has(r, "text field"@) || seq_has(r, "combobox"@) || seq_has(
        r,
        "combo box"@,
    )) && (seq_has(n, "地址"@) || seq_has(n, "网址"@) || seq_has(n, "address"@) || seq_has(n, "search"@)
        || seq_has(n, "搜索"@) || seq_has(n, "url"@) || seq_has(n, "omnibox"@))
}

pub fn looks_like_address_field(role: &str, name: &str) -> (r: bool)
    ensures
        r == address_field(role@, name@),
{
    let r = lower_of(role);
    let n = lower_of(name);
    let role_ok = has_str(&r, "textfield") || has_str(&r, "text field") || has_str(&r, "combobox")
        || has_str(&r, "combo box");
    if !role_ok {
        return false;
    }
    has_str(&n, "地址") || has_str(&n, "网址") || has_str(&n, "address") || has_str(&n, "search")
        || has_str(&n, "搜索") || has_str(&n, "url") || has_str(&n, "omnibox")
}

/// The script that finds the address field of the app `app_id`, or `None` when the
/// app is denied (then nothing runs).
pub fn login_find_address_request(app_id: &str) -> (r: Option<String>)
    ensures
        ({
            let name = process_name_of(app_id@);
            match r {
                None => is_denied_name(name),
                Some(s) => !is_denied_name(name) && s@ == chrome_bfs_text(
                    applescript_literal(name),
                    FIND_ADDRESS_MATCH@,
                    NOT_FOUND_RETURN@,
                ),
            }
        }),
{
    let name = MacosAppBackend::process_name_from_id(app_id);
    if is_denied_app(name.as_str()) {
        return None;
    }
    let lit = MacosAppBackend::as_literal(name.as_str());
    Some(ax_find_address_script(lit.as_str()))
}

/// A `FOUND|<name>|<value>` reply: the field's name and value (trimmed); `None` unless
/// the reply starts so and names a field.
pub open spec fn found_address_of(raw: Seq<char>) -> Option<(Seq<char>, Seq<char>)> {
    let t = trim(raw);
    if begins(t, "FOUND|"@) {
        let c = cut(t.skip(6), '|');
        let nm = trim(c.0);
        let val = match c.1 {
            Some(v) => trim(v),
            None => Seq::empty(),
        };
        if nm.len() == 0 { None } else { Some((nm, val)) }
    } else {
        None
    }
}

pub fn parse_found_address(raw: &str) -> (r: Option<(String, String)>)
    ensures
        match (r, found_address_of(raw@)) {
            (Some(got), Some(want)) => got.0@ == want.0 && got.1@ == want.1,
            (None, None) => true,
            _ => false,
        },
{
    let t = trimmed_of(raw);
    if !begins_str(&t, "FOUND|") {
        return None;
    }
    proof {
        reveal_strlit("FOUND|");
    }
    let rest = skip_vec(&t, 6);
    let (nm, val) = cut_vec(&rest, '|');
    let nm = trim_vec(&nm);
    let val = match val {
        Some(v) => trim_vec(&v),
        None => Vec::new(),
    };
    if nm.len() == 0 {
        return None;
    }
    Some((string_of(&nm), string_of(&val)))
}

/// The script that reads depth-1 window names of `app_id`, or `None` when the app is
/// denied (the blob is then empty).
pub fn login_debug_ui_request(app_id: &str) -> (r: Option<String>)
    ensures
        ({
            let name = process_name_of(app_id@);
            match r {
                None => is_denied_name(name),
                Some(s) => !is_denied_name(name) && s@ == debug_ui_blob_text(applescript_literal(name)),
            }
        }),
{
    let name = MacosAppBackend::process_name_from_id(app_id);
    if is_denied_app(name.as_str()) {
        return None;
    }
    let lit = MacosAppBackend::as_literal(name.as_str());
    Some(ax_debug_ui_blob_script(lit.as_str()))
}

/// The script that sets the address field of `app_id` to `value`; denied apps are refused.
pub fn login_set_address_request(app_id: &str, value: &str) -> (r: Result<String, VcuError>)
    ensures
        ({
            let name = process_name_of(app_id@);
            match r {
                Err(e) => is_denied_name(name) && e.code == ErrorCode::AppDenied && e.message@
                    == DENIED_HEAD@ + name + DENIED_TAIL@,
                Ok(s) => !is_denied_name(name) && s@ == chrome_bfs_text(
                    applescript_literal(name),
                    set_address_match_text(applescript_literal(value@)),
                    NOT_FOUND_RETURN@,
                ),
            }
        }),
{
    let name = MacosAppBackend::process_name_from_id(app_id);
    if is_denied_app(name.as_str()) {
        return Err(denied_app_error(name.as_str()));
    }
    let lit = MacosAppBackend::as_literal(name.as_str());
    let val = MacosAppBackend::as_literal(value);
    Ok(ax_set_address_script(lit.as_str(), val.as_str()))
}

/// The outcome of the address-field script: success replies start with `FOUND` or `ok`.
pub fn set_address_outcome(raw: &str) -> (r: Result<String, VcuError>)
    ensures
        match r {
            Ok(s) => s@ == raw@ && (begins(raw@, "FOUND"@) || begins(raw@, "ok"@)),
            Err(e) => !(begins(raw@, "FOUND"@) || begins(raw@, "ok"@)) && e.code == ErrorCode::ActionFailed
                && (e.detail matches Some(d) && d@ == raw@),
        },
{
    let v = chars_of(raw);
    if begins_str(&v, "FOUND") || begins_str(&v, "ok") {
        Ok(owned(raw))
    } else {
        Err(VcuError::with_detail(ErrorCode::ActionFailed, owned("address field set failed"), owned(raw)))
    }
}

/// `s` trimmed, unless blank or AppleScript's `missing value`.
pub open spec fn nonempty_of(s: Seq<char>) -> Option<Seq<char>> {
    let t = trim(s);
    if t.len() == 0 || t == "missing value"@ { None } else { Some(t) }
}

pub fn nonempty(s: &str) -> (r: Option<String>)
    ensures
        match (r, nonempty_of(s@)) {
            (Some(a), Some(b)) => a@ == b,
            (None, None) => true,
            _ => false,
        },
{
    let t = trimmed_of(s);
    if t.len() == 0 || same_str(&t, "missing value") {
        None
    } else {
        Some(string_of(&t))
    }
}


pub const AX_ENHANCED_PRELUDE: &'static str = r#"                try
                  set value of attribute "AXEnhancedUserInterface" to true
                end try
"#;
pub const AX_READ_EL: &'static str = r#"
          set r to ""
          set nm to ""
          set fr to "0,0,0,0"
          try
            set r to (role of el as text)
          end try
          try
            set nm to (name of el as text)
          end try
          if nm is "missing value" then set nm to ""
          if r is "missing value" then set r to ""
          if nm is "" then
            try
              set nm to (description of el as text)
            end try
            if nm is "missing value" then set nm to ""
          end if
          if nm is "" then
            try
              set nm to (help of el as text)
            end try
            if nm is "missing value" then set nm to ""
          end if
          try
            set p to position of el
            set sz to size of el
            set fr to (item 1 of p as text) & "," & (item 2 of p as text) & "," & (item 1 of sz as text) & "," & (item 2 of sz as text)
          end try
"#;
pub const BROWSER_WINDOW_PRELUDE: &'static str = r#"
                try
                  set value of attribute "AXEnhancedUserInterface" to true
                end try
                repeat 4 times
                  if (count of windows) > 0 then exit repeat
                  delay 0.05
                end repeat
                set vcuBrowserWindow to missing value
                repeat with candidateWindow in windows
                  try
                    set candidateSize to size of candidateWindow
                    if (item 1 of candidateSize >= 200) and (item 2 of candidateSize >= 150) then
                      set vcuBrowserWindow to candidateWindow
                      exit repeat
                    end if
                  end try
                end repeat
                if vcuBrowserWindow is missing value then error "no browser content window"
"#;
pub const BFS_WEB_PREF_TEXT_KIDS: &'static str = r#" or r contains "ScrollArea" or r contains "scroll area" or r contains "TextArea" or r contains "text area""#;
pub const BFS_NOTES_LEAF: &'static str = r#"                        if r contains "SplitGroup" then set vcuLeaf to true
                        if r contains "split group" then set vcuLeaf to true
"#;
pub const NOT_FOUND_RETURN: &'static str = r#"return "not-found""#;
pub const FIND_ADDRESS_MATCH: &'static str = r#"                        if (r contains "TextField") or (r contains "ComboBox") or (r contains "text field") or (r contains "combo box") then
                          if (nm contains "地址") or (nm contains "网址") or (nm contains "Address") or (nm contains "Search") or (nm contains "搜索") or (nm contains "URL") or (nm contains "Url") then
                            set vcuVal to ""
                            try
                              set vcuVal to value of el as text
                            end try
                            if vcuVal is "missing value" then set vcuVal to ""
                            return "FOUND|" & nm & "|" & vcuVal
                          end if
                        end if"#;

pub const BFS_0: &'static str = r#"
            tell application "System Events"
              tell process ""#;
pub const BFS_1: &'static str = r#""
"#;
pub const BFS_2: &'static str = r#"
                set vcuAcc to ""
                set n to 0
                set vcuW to "0,0,0,0"
                set vcuPageTitle to ""
                set vcuPageUrl to ""
                set vcuTabs to ""
                set vcuWeb to ""
                try
                  set wp to position of window 1
                  set ws to size of window 1
                  set vcuW to (item 1 of wp as text) & "," & (item 2 of wp as text) & "," & (item 1 of ws as text) & "," & (item 2 of ws as text)
                end try
                try
                  set vcuPageTitle to name of window 1 as text
                end try
                try
                  set vcuFront to UI elements of window 1
                  set vcuDepth to 1
                  repeat while ((count of vcuFront) > 0) and (n < "#;
pub const BFS_3: &'static str = r#") and (vcuDepth <= "#;
pub const BFS_4: &'static str = r#")
                    set vcuNext to {}
                    repeat with vcuIdx from 1 to (count of vcuFront)
                      set el to item vcuIdx of vcuFront
"#;
pub const BFS_5: &'static str = r#"
                      set n to n + 1
"#;
pub const BFS_6: &'static str = r#"
                      if n >= "#;
pub const BFS_7: &'static str = r#" then exit repeat
                      if vcuDepth < "#;
pub const BFS_8: &'static str = r#" then
                        set vcuLeaf to false
                        if r contains "Button" then set vcuLeaf to true
                        if r contains "StaticText" then set vcuLeaf to true
                        if r contains "static text" then set vcuLeaf to true
                        if r contains "Splitter" then set vcuLeaf to true
                        if r contains "splitter" then set vcuLeaf to true
"#;
pub const BFS_9: &'static str = r#"
                        if r contains "WebArea" then set vcuLeaf to false
                        if vcuLeaf is false then
                          try
                            set vcuKids to UI elements of el
                            set vcuKidMax to 16
                            if r contains "WebArea""#;
pub const BFS_10: &'static str = r#" then set vcuKidMax to 32
                            if r contains "WebArea""#;
pub const BFS_11: &'static str = r#" then
                              set vcuPref to {}
                              repeat with vcuKidIdx from 1 to (count of vcuKids)
                                if vcuKidIdx > vcuKidMax then exit repeat
                                set end of vcuPref to item vcuKidIdx of vcuKids
                              end repeat
                              set vcuNext to vcuPref & vcuNext
                            else
                              repeat with vcuKidIdx from 1 to (count of vcuKids)
                                if vcuKidIdx > vcuKidMax then exit repeat
                                set end of vcuNext to item vcuKidIdx of vcuKids
                              end repeat
                            end if
                          end try
                        end if
                      end if
                    end repeat
                    set vcuFront to vcuNext
                    set vcuDepth to vcuDepth + 1
                  end repeat
                on error errMsg
                  return "ERROR:" & errMsg
                end try
                "#;
pub const BFS_12: &'static str = r#"
              end tell
            end tell
            "#;

/// The text `ax_bfs_raw` produces.
pub open spec fn bfs_raw_text(process: Seq<char>, on_match: Seq<char>, not_found: Seq<char>) -> Seq<char> {
    BFS_0@
        + process
        + BFS_1@
        + enhanced_prelude_of(process)
        + BFS_2@
        + decimal(bfs_max_nodes_of(process) as int)
        + BFS_3@
        + decimal(bfs_max_depth_of(process) as int)
        + BFS_4@
        + AX_READ_EL@
        + BFS_5@
        + on_match
        + BFS_6@
        + decimal(bfs_max_nodes_of(process) as int)
        + BFS_7@
        + decimal(bfs_max_depth_of(process) as int)
        + BFS_8@
        + notes_leaf_of(process)
        + BFS_9@
        + web_pref_of(process)
        + BFS_10@
        + web_pref_of(process)
        + BFS_11@
        + not_found
        + BFS_12@
}

/// The breadth-first AX walk before browser-window selection is applied.
fn ax_bfs_raw(process: &str, on_match: &str, not_found: &str) -> (r: String)
    ensures
        r@ == bfs_raw_text(process@, on_match@, not_found@),
{
    let prelude = ax_enhanced_prelude(process);
    let nodes = i32_string(ax_bfs_max_nodes(process));
    let depth = i32_string(ax_bfs_max_depth(process));
    let web_pref = bfs_web_pref(process);
    let notes_leaf = bfs_notes_leaf(process);
    let mut s = String::new();
    s = cat(s, BFS_0);
    s = cat(s, process);
    s = cat(s, BFS_1);
    s = cat(s, prelude);
    s = cat(s, BFS_2);
    s = cat(s, nodes.as_str());
    s = cat(s, BFS_3);
    s = cat(s, depth.as_str());
    s = cat(s, BFS_4);
    s = cat(s, AX_READ_EL);
    s = cat(s, BFS_5);
    s = cat(s, on_match);
    s = cat(s, BFS_6);
    s = cat(s, nodes.as_str());
    s = cat(s, BFS_7);
    s = cat(s, depth.as_str());
    s = cat(s, BFS_8);
    s = cat(s, notes_leaf);
    s = cat(s, BFS_9);
    s = cat(s, web_pref);
    s = cat(s, BFS_10);
    s = cat(s, web_pref);
    s = cat(s, BFS_11);
    s = cat(s, not_found);
    s = cat(s, BFS_12);
    s
}

pub const SNAPSHOT_MATCH_0: &'static str = r#"                        if n <= "#;
pub const SNAPSHOT_MATCH_1: &'static str = r#" then set vcuAcc to vcuAcc & r & "|" & nm & "|" & fr & linefeed
                        if r is "AXTextField" then
                          if (nm contains "地址") or (nm contains "Address") or (nm contains "Search") then
                            try
                              set vcuTmp to value of el as text
                              if vcuTmp is not "missing value" then
                                if vcuTmp is not "" then set vcuPageUrl to vcuTmp
                              end if
                            end try
                          end if
                        end if
                        if r is "AXRadioButton" then
                          set vcuSel to "0"
                          try
                            set vcuRv to value of el as text
                            if vcuRv is "true" then set vcuSel to "1"
                          end try
                          set vcuTabs to vcuTabs & "TAB" & tab & vcuSel & tab & nm & linefeed
                        end if
                        if r contains "WebArea" then
                          set vcuWeb to "WEB" & tab & nm & tab & fr & linefeed
                        end if"#;

/// The text `snapshot_on_match` produces.
pub open spec fn snapshot_on_match_text(max: i32) -> Seq<char> {
    SNAPSHOT_MATCH_0@
        + decimal(max as int)
        + SNAPSHOT_MATCH_1@
}

fn snapshot_on_match(max: i32) -> (r: String)
    ensures
        r@ == snapshot_on_match_text(max),
{
    let max_s = i32_string(max);
    let mut s = String::new();
    s = cat(s, SNAPSHOT_MATCH_0);
    s = cat(s, max_s.as_str());
    s = cat(s, SNAPSHOT_MATCH_1);
    s
}

pub const SNAPSHOT_DONE_0: &'static str = r#"set vcuMeta to "PAGE" & tab & vcuPageTitle & tab & vcuPageUrl & linefeed & vcuTabs & vcuWeb
                if n >= "#;
pub const SNAPSHOT_DONE_1: &'static str = r#" then
                  return "WINDOW|" & vcuW & linefeed & vcuAcc & "TRUNCATED" & linefeed & vcuMeta
                end if
                return "WINDOW|" & vcuW & linefeed & vcuAcc & vcuMeta"#;

/// The text `snapshot_not_found` produces.
pub open spec fn snapshot_not_found_text(max: i32) -> Seq<char> {
    SNAPSHOT_DONE_0@
        + decimal(max as int)
        + SNAPSHOT_DONE_1@
}

fn snapshot_not_found(max: i32) -> (r: String)
    ensures
        r@ == snapshot_not_found_text(max),
{
    let max_s = i32_string(max);
    let mut s = String::new();
    s = cat(s, SNAPSHOT_DONE_0);
    s = cat(s, max_s.as_str());
    s = cat(s, SNAPSHOT_DONE_1);
    s
}

pub const CHROME_BFS_0: &'static str = r#"
            tell application "System Events"
              tell process ""#;
pub const CHROME_BFS_1: &'static str = r#""
                try
                  set value of attribute "AXEnhancedUserInterface" to true
                end try
                set n to 0
                try
                  set vcuFront to UI elements of window 1
                  set vcuDepth to 1
                  repeat while ((count of vcuFront) > 0) and (n < 80) and (vcuDepth <= 10)
                    set vcuNext to {}
                    repeat with vcuIdx from 1 to (count of vcuFront)
                      set el to item vcuIdx of vcuFront
                      set r to ""
                      set nm to ""
                      try
                        set r to (role of el as text)
                      end try
                      try
                        set nm to (name of el as text)
                      end try
                      if nm is "missing value" then set nm to ""
                      if r is "missing value" then set r to ""
                      set n to n + 1
"#;
pub const CHROME_BFS_2: &'static str = r#"
                      if n >= 80 then exit repeat
                      if vcuDepth < 10 then
                        set vcuLeaf to false
                        if r contains "Button" then set vcuLeaf to true
                        if r contains "StaticText" then set vcuLeaf to true
                        if r contains "static text" then set vcuLeaf to true
                        if r contains "WebArea" then set vcuLeaf to true
                        if r contains "Splitter" then set vcuLeaf to true
                        if vcuLeaf is false then
                          try
                            set vcuKids to UI elements of el
                            repeat with vcuKidIdx from 1 to (count of vcuKids)
                              if vcuKidIdx > 20 then exit repeat
                              set end of vcuNext to item vcuKidIdx of vcuKids
                            end repeat
                          end try
                        end if
                      end if
                    end repeat
                    set vcuFront to vcuNext
                    set vcuDepth to vcuDepth + 1
                  end repeat
                on error errMsg
                  return "ERROR:" & errMsg
                end try
                "#;
pub const CHROME_BFS_3: &'static str = r#"
              end tell
            end tell
            "#;

/// The text `ax_chrome_bfs_raw` produces.
pub open spec fn chrome_bfs_raw_text(process: Seq<char>, on_match: Seq<char>, not_found: Seq<char>) -> Seq<char> {
    CHROME_BFS_0@
        + process
        + CHROME_BFS_1@
        + on_match
        + CHROME_BFS_2@
        + not_found
        + CHROME_BFS_3@
}

/// The shallow address-bar walk before browser-window selection is applied.
fn ax_chrome_bfs_raw(process: &str, on_match: &str, not_found: &str) -> (r: String)
    ensures
        r@ == chrome_bfs_raw_text(process@, on_match@, not_found@),
{
    let mut s = String::new();
    s = cat(s, CHROME_BFS_0);
    s = cat(s, process);
    s = cat(s, CHROME_BFS_1);
    s = cat(s, on_match);
    s = cat(s, CHROME_BFS_2);
    s = cat(s, not_found);
    s = cat(s, CHROME_BFS_3);
    s
}

pub const SET_ADDRESS_MATCH_0: &'static str = r#"                        if (r contains "TextField") or (r contains "ComboBox") or (r contains "text field") or (r contains "combo box") then
                          if (nm contains "地址") or (nm contains "网址") or (nm contains "Address") or (nm contains "Search") or (nm contains "搜索") or (nm contains "URL") or (nm contains "Url") then
                            try
                              set value of el to ""#;
pub const SET_ADDRESS_MATCH_1: &'static str = r#""
                              return "ok-address"
                            on error errMsg
                              return "error:" & errMsg
                            end try
                          end if
                        end if"#;

/// The text `set_address_match` produces.
pub open spec fn set_address_match_text(val: Seq<char>) -> Seq<char> {
    SET_ADDRESS_MATCH_0@
        + val
        + SET_ADDRESS_MATCH_1@
}

fn set_address_match(val: &str) -> (r: String)
    ensures
        r@ == set_address_match_text(val@),
{
    let mut s = String::new();
    s = cat(s, SET_ADDRESS_MATCH_0);
    s = cat(s, val);
    s = cat(s, SET_ADDRESS_MATCH_1);
    s
}

pub const DEBUG_UI_0: &'static str = r#"
            tell application "System Events"
              tell process ""#;
pub const DEBUG_UI_1: &'static str = r#""
                set out to ""
                try
                  set out to name of window 1 as text
                end try
                try
                  set kids to UI elements of window 1
                  repeat with el in kids
                    set r to ""
                    set nm to ""
                    try
                      set r to role of el as text
                    end try
                    try
                      set nm to name of el as text
                    end try
                    if nm is "missing value" then set nm to ""
                    set out to out & linefeed & r & " " & nm
                  end repeat
                end try
                return out
              end tell
            end tell
            "#;

/// The text `ax_debug_ui_blob_script` produces.
pub open spec fn debug_ui_blob_text(process: Seq<char>) -> Seq<char> {
    DEBUG_UI_0@
        + process
        + DEBUG_UI_1@
}

/// Depth-1 names for Allow-dialog / automation infobar detection. Not a Scene dump.
pub fn ax_debug_ui_blob_script(process: &str) -> (r: String)
    ensures
        r@ == debug_ui_blob_text(process@),
{
    let mut s = String::new();
    s = cat(s, DEBUG_UI_0);
    s = cat(s, process);
    s = cat(s, DEBUG_UI_1);
    s
}

pub const WINDOW_META_0: &'static str = r#"
            tell application "System Events"
              tell process ""#;
pub const WINDOW_META_1: &'static str = r#""
                try
                  set value of attribute "AXEnhancedUserInterface" to true
                end try
                set vcuW to "0,0,0,0"
                set vcuPageTitle to ""
                try
                  set wp to position of window 1
                  set ws to size of window 1
                  set vcuW to (item 1 of wp as text) & "," & (item 2 of wp as text) & "," & (item 1 of ws as text) & "," & (item 2 of ws as text)
                end try
                try
                  set vcuPageTitle to name of window 1 as text
                end try
                return "WINDOW|" & vcuW & linefeed & "PAGE" & tab & vcuPageTitle & tab & linefeed
              end tell
            end tell
            "#;

/// The text `ax_window_meta_raw` produces.
pub open spec fn window_meta_raw_text(process: Seq<char>) -> Seq<char> {
    WINDOW_META_0@
        + process
        + WINDOW_META_1@
}

fn ax_window_meta_raw(process: &str) -> (r: String)
    ensures
        r@ == window_meta_raw_text(process@),
{
    let mut s = String::new();
    s = cat(s, WINDOW_META_0);
    s = cat(s, process);
    s = cat(s, WINDOW_META_1);
    s
}

pub const INVOKE_MATCH_0: &'static str = r#"                        if ("e" & n) is ""#;
pub const INVOKE_MATCH_1: &'static str = r#"" then
                          try
                            perform action "AXPress" of el
                            if (nm contains "WebView") or (nm contains "messenger") or (r contains "WebArea") then
                              return "ok-webview:ax_press:axpress:0"
                            end if
                            return "ok:ax_press:axpress:0"
                          on error errMsg
                            return "error:ax_press:" & errMsg
                          end try
                        end if"#;

/// The text `invoke_match` produces.
pub open spec fn invoke_match_text(eref: Seq<char>) -> Seq<char> {
    INVOKE_MATCH_0@
        + eref
        + INVOKE_MATCH_1@
}

fn invoke_match(eref: &str) -> (r: String)
    ensures
        r@ == invoke_match_text(eref@),
{
    let mut s = String::new();
    s = cat(s, INVOKE_MATCH_0);
    s = cat(s, eref);
    s = cat(s, INVOKE_MATCH_1);
    s
}

pub const TERMINAL_PASTE_0: &'static str = r#"
            tell application "System Events"
              tell process ""#;
pub const TERMINAL_PASTE_1: &'static str = r#""
                set frontmost to true
              end tell
              set the clipboard to ""#;
pub const TERMINAL_PASTE_2: &'static str = r#""
              tell process ""#;
pub const TERMINAL_PASTE_3: &'static str = r#""
                try
                  click menu item "粘贴" of menu "编辑" of menu bar 1
                  return "ok-paste-zh"
                on error
                  try
                    click menu item "Paste" of menu "Edit" of menu bar 1
                    return "ok-paste-en"
                  on error errMsg
                    return "error:" & errMsg
                  end try
                end try
              end tell
            end tell
            "#;

/// The text `ax_terminal_paste_script` produces.
pub open spec fn terminal_paste_text(process: Seq<char>, val: Seq<char>) -> Seq<char> {
    TERMINAL_PASTE_0@
        + process
        + TERMINAL_PASTE_1@
        + val
        + TERMINAL_PASTE_2@
        + process
        + TERMINAL_PASTE_3@
}

/// Paste through the Edit menu of a terminal (no keystrokes).
pub fn ax_terminal_paste_script(process: &str, val: &str) -> (r: String)
    ensures
        r@ == terminal_paste_text(process@, val@),
{
    let mut s = String::new();
    s = cat(s, TERMINAL_PASTE_0);
    s = cat(s, process);
    s = cat(s, TERMINAL_PASTE_1);
    s = cat(s, val);
    s = cat(s, TERMINAL_PASTE_2);
    s = cat(s, process);
    s = cat(s, TERMINAL_PASTE_3);
    s
}

pub const TEXTEDIT_DOC_0: &'static str = r#"
            tell application "System Events"
              tell process "TextEdit"
                try
                  set ta to text area 1 of window 1
                  try
                    set focused of ta to true
                  end try
                  set value of ta to ""#;
pub const TEXTEDIT_DOC_1: &'static str = r#""
                  return "ok-textedit-textarea"
                on error errMsg
                  return "error:" & errMsg
                end try
              end tell
            end tell
            "#;

/// The text `ax_textedit_document_script` produces.
pub open spec fn textedit_document_text(val: Seq<char>) -> Seq<char> {
    TEXTEDIT_DOC_0@
        + val
        + TEXTEDIT_DOC_1@
}

/// Set the TextEdit document text through its text area.
pub fn ax_textedit_document_script(val: &str) -> (r: String)
    ensures
        r@ == textedit_document_text(val@),
{
    let mut s = String::new();
    s = cat(s, TEXTEDIT_DOC_0);
    s = cat(s, val);
    s = cat(s, TEXTEDIT_DOC_1);
    s
}

pub const SET_VALUE_MATCH_0: &'static str = r#"                        if ("e" & n) is ""#;
pub const SET_VALUE_MATCH_1: &'static str = r#"" then
                          set vcuTarget to el
                          set vcuRole to r
                          if (r does not contain "TextArea") and (r does not contain "text area") and (r does not contain "TextField") and (r does not contain "text field") and (r does not contain "SearchField") and (r does not contain "ComboBox") and (r is not "text") then
                            try
                              set vcuKids to UI elements of el
                              repeat with vcuKidIdx from 1 to (count of vcuKids)
                                set vcuKid to item vcuKidIdx of vcuKids
                                set vcuKr to ""
                                try
                                  set vcuKr to role of vcuKid as text
                                end try
                                if (vcuKr contains "TextArea") or (vcuKr contains "text area") or (vcuKr contains "TextField") or (vcuKr contains "text field") then
                                  set vcuTarget to vcuKid
                                  set vcuRole to vcuKr
                                  exit repeat
                                end if
                              end repeat
                            end try
                          end if
                          set vcuOkRole to false
                          if vcuRole contains "TextArea" then set vcuOkRole to true
                          if vcuRole contains "text area" then set vcuOkRole to true
                          if vcuRole contains "TextField" then set vcuOkRole to true
                          if vcuRole contains "text field" then set vcuOkRole to true
                          if vcuRole contains "SearchField" then set vcuOkRole to true
                          if vcuRole contains "ComboBox" then set vcuOkRole to true
                          if vcuRole is "text" then set vcuOkRole to true
                          if vcuOkRole is false then
                            return "error:not-text:" & vcuRole
                          end if
                          try
                            set focused of vcuTarget to true
                          end try
                          try
                            set value of vcuTarget to ""#;
pub const SET_VALUE_MATCH_2: &'static str = r#""
                            return "ok:" & vcuRole
                          on error
                            try
                              set value of attribute "AXValue" of vcuTarget to ""#;
pub const SET_VALUE_MATCH_3: &'static str = r#""
                              return "ok-axvalue:" & vcuRole
                            on error errMsg
                              return "error:" & errMsg
                            end try
                          end try
                        end if"#;

/// The text `set_value_match` produces.
pub open spec fn set_value_match_text(eref: Seq<char>, val: Seq<char>) -> Seq<char> {
    SET_VALUE_MATCH_0@
        + eref
        + SET_VALUE_MATCH_1@
        + val
        + SET_VALUE_MATCH_2@
        + val
        + SET_VALUE_MATCH_3@
}

fn set_value_match(eref: &str, val: &str) -> (r: String)
    ensures
        r@ == set_value_match_text(eref@, val@),
{
    let mut s = String::new();
    s = cat(s, SET_VALUE_MATCH_0);
    s = cat(s, eref);
    s = cat(s, SET_VALUE_MATCH_1);
    s = cat(s, val);
    s = cat(s, SET_VALUE_MATCH_2);
    s = cat(s, val);
    s = cat(s, SET_VALUE_MATCH_3);
    s
}

// ---------------------------------------------------------------------------
// Scene snapshots
// ---------------------------------------------------------------------------

/// How a scene snapshot of a process runs: window metadata only (a short budget on a
/// browser-like app), or the full walk; the script and the time it is given.
#[derive(Debug, Clone)]
pub struct SnapshotPlan {
    pub meta_only: bool,
    pub script: String,
    pub timeout_ms: u64,
}

pub open spec fn meta_only_of(process: Seq<char>, budget: u64) -> bool {
    0 < budget < 100 && wants_enhanced(process)
}

pub fn plan_ax_snapshot(process: &str, budget: u64) -> (r: SnapshotPlan)
    ensures
        r.meta_only == meta_only_of(process@, budget),
        r.script@ == (if r.meta_only {
            browser_window_preferred(window_meta_raw_text(applescript_literal(process@)), applescript_literal(process@))
        } else {
            snapshot_text(applescript_literal(process@))
        }),
        r.timeout_ms == (if r.meta_only { 800 } else { bfs_timeout_of(process@) }),
{
    let meta_only = budget > 0 && budget < 100 && ax_wants_enhanced(process);
    let lit = MacosAppBackend::as_literal(process);
    let script = if meta_only { ax_window_meta_script(lit.as_str()) } else { ax_snapshot_script(lit.as_str()) };
    let timeout_ms = if meta_only { 800 } else { ax_bfs_timeout_ms(process) };
    SnapshotPlan { meta_only, script, timeout_ms }
}

/// How many scene elements a snapshot keeps: a twentieth of the budget (4000 when
/// none is given), at least five.
pub open spec fn element_cap_of(budget: u64) -> int {
    let b = if budget == 0 { 4000 } else { budget as int };
    if b / 20 >= 5 { b / 20 } else { 5 }
}

pub fn snapshot_element_cap(budget: u64) -> (r: u64)
    ensures
        r == element_cap_of(budget),
{
    let b = if budget == 0 { 4000 } else { budget };
    let m = b / 20;
    if m >= 5 { m } else { 5 }
}

/// The one-line summary of a full scene snapshot.
pub open spec fn scene_summary_of(process: Seq<char>, elements: u64, truncated: bool, webview: bool, url: Seq<char>) -> Seq<char> {
    "kind=desktop.scene process=\""@ + process + "\" elements="@ + crate::text::nat_decimal(elements as nat)
        + " truncated="@ + crate::text::bool_text(truncated) + " webview="@ + crate::text::bool_text(webview)
        + " url="@ + url
}

pub fn scene_summary(process: &str, elements: u64, truncated: bool, webview: bool, url: &str) -> (r: String)
    ensures
        r@ == scene_summary_of(process@, elements, truncated, webview, url@),
{
    let mut s = cat(owned("kind=desktop.scene process=\""), process);
    s = cat(s, "\" elements=");
    s = cat(s, crate::text::u64_string(elements).as_str());
    s = cat(s, " truncated=");
    s = cat(s, crate::text::bool_str(truncated));
    s = cat(s, " webview=");
    s = cat(s, crate::text::bool_str(webview));
    s = cat(s, " url=");
    cat(s, url)
}

/// The summary of a snapshot the AX walk refused (`raw` is what it printed).
pub fn ax_error_summary(process: &str, raw: &str) -> (r: String)
    ensures
        r@ == "process=\""@ + process@ + "\" ax_error="@ + crate::text::strip_prefix_all(raw@, "ERROR:"@),
{
    let mut s = cat(owned("process=\""), process);
    s = cat(s, "\" ax_error=");
    cat(s, crate::text::strip_prefix_all_str(raw, "ERROR:").as_str())
}

/// The summary of a snapshot that fell back to window metadata.
pub fn limited_summary(process: &str, reason: &str) -> (r: String)
    ensures
        r@ == "process=\""@ + process@ + "\" snapshot_limited reason="@ + reason@,
{
    let mut s = cat(owned("process=\""), process);
    s = cat(s, "\" snapshot_limited reason=");
    cat(s, reason)
}

// ---------------------------------------------------------------------------
// Login scene, tab labels, shared snippets
// ---------------------------------------------------------------------------

/// The attribute reads every walk shares (role, name with description/help fallback,
/// frame); never `entire contents`.
pub fn ax_read_el_snippet() -> (r: &'static str)
    ensures
        r@ == AX_READ_EL@,
{
    AX_READ_EL
}

pub const LOGIN_SCENE_ON_MATCH: &'static str = r#"                        if r contains "WebArea" then
                          set vcuAcc to vcuAcc & r & "|" & nm & "|" & fr & linefeed
                          set vcuWeb to "WEB" & tab & nm & tab & fr & linefeed
                        end if
                        if r is "AXTextField" then
                          if (nm contains "地址") or (nm contains "Address") or (nm contains "Search") then
                            set vcuAcc to vcuAcc & r & "|" & nm & "|" & fr & linefeed
                            try
                              set vcuTmp to value of el as text
                              if vcuTmp is not "missing value" then
                                if vcuTmp is not "" then set vcuPageUrl to vcuTmp
                              end if
                            end try
                          end if
                        end if
                        if r is "AXRadioButton" then
                          set vcuSel to "0"
                          try
                            set vcuRv to value of el as text
                            if vcuRv is "true" then set vcuSel to "1"
                          end try
                          set vcuTabs to vcuTabs & "TAB" & tab & vcuSel & tab & nm & linefeed
                        end if
                        if vcuPageUrl is not "" then
                          if vcuWeb is not "" then
                            if n > 40 then set n to 80
                          end if
                        end if"#;

pub const LOGIN_SCENE_NOT_FOUND: &'static str = r#"set vcuMeta to "PAGE" & tab & vcuPageTitle & tab & vcuPageUrl & linefeed & vcuTabs & vcuWeb
                if n >= 80 then
                  return "WINDOW|" & vcuW & linefeed & vcuAcc & "TRUNCATED" & linefeed & vcuMeta
                end if
                return "WINDOW|" & vcuW & linefeed & vcuAcc & vcuMeta"#;

/// The login-state walk: the web area, the address field's URL and the tab strip, cut
/// short at 80 nodes once the page URL and web area are known.
pub fn ax_login_scene_script(process: &str) -> (r: String)
    ensures
        r@ == bfs_text(process@, LOGIN_SCENE_ON_MATCH@, LOGIN_SCENE_NOT_FOUND@),
{
    ax_bfs_script(process, LOGIN_SCENE_ON_MATCH, LOGIN_SCENE_NOT_FOUND)
}

/// A tab's label: its trimmed text, cut (and trimmed again) before the browser's
/// memory note (" - 内存", then " - Memory").
pub open spec fn tab_label_of(raw: Seq<char>) -> Seq<char> {
    let s = trim(raw);
    match crate::text::before_first(s, " - 内存"@) {
        Some(h) => trim(h),
        None => match crate::text::before_first(s, " - Memory"@) {
            Some(h) => trim(h),
            None => s,
        },
    }
}

fn cut_before(s: &Vec<char>, needle: &str) -> (r: Option<Vec<char>>)
    ensures
        match (r, crate::text::before_first(s@, needle@)) {
            (Some(a), Some(b)) => a@ == b,
            (None, None) => true,
            _ => false,
        },
{
    let pat = chars_of(needle);
    match crate::text::find_first(s, &pat) {
        Some(i) => {
            proof {
                crate::text::lemma_before_first(s@, pat@, i as int);
            }
            let mut r: Vec<char> = Vec::new();
            let mut k: usize = 0;
            while k < i
                invariant
                    k <= i,
                    i <= s@.len(),
                    r@ == s@.take(k as int),
                decreases i - k,
            {
                r.push(s[k]);
                k = k + 1;
                assert(r@ =~= s@.take(k as int));
            }
            Some(r)
        },
        None => {
            assert(!exists|i: int| crate::text::is_first_occurrence(s@, pat@, i));
            None
        },
    }
}

pub fn tab_label(raw: &str) -> (r: String)
    ensures
        r@ == tab_label_of(raw@),
{
    let s = trimmed_of(raw);
    if let Some(h) = cut_before(&s, " - 内存") {
        return string_of(&trim_vec(&h));
    }
    if let Some(h) = cut_before(&s, " - Memory") {
        return string_of(&trim_vec(&h));
    }
    string_of(&s)
}

/// The denylist beats every allowlist: a denied app (WeChat) is never allowed, whatever
/// the allowlist holds, on macOS and Windows alike.
pub proof fn lemma_denied_never_allowed(allowlist: Seq<Seq<char>>, name: Seq<char>)
    ensures
        is_denied_name(name) ==> !allowed_by(allowlist, name),
{
}

// ---------------------------------------------------------------------------
// osascript failures
// ---------------------------------------------------------------------------

pub const AX_PERMISSION_MISSING: &'static str = "macOS Accessibility permission missing for osascript/System Events";

/// The stderr of a failed `osascript` reports missing Accessibility permission.
pub open spec fn accessibility_refusal(stderr: Seq<char>) -> bool {
    let l = unicode_lower(trim(stderr));
    seq_has(l, "not allowed"@) || seq_has(l, "assistive"@) || seq_has(l, "1002"@)
}

/// The error a failed `osascript` run becomes: missing Accessibility permission, or a
/// plain failure; the trimmed stderr is the detail either way.
pub fn osascript_failure(stderr: &str) -> (e: VcuError)
    ensures
        e.code == (if accessibility_refusal(stderr@) { ErrorCode::AccessibilityDenied } else { ErrorCode::ActionFailed }),
        e.message@ == (if accessibility_refusal(stderr@) { AX_PERMISSION_MISSING@ } else { "osascript failed"@ }),
        e.detail matches Some(d) && d@ == trim(stderr@),
{
    let t = trimmed_of(stderr);
    let ts = string_of(&t);
    let l = to_lowercase(ts.as_str());
    let lv = chars_of(l.as_str());
    if has_str(&lv, "not allowed") || has_str(&lv, "assistive") || has_str(&lv, "1002") {
        VcuError::with_detail(ErrorCode::AccessibilityDenied, owned(AX_PERMISSION_MISSING), ts)
    } else {
        VcuError::with_detail(ErrorCode::ActionFailed, owned("osascript failed"), ts)
    }
}

/// The error an `osascript` run under a time limit becomes when it fails: killed with
/// nothing on stderr means it timed out.
pub fn osascript_timeout_failure(stderr: &str) -> (e: VcuError)
    ensures
        e.code == ErrorCode::ActionFailed,
        trim(stderr@).len() == 0 ==> e.message@ == "ax command timed out"@ && e.detail is None,
        trim(stderr@).len() > 0 ==> e.message@ == "osascript failed"@ && (e.detail matches Some(d) && d@ == trim(
            stderr@,
        )),
{
    let t = trimmed_of(stderr);
    if t.len() == 0 {
        VcuError::coded(ErrorCode::ActionFailed, owned("ax command timed out"))
    } else {
        VcuError::with_detail(ErrorCode::ActionFailed, owned("osascript failed"), string_of(&t))
    }
}

/// `VCU_ALLOW_SCREENCAPTURE` set to `0`, `false` or `off` (the words in any ASCII case)
/// turns screen capture off.
pub open spec fn screencapture_opted_out(v: Option<Seq<char>>) -> bool {
    match v {
        Some(s) => s == "0"@ || eq_ignore_case(s, "false"@) || eq_ignore_case(s, "off"@),
        None => false,
    }
}

/// Whether window pixels may be captured: the host granted Screen Recording
/// (`preflight`) and `VCU_ALLOW_SCREENCAPTURE` (`env_value`) does not opt out.
pub fn screen_capture_enabled(env_value: Option<&str>, preflight: bool) -> (r: bool)
    ensures
        r == (preflight && !screencapture_opted_out(match env_value {
            Some(v) => Some(v@),
            None => None,
        })),
{
    if let Some(v) = env_value {
        let c = chars_of(v);
        if str_eq(v, "0") || same_ignore_case(&c, &chars_of("false")) || same_ignore_case(&c, &chars_of("off")) {
            return false;
        }
    }
    preflight
}

// ---------------------------------------------------------------------------
// The AX scene reply
// ---------------------------------------------------------------------------

/// An element line of the AX scene reply: `role|name|frame|value` (or tab-separated).
/// Its ref is its position (`e1`, `e2`, …); the frame stays text for the host to read.
#[derive(Debug, Clone)]
pub struct AxElement {
    pub ref_id: String,
    pub role: String,
    pub name: String,
    pub frame: String,
    pub value: Option<String>,
}

/// What the AX scene reply says: the window frame (text), the elements, whether the
/// walk was cut short, the page title and address, the browser tabs, and whether a
/// page area was seen.
#[derive(Debug)]
pub struct ParsedAxSnapshot {
    pub window_frame: Option<String>,
    pub elements: Vec<AxElement>,
    pub truncated: bool,
    pub page_title: Option<String>,
    pub page_url: Option<String>,
    pub tabs: Vec<AppTab>,
    pub web_area: bool,
}

pub type AxElV = (Seq<char>, Seq<char>, Seq<char>, Seq<char>, Option<Seq<char>>);

pub struct AxV {
    pub window: Option<Seq<char>>,
    pub elements: Seq<AxElV>,
    pub truncated: bool,
    pub title: Option<Seq<char>>,
    pub url: Option<Seq<char>>,
    pub tabs: Seq<(Seq<char>, bool)>,
    pub web: bool,
}

pub open spec fn ax_start() -> AxV {
    AxV { window: None, elements: Seq::empty(), truncated: false, title: None, url: None, tabs: Seq::empty(), web: false }
}

pub open spec fn or_empty(o: Option<Seq<char>>) -> Seq<char> {
    match o {
        Some(x) => x,
        None => Seq::empty(),
    }
}

/// The piece after the first `d` of an optional remainder, as a further `next()` of
/// `splitn` sees it.
pub open spec fn cut_rest(o: Option<Seq<char>>, d: char) -> (Seq<char>, Option<Seq<char>>) {
    match o {
        Some(x) => cut(x, d),
        None => (Seq::empty(), None),
    }
}

pub open spec fn tagged(line: Seq<char>, tag: Seq<char>) -> bool {
    begins(line, tag + "|"@) || begins(line, tag + "\t"@)
}

/// One line of the reply applied to what the lines before it said.
pub open spec fn ax_step(st: AxV, raw: Seq<char>) -> AxV {
    let line = trim_end(raw);
    let tab_delim = if seq_has(line, "\t"@) { '\t' } else { '|' };
    if line.len() == 0 {
        st
    } else if line == "TRUNCATED"@ {
        AxV { truncated: true, ..st }
    } else if tagged(line, "WINDOW"@) {
        AxV { window: Some(line.skip(7)), ..st }
    } else if tagged(line, "PAGE"@) {
        let c = cut(line.skip(5), tab_delim);
        AxV { title: nonempty_of(c.0), url: nonempty_of(or_empty(c.1)), ..st }
    } else if tagged(line, "TAB"@) {
        let c = cut(line.skip(4), tab_delim);
        let sel = trim(c.0);
        let name = tab_label_of(or_empty(c.1));
        if name.len() > 0 {
            AxV { tabs: st.tabs.push((name, sel == "1"@ || eq_ignore_case(sel, "true"@))), ..st }
        } else {
            st
        }
    } else if tagged(line, "WEB"@) {
        AxV { web: true, ..st }
    } else {
        let d = if seq_has(line, "|"@) { '|' } else { '\t' };
        let c0 = cut(line, d);
        let c1 = cut_rest(c0.1, d);
        let c2 = cut_rest(c1.1, d);
        let role = trim(c0.0);
        let name = trim(c1.0);
        if role.len() == 0 && name.len() == 0 {
            st
        } else {
            AxV {
                elements: st.elements.push(
                    (
                        "e"@ + nat_decimal((st.elements.len() + 1) as nat),
                        role,
                        name,
                        trim(c2.0),
                        nonempty_of(or_empty(c2.1)),
                    ),
                ),
                ..st
            }
        }
    }
}

/// An element line `role|name|frame`, with `|value` after it when there is a value.
pub open spec fn element_line(role: Seq<char>, name: Seq<char>, frame: Seq<char>, value: Option<Seq<char>>) -> Seq<
    char,
> {
    role + "|"@ + name + "|"@ + frame + match value {
        Some(v) => "|"@ + v,
        None => Seq::empty(),
    }
}

pub open spec fn no_bar(s: Seq<char>) -> bool {
    forall|k: int| 0 <= k < s.len() ==> s[k] != '|'
}

proof fn lemma_element_line_untagged(line: Seq<char>, role_len: int)
    requires
        0 <= role_len < line.len(),
        line[role_len] == '|',
        'a' <= line[0] && line[0] <= 'z',
        !is_ws(line.last()),
    ensures
        trim_end(line) == line,
        seq_has(line, "|"@),
        line.len() > 0,
        line != "TRUNCATED"@,
        !tagged(line, "WINDOW"@),
        !tagged(line, "PAGE"@),
        !tagged(line, "TAB"@),
        !tagged(line, "WEB"@),
{
    reveal_strlit("|");
    reveal_strlit("TRUNCATED");
    reveal_strlit("WINDOW");
    reveal_strlit("PAGE");
    reveal_strlit("TAB");
    reveal_strlit("WEB");
    reveal_strlit("\t");
    assert(trail_ws(line) == 0);
    assert(trim_end(line) =~= line);
    assert(line.subrange(role_len, role_len + 1) =~= "|"@);
    assert(occurs_at(line, "|"@, role_len));
    assert(("WINDOW"@ + "|"@)[0] == 'W' && ("WINDOW"@ + "\t"@)[0] == 'W');
    assert(("PAGE"@ + "|"@)[0] == 'P' && ("PAGE"@ + "\t"@)[0] == 'P');
    assert(("TAB"@ + "|"@)[0] == 'T' && ("TAB"@ + "\t"@)[0] == 'T');
    assert(("WEB"@ + "|"@)[0] == 'W' && ("WEB"@ + "\t"@)[0] == 'W');
    assert("TRUNCATED"@[0] == 'T');
}

/// Cutting `piece|rest` at the first `|` gives the piece and the rest.
proof fn lemma_cut_piece(piece: Seq<char>, rest: Seq<char>)
    requires
        no_bar(piece),
    ensures
        cut(piece + seq!['|'] + rest, '|') == (piece, Some(rest)),
{
    let s = piece + seq!['|'] + rest;
    assert forall|k: int| 0 <= k < piece.len() implies s[k] != '|' by {
        assert(s[k] == piece[k]);
    }
    lemma_cut_at(s, '|', piece.len() as int);
    assert(s.take(piece.len() as int) =~= piece);
    assert(s.skip(piece.len() as int + 1) =~= rest);
}

proof fn lemma_cut_whole(piece: Seq<char>)
    requires
        no_bar(piece),
    ensures
        cut(piece, '|') == (piece, None::<Seq<char>>),
{
    lemma_cut_at(piece, '|', piece.len() as int);
}

/// An element line adds the next element, numbered after those before it, with the
/// line's role, name and frame (each trimmed) and its value: the frame is the third
/// piece of the line, never another one. (Roles begin with a lower-case letter, as AX
/// role names do, so the line is no `WINDOW`/`PAGE`/`TAB`/`WEB` record.)
pub proof fn lemma_element_line_fields(
    st: AxV,
    role: Seq<char>,
    name: Seq<char>,
    frame: Seq<char>,
    value: Option<Seq<char>>,
)
    requires
        no_bar(role),
        no_bar(name),
        no_bar(frame),
        role.len() > 0 && 'a' <= role[0] && role[0] <= 'z',
        !is_ws(element_line(role, name, frame, value).last()),
        trim(role).len() > 0 || trim(name).len() > 0,
    ensures
        ax_step(st, element_line(role, name, frame, value)).elements == st.elements.push(
            (
                "e"@ + nat_decimal((st.elements.len() + 1) as nat),
                trim(role),
                trim(name),
                trim(frame),
                match value {
                    Some(v) => nonempty_of(v),
                    None => None,
                },
            ),
        ),
{
    reveal_strlit("|");
    let line = element_line(role, name, frame, value);
    let tail = match value {
        Some(v) => seq!['|'] + v,
        None => Seq::<char>::empty(),
    };
    let r2 = frame + tail;
    let r1 = name + seq!['|'] + r2;
    assert(line =~= role + seq!['|'] + r1);
    assert(line[role.len() as int] == '|');
    assert(line[0] == role[0]);
    lemma_element_line_untagged(line, role.len() as int);
    lemma_cut_piece(role, r1);
    lemma_cut_piece(name, r2);
    match value {
        Some(v) => {
            assert(r2 =~= frame + seq!['|'] + v);
            lemma_cut_piece(frame, v);
        },
        None => {
            assert(r2 =~= frame);
            lemma_cut_whole(frame);
            assert(trim(Seq::<char>::empty()) =~= Seq::<char>::empty());
        },
    }
}

pub open spec fn ax_fold(ls: Seq<Seq<char>>) -> AxV
    decreases ls.len(),
{
    if ls.len() == 0 {
        ax_start()
    } else {
        ax_step(ax_fold(ls.drop_last()), ls.last())
    }
}

pub open spec fn opt_v(o: Option<String>) -> Option<Seq<char>> {
    match o {
        Some(x) => Some(x@),
        None => None,
    }
}

pub open spec fn ax_el_v(e: AxElement) -> AxElV {
    (e.ref_id@, e.role@, e.name@, e.frame@, opt_v(e.value))
}

pub open spec fn parsed_v(p: ParsedAxSnapshot) -> AxV {
    AxV {
        window: opt_v(p.window_frame),
        elements: p.elements@.map_values(|e: AxElement| ax_el_v(e)),
        truncated: p.truncated,
        title: opt_v(p.page_title),
        url: opt_v(p.page_url),
        tabs: p.tabs@.map_values(|t: AppTab| (t.name@, t.selected)),
        web: p.web_area,
    }
}

fn vec_opt(o: Option<Vec<char>>) -> (r: Option<String>)
    ensures
        opt_v(r) == match o {
            Some(v) => Some(v@),
            None => None,
        },
{
    match o {
        Some(v) => Some(string_of(&v)),
        None => None,
    }
}

fn nonempty_vec(v: &Vec<char>) -> (r: Option<String>)
    ensures
        opt_v(r) == nonempty_of(v@),
{
    let t = trim_vec(v);
    proof {
        reveal_strlit("missing value");
    }
    if t.len() == 0 || same_str(&t, "missing value") {
        None
    } else {
        Some(string_of(&t))
    }
}

fn cut_rest_vec(o: &Option<Vec<char>>, d: char) -> (r: (Vec<char>, Option<Vec<char>>))
    ensures
        (r.0@, match r.1 {
            Some(v) => Some(v@),
            None => None,
        }) == cut_rest(match o {
            Some(v) => Some(v@),
            None => None,
        }, d),
{
    match o {
        Some(x) => cut_vec(x, d),
        None => (Vec::new(), None),
    }
}

fn or_empty_vec(o: Option<Vec<char>>) -> (r: Vec<char>)
    ensures
        r@ == or_empty(match o {
            Some(v) => Some(v@),
            None => None,
        }),
{
    match o {
        Some(v) => v,
        None => Vec::new(),
    }
}

fn tagged_exec(line: &Vec<char>, tag: &str) -> (r: bool)
    ensures
        r == tagged(line@, tag@),
{
    let mut a = chars_of(tag);
    let mut b = chars_of(tag);
    a.push('|');
    b.push('\t');
    proof {
        reveal_strlit("|");
        reveal_strlit("\t");
        assert(a@ == tag@ + "|"@);
        assert(b@ == tag@ + "\t"@);
    }
    crate::text::begins_vec(line, &a) || crate::text::begins_vec(line, &b)
}

proof fn lemma_has_one(s: Seq<char>, c: char)
    ensures
        s.contains(c) == seq_has(s, seq![c]),
{
    if s.contains(c) {
        let k = choose|k: int| 0 <= k < s.len() && s[k] == c;
        assert(s.subrange(k, k + 1) =~= seq![c]);
        assert(crate::text::occurs_at(s, seq![c], k));
    }
    if seq_has(s, seq![c]) {
        let k = choose|k: int| crate::text::occurs_at(s, seq![c], k);
        assert(s.subrange(k, k + 1)[0] == s[k]);
    }
}

/// One line of the AX scene reply applied to what was read so far (see `ax_step`).
#[verifier::rlimit(40)]
fn ax_apply(p: &mut ParsedAxSnapshot, raw: &Vec<char>)
    requires
        old(p).elements@.len() < usize::MAX,
    ensures
        parsed_v(*final(p)) == ax_step(parsed_v(*old(p)), raw@),
        final(p).elements@.len() <= old(p).elements@.len() + 1,
{
    let ghost st = parsed_v(*p);
    let line = trim_end_vec(raw);
    proof {
        reveal_strlit("TRUNCATED");
        reveal_strlit("\t");
        reveal_strlit("|");
        reveal_strlit("WINDOW");
        reveal_strlit("PAGE");
        reveal_strlit("TAB");
        reveal_strlit("WEB");
    }
    let has_tab = has_char(&line, '\t');
    let tab_delim = if has_tab { '\t' } else { '|' };
    proof {
        lemma_has_one(line@, '\t');
        assert("\t"@ == seq!['\t']);
    }
    if line.len() == 0 {
    } else if same_str(&line, "TRUNCATED") {
        p.truncated = true;
    } else if tagged_exec(&line, "WINDOW") {
        p.window_frame = Some(string_of(&skip_vec(&line, 7)));
    } else if tagged_exec(&line, "PAGE") {
        let (a, b) = cut_vec(&skip_vec(&line, 5), tab_delim);
        p.page_title = nonempty_vec(&a);
        p.page_url = nonempty_vec(&or_empty_vec(b));
    } else if tagged_exec(&line, "TAB") {
        let (a, b) = cut_vec(&skip_vec(&line, 4), tab_delim);
        let sel = trim_vec(&a);
        let name = tab_label(string_of(&or_empty_vec(b)).as_str());
        if name.as_str().unicode_len() > 0 {
            proof {
                reveal_strlit("1");
                reveal_strlit("true");
            }
            let selected = same_str(&sel, "1") || same_ignore_case(&sel, &chars_of("true"));
            let ghost before = p.tabs@;
            p.tabs.push(AppTab { name, selected });
            assert(p.tabs@.map_values(|t: AppTab| (t.name@, t.selected)) =~= before.map_values(
                |t: AppTab| (t.name@, t.selected),
            ).push((p.tabs@.last().name@, p.tabs@.last().selected)));
        }
    } else if tagged_exec(&line, "WEB") {
        p.web_area = true;
    } else {
        let has_bar = has_char(&line, '|');
        let d = if has_bar { '|' } else { '\t' };
        proof {
            lemma_has_one(line@, '|');
            assert("|"@ == seq!['|']);
        }
        let c0 = cut_vec(&line, d);
        let c1 = cut_rest_vec(&c0.1, d);
        let c2 = cut_rest_vec(&c1.1, d);
        let role = trim_vec(&c0.0);
        let name = trim_vec(&c1.0);
        if role.len() > 0 || name.len() > 0 {
            let n = p.elements.len();
            let r = cat(owned("e"), u64_string((n + 1) as u64).as_str());
            let value = nonempty_vec(&or_empty_vec(c2.1));
            let ghost before = p.elements@;
            p.elements.push(AxElement {
                ref_id: r,
                role: string_of(&role),
                name: string_of(&name),
                frame: string_of(&trim_vec(&c2.0)),
                value,
            });
            assert(p.elements@.map_values(|e: AxElement| ax_el_v(e)) =~= before.map_values(|e: AxElement| ax_el_v(e)).push(
                ax_el_v(p.elements@.last()),
            ));
        }
    }
}

/// Reads the AX scene reply (see `ax_step`).
pub fn parse_ax_snapshot(raw: &str) -> (p: ParsedAxSnapshot)
    ensures
        parsed_v(p) == ax_fold(lines(raw@)),
{
    let ls = lines_vec(&chars_of(raw));
    let mut p = ParsedAxSnapshot {
        window_frame: None,
        elements: Vec::new(),
        truncated: false,
        page_title: None,
        page_url: None,
        tabs: Vec::new(),
        web_area: false,
    };
    assert(p.elements@.map_values(|e: AxElement| ax_el_v(e)) =~= Seq::<AxElV>::empty());
    assert(p.tabs@.map_values(|t: AppTab| (t.name@, t.selected)) =~= Seq::<(Seq<char>, bool)>::empty());
    assert(parsed_v(p) == ax_start());
    let mut i: usize = 0;
    while i < ls.len()
        invariant
            i <= ls@.len(),
            views(ls@) == lines(raw@),
            parsed_v(p) == ax_fold(views(ls@).take(i as int)),
            p.elements@.len() <= i,
        decreases ls.len() - i,
    {
        proof {
            assert(views(ls@).take(i + 1).drop_last() =~= views(ls@).take(i as int));
            assert(views(ls@).take(i + 1).last() == ls@[i as int]@);
        }
        ax_apply(&mut p, &ls[i]);
        i = i + 1;
    }
    assert(views(ls@).take(i as int) =~= views(ls@));
    p
}


// ---------------------------------------------------------------------------
// Scrolling a window (the login-state browser first of all)
// ---------------------------------------------------------------------------

pub const SCROLL_PART_0: &'static str = r#"
            tell application "System Events"
              tell process ""#;
pub const SCROLL_PART_1: &'static str = r#""
                try
                  perform action ""#;
pub const SCROLL_PART_2: &'static str = r#"" of (first UI element of window 1 whose role is "AXWebArea")
                  return "ok-webarea"
                end try
                try
                  perform action ""#;
pub const SCROLL_PART_3: &'static str = r#"" of (first UI element of window 1 whose role is "HTML content")
                  return "ok-html"
                end try
                try
                  perform action ""#;
pub const SCROLL_PART_4: &'static str = r#"" of (first scroll area of window 1)
                  return "ok-sa"
                end try
                try
                  perform action ""#;
pub const SCROLL_PART_5: &'static str = r#"" of (last scroll area of window 1)
                  return "ok-sa-last"
                end try
                try
                  perform action ""#;
pub const SCROLL_PART_6: &'static str = r#"" of window 1
                  return "ok-window"
                end try
                try
                  perform action ""#;
pub const SCROLL_PART_7: &'static str = r#"" of scroll area 1 of splitter group 1 of window 1
                  return "ok-split-sa"
                end try
                try
                  set sb to scroll bar 1 of scroll area 1 of splitter group 1 of window 1
                  set cur to value of sb
                  set value of sb to (cur + "#;
pub const SCROLL_PART_8: &'static str = r#")
                  return "ok-split-sb"
                end try
                try
                  set sb to scroll bar 1 of scroll area 1 of window 1
                  set cur to value of sb
                  set value of sb to (cur + "#;
pub const SCROLL_PART_9: &'static str = r#")
                  return "ok-scrollbar"
                on error errMsg
                  return "error:" & errMsg
                end try
              end tell
            end tell
            "#;

/// The scroll script's text: the page area (AXWebArea, then HTML content) first, then
/// the first and last scroll areas, the window, the split view's scroll area, and last
/// the scroll bars, moved by `delta`.
pub open spec fn scroll_script_text(process: Seq<char>, dir: Seq<char>, delta: Seq<char>) -> Seq<char> {
    SCROLL_PART_0@ + process + SCROLL_PART_1@ + dir + SCROLL_PART_2@ + dir + SCROLL_PART_3@ + dir + SCROLL_PART_4@ + dir + SCROLL_PART_5@ + dir + SCROLL_PART_6@ + dir + SCROLL_PART_7@ + delta + SCROLL_PART_8@ + delta + SCROLL_PART_9@
}

/// A page down for a non-negative `dy`, else a page up; the scroll bars move by 0.15 of
/// their range the same way.
pub open spec fn scroll_direction(dy: i32) -> (Seq<char>, Seq<char>) {
    if dy >= 0 {
        ("AXScrollDownByPage"@, "0.15"@)
    } else {
        ("AXScrollUpByPage"@, "-0.15"@)
    }
}

/// The AppleScript that scrolls the front window of `process` (already an AppleScript
/// literal) by a page in the direction of `dy`.
pub fn ax_scroll_script(process: &str, dy: i32) -> (r: String)
    ensures
        r@ == scroll_script_text(process@, scroll_direction(dy).0, scroll_direction(dy).1),
{
    let (dir, delta): (&str, &str) = if dy >= 0 {
        ("AXScrollDownByPage", "0.15")
    } else {
        ("AXScrollUpByPage", "-0.15")
    };
    cat(cat(cat(cat(cat(cat(cat(cat(cat(cat(cat(cat(cat(cat(cat(cat(cat(cat(owned(SCROLL_PART_0), process), SCROLL_PART_1), dir), SCROLL_PART_2), dir), SCROLL_PART_3), dir), SCROLL_PART_4), dir), SCROLL_PART_5), dir), SCROLL_PART_6), dir), SCROLL_PART_7), delta), SCROLL_PART_8), delta), SCROLL_PART_9)
}

pub const AX_SCROLL_FAILED: &'static str = "ax scroll failed";

/// A scroll script's output: one that starts with `error:` fails the scroll, with the
/// output as detail.
pub fn ax_scroll_outcome(out: &str) -> (r: Result<(), VcuError>)
    ensures
        r is Ok <==> !begins(out@, "error:"@),
        r matches Err(e) ==> e.code == ErrorCode::ActionFailed && e.message@ == AX_SCROLL_FAILED@ && (e.detail matches Some(d) && d@ == out@),
{
    if begins_str(&chars_of(out), "error:") {
        Err(VcuError::with_detail(ErrorCode::ActionFailed, owned(AX_SCROLL_FAILED), owned(out)))
    } else {
        Ok(())
    }
}

} // verus!
