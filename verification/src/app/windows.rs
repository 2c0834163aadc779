//! Windows app adapter: allowlist policy, process-list parsing, and the PowerShell the
//! adapter runs (UI Automation patterns only; no SendInput, no mouse events).
use vstd::prelude::*;
use crate::text::{
    lines, lines_vec, lower_vec, nat_decimal, piece_or_empty, split_all, split_vec, u64_string, views, begins_str, has_vec,
    all_digits, begins, cat, chars_of, cut, cut_vec, decimal, eq_ignore_case, has_str, i32_string,
    last_piece, last_piece_vec, lower, lower_of, owned, parse_i32, parse_i32_vec, replace_all,
    replace_char, replace_char_vec, replace_str, same_ignore_case, same_str, seq_has, strip_leading,
    strip_leading_vec, string_of, trim, trim_vec, trimmed_of,
};
use vstd::utf8::{decode_utf8, valid_utf8};
use vstd::string::StringSliceAdditionalSpecFns;
use crate::error::{ErrorCode, VcuError};
use super::{is_denied_app, is_denied_name, png_ihdr_size, png_size_of, to_lowercase, unicode_lower, AppTarget};
use super::macos::{allowed_by, view_strings};

verus! {

broadcast use vstd::string::group_string_axioms;

/// The Windows app adapter; `allowlist` holds process names matched case-insensitively
/// by containment.
pub struct WindowsAppBackend {
    pub allowlist: Vec<String>,
}

pub open spec fn windows_allowlist() -> Seq<Seq<char>> {
    seq![
        "notepad"@, "explorer"@, "msedge"@, "chrome"@, "windows terminal"@, "windowsterminal"@,
        "powershell"@, "cmd"@, "conhost"@, "calc"@, "calculator"@, "systemsettings"@,
    ]
}

impl WindowsAppBackend {
    pub fn new() -> (b: WindowsAppBackend)
        ensures
            view_strings(b.allowlist@) == windows_allowlist(),
    {
        let mut allowlist: Vec<String> = Vec::new();
        allowlist.push(owned("notepad"));
        allowlist.push(owned("explorer"));
        allowlist.push(owned("msedge"));
        allowlist.push(owned("chrome"));
        allowlist.push(owned("windows terminal"));
        allowlist.push(owned("windowsterminal"));
        allowlist.push(owned("powershell"));
        allowlist.push(owned("cmd"));
        allowlist.push(owned("conhost"));
        allowlist.push(owned("calc"));
        allowlist.push(owned("calculator"));
        allowlist.push(owned("systemsettings"));
        assert(view_strings(allowlist@) =~= windows_allowlist());
        WindowsAppBackend { allowlist }
    }

    pub fn allowed(&self, name: &str) -> (r: bool)
        ensures
            r == allowed_by(view_strings(self.allowlist@), name@),
    {
        if is_denied_app(name) {
            return false;
        }
        if self.allowlist.len() == 0 {
            return true;
        }
        let lower = to_lowercase(name);
        let l = chars_of(lower.as_str());
        let mut i: usize = 0;
        while i < self.allowlist.len()
            invariant
                i <= self.allowlist@.len(),
                l@ == unicode_lower(name@),
                !is_denied_name(name@),
                self.allowlist@.len() > 0,
                forall|k: int| 0 <= k < i ==> !seq_has(l@, unicode_lower(#[trigger] view_strings(self.allowlist@)[k])),
            decreases self.allowlist.len() - i,
        {
            let a = to_lowercase(self.allowlist[i].as_str());
            assert(view_strings(self.allowlist@)[i as int] == self.allowlist@[i as int]@);
            if has_str(&l, a.as_str()) {
                return true;
            }
            i = i + 1;
        }
        false
    }
}

pub fn powershell_utf8_prelude() -> (r: &'static str)
    ensures
        r@ == POWERSHELL_UTF8_PRELUDE@,
{
    POWERSHELL_UTF8_PRELUDE
}

/// Bytes decoded as UTF-8 with invalid sequences replaced by U+FFFD.
pub uninterp spec fn utf8_lossy(b: Seq<u8>) -> Seq<char>;

/// `String::from_utf8_lossy`: decodes UTF-8, each invalid sequence replaced by U+FFFD.
/// Its result is named; the one fact stated is that valid UTF-8 decodes exactly.
#[verifier::external_body]
fn from_utf8_lossy(b: &[u8]) -> (r: String)
    ensures
        r@ == utf8_lossy(b@),
        valid_utf8(b@) ==> r@ == decode_utf8(b@),
{
    String::from_utf8_lossy(b).into_owned()
}

/// PowerShell output: a UTF-8 byte-order mark dropped, the text decoded and trimmed.
pub open spec fn powershell_body(b: Seq<u8>) -> Seq<u8> {
    if b.len() >= 3 && b[0] == 0xEFu8 && b[1] == 0xBBu8 && b[2] == 0xBFu8 { b.skip(3) } else { b }
}

pub open spec fn powershell_text(b: Seq<u8>) -> Seq<char> {
    trim(utf8_lossy(powershell_body(b)))
}

/// Valid UTF-8 output decodes exactly (before trimming).
pub fn decode_powershell_output(bytes: &[u8]) -> (r: String)
    ensures
        r@ == powershell_text(bytes@),
        valid_utf8(powershell_body(bytes@)) ==> r@ == trim(decode_utf8(powershell_body(bytes@))),
{
    let has_bom = bytes.len() >= 3 && bytes[0] == 0xEF && bytes[1] == 0xBB && bytes[2] == 0xBF;
    let mut body: Vec<u8> = Vec::new();
    let mut i: usize = if has_bom { 3 } else { 0 };
    let start = i;
    while i < bytes.len()
        invariant
            start <= i <= bytes@.len(),
            body@ == bytes@.subrange(start as int, i as int),
        decreases bytes.len() - i,
    {
        body.push(bytes[i]);
        i = i + 1;
        assert(body@ =~= bytes@.subrange(start as int, i as int));
    }
    assert(body@ =~= bytes@.skip(start as int));
    assert(bytes@.skip(0) =~= bytes@);
    let text = from_utf8_lossy(body.as_slice());
    string_of(&trim_vec(&chars_of(text.as_str())))
}

/// Packaged apps such as Calculator show their window on ApplicationFrameHost.
/// Alias only a matching title. Never allowlist the host process itself.
pub open spec fn frame_host_alias_of(title: Seq<char>) -> Option<Seq<char>> {
    let t = trim(title);
    if t.len() == 0 {
        None
    } else if seq_has(unicode_lower(t), "calculator"@) || unicode_lower(t) == "calc"@ || seq_has(t, "计算器"@) {
        Some("Calculator"@)
    } else {
        None
    }
}

pub fn frame_host_alias(title: &str) -> (r: Option<&'static str>)
    ensures
        match (r, frame_host_alias_of(title@)) {
            (Some(a), Some(b)) => a@ == b,
            (None, None) => true,
            _ => false,
        },
{
    let t = trimmed_of(title);
    if t.len() == 0 {
        return None;
    }
    let ts = string_of(&t);
    let lower = chars_of(to_lowercase(ts.as_str()).as_str());
    if has_str(&lower, "calculator") || same_str(&lower, "calc") || has_str(&t, "计算器") {
        return Some("Calculator");
    }
    None
}

pub open spec fn frame_host(name: Seq<char>) -> bool {
    eq_ignore_case(name, "ApplicationFrameHost"@)
}

fn is_frame_host(name: &Vec<char>) -> (r: bool)
    ensures
        r == frame_host(name@),
{
    same_ignore_case(name, &chars_of("ApplicationFrameHost"))
}

/// The windowless Calculator process next to its ApplicationFrameHost window.
pub open spec fn packaged_calc_stub(name: Seq<char>, title: Seq<char>) -> bool {
    let n = lower(name);
    (n == "calculatorapp"@ || n == "calc"@ || n == "calculator"@) && (trim(title).len() == 0 || eq_ignore_case(
        trim(title),
        name,
    ))
}

fn is_packaged_calc_stub(name: &Vec<char>, title: &Vec<char>) -> (r: bool)
    ensures
        r == packaged_calc_stub(name@, title@),
{
    let n = crate::text::lower_vec(name);
    let t = trim_vec(title);
    (same_str(&n, "calculatorapp") || same_str(&n, "calc") || same_str(&n, "calculator")) && (t.len() == 0
        || same_ignore_case(&t, name))
}

/// The pid at the end of a `win:<name>:<pid>` id.
pub fn pid_from_win_id(id: &str) -> (r: Option<i32>)
    ensures
        r == parse_i32(last_piece(id@, ':')),
{
    parse_i32_vec(&last_piece_vec(&chars_of(id), ':'))
}

/// Newline refusal and paste eligibility by process name.
pub open spec fn console_app(name: Seq<char>) -> bool {
    let n = lower(name);
    seq_has(n, "cmd"@) || seq_has(n, "conhost"@) || seq_has(n, "powershell"@) || seq_has(n, "pwsh"@)
        || seq_has(n, "windows terminal"@) || seq_has(n, "windowsterminal"@) || seq_has(n, "wt"@)
}

pub fn windows_console_app(name: &str) -> (r: bool)
    ensures
        r == console_app(name@),
{
    let n = lower_of(name);
    has_str(&n, "cmd") || has_str(&n, "conhost") || has_str(&n, "powershell") || has_str(&n, "pwsh")
        || has_str(&n, "windows terminal") || has_str(&n, "windowsterminal") || has_str(&n, "wt")
}

/// PowerShell: UIA tree walk. No SendInput / mouse_event.
pub fn uia_tree_script(pid: i32, max_nodes: i32) -> (r: String)
    ensures
        r@ == HWND_RESOLVE_PS@ + uia_tree_body_text(pid, max_nodes),
{
    let body = uia_tree_body(pid, max_nodes);
    cat(owned(HWND_RESOLVE_PS), body.as_str())
}

/// The node number of a Scene ref `eN` (0 when it is not one).
pub open spec fn ref_number(eref: Seq<char>) -> i32 {
    match parse_i32(strip_leading(eref, 'e')) {
        Some(n) => n,
        None => 0,
    }
}

fn ref_number_exec(eref: &str) -> (r: i32)
    ensures
        r == ref_number(eref@),
{
    match parse_i32_vec(&strip_leading_vec(&chars_of(eref), 'e')) {
        Some(n) => n,
        None => 0,
    }
}

/// PowerShell: InvokePattern on the Nth UIA node (eN). No SendInput.
pub fn uia_invoke_script(pid: i32, eref: &str) -> (r: String)
    ensures
        r@ == HWND_RESOLVE_PS@ + uia_invoke_body_text(pid, ref_number(eref@)),
{
    let n = ref_number_exec(eref);
    let body = uia_invoke_body(pid, n);
    cat(owned(HWND_RESOLVE_PS), body.as_str())
}

/// The set-value body with its markers filled in order: pid, node, value (single quotes
/// doubled), paste permission.
pub open spec fn set_value_text(pid: i32, eref: Seq<char>, value: Seq<char>, console: bool) -> Seq<char> {
    let val = replace_char(value, '\'', "''"@);
    let allow = if console { "1"@ } else { "0"@ };
    HWND_RESOLVE_PS@ + replace_all(
        replace_all(
            replace_all(
                replace_all(SET_VALUE_BODY@, "@@PID@@"@, decimal(pid as int)),
                "@@WANT@@"@,
                decimal(ref_number(eref) as int),
            ),
            "@@VAL@@"@,
            val,
        ),
        "@@ALLOW@@"@,
        allow,
    )
}

/// PowerShell: ValuePattern.SetValue on eN, else WM_SETTEXT. Consoles skip WM_SETTEXT (false green) and paste. No SendInput.
pub fn uia_set_value_script(pid: i32, eref: &str, value: &str) -> (r: String)
    ensures
        r@ == set_value_text(pid, eref@, value@, false),
{
    uia_set_value_script_for(pid, eref, value, false)
}

pub fn uia_set_value_script_for(pid: i32, eref: &str, value: &str, console: bool) -> (r: String)
    ensures
        r@ == set_value_text(pid, eref@, value@, console),
{
    let n = ref_number_exec(eref);
    let val = replace_str(value, "'", "''");
    proof {
        assert(replace_all(value@, "'"@, "''"@) == replace_char(value@, '\'', "''"@)) by {
            reveal_strlit("'");
            assert("'"@ =~= seq!['\'']);
            lemma_replace_single(value@, '\'', "''"@);
        }
    }
    let allow = if console { "1" } else { "0" };
    let pid_s = i32_string(pid);
    let n_s = i32_string(n);
    let b1 = replace_str(SET_VALUE_BODY, "@@PID@@", pid_s.as_str());
    let b2 = replace_str(b1.as_str(), "@@WANT@@", n_s.as_str());
    let b3 = replace_str(b2.as_str(), "@@VAL@@", val.as_str());
    let b4 = replace_str(b3.as_str(), "@@ALLOW@@", allow);
    cat(owned(HWND_RESOLVE_PS), b4.as_str())
}

proof fn lemma_replace_single(s: Seq<char>, c: char, to: Seq<char>)
    ensures
        replace_all(s, seq![c], to) == replace_char(s, c, to),
    decreases s.len(),
{
    if s.len() > 0 {
        lemma_replace_single(s.drop_first(), c, to);
        if s[0] == c {
            assert(s.subrange(0, 1) =~= seq![c]);
            assert(s.skip(1) =~= s.drop_first());
        } else {
            assert(s.subrange(0, 1)[0] != seq![c][0]);
        }
    }
}

/// PowerShell: PrintWindow of the process main HWND to PNG (base64). Not a full-desktop capture, not SendInput.
pub fn uia_capture_script(pid: i32) -> (r: String)
    ensures
        r@ == HWND_RESOLVE_PS@ + uia_capture_body_text(pid),
{
    let body = uia_capture_body(pid);
    cat(owned(HWND_RESOLVE_PS), body.as_str())
}

/// The text `uia_scroll_script` produces.
pub open spec fn scroll_text(pid: i32, eref: Seq<char>, dy: i32) -> Seq<char> {
    HWND_RESOLVE_PS@ + replace_all(
        replace_all(
            replace_all(SCROLL_BODY@, "@@PID@@"@, decimal(pid as int)),
            "@@WANT@@"@,
            decimal(ref_number(eref) as int),
        ),
        "@@DY@@"@,
        decimal(dy as int),
    )
}

/// PowerShell: ScrollPattern (else WM_VSCROLL) on eN. No SendInput.
pub fn uia_scroll_script(pid: i32, eref: &str, dy: i32) -> (r: String)
    ensures
        r@ == scroll_text(pid, eref@, dy),
{
    let n = ref_number_exec(eref);
    let pid_s = i32_string(pid);
    let n_s = i32_string(n);
    let dy_s = i32_string(dy);
    let b1 = replace_str(SCROLL_BODY, "@@PID@@", pid_s.as_str());
    let b2 = replace_str(b1.as_str(), "@@WANT@@", n_s.as_str());
    let b3 = replace_str(b2.as_str(), "@@DY@@", dy_s.as_str());
    cat(owned(HWND_RESOLVE_PS), b3.as_str())
}

/// A path as a single-quoted PowerShell string body: single quotes doubled.
pub open spec fn ps_quoted(path: Seq<char>) -> Seq<char> {
    replace_char(path, '\'', "''"@)
}

fn ps_quote(path: &str) -> (r: String)
    ensures
        r@ == ps_quoted(path@),
{
    let mut q: Vec<char> = Vec::new();
    q.push('\'');
    q.push('\'');
    proof {
        reveal_strlit("''");
        assert(q@ =~= "''"@);
    }
    string_of(&replace_char_vec(&chars_of(path), '\'', &q))
}

/// PowerShell: open a directory in Explorer. No SendInput.
pub fn explorer_open_script(path: &str) -> (r: String)
    ensures
        r@ == explorer_open_text(ps_quoted(path@)),
{
    let p = ps_quote(path);
    explorer_open_body(p.as_str())
}

/// PowerShell: select a file in Explorer. No SendInput.
pub fn explorer_reveal_script(path: &str) -> (r: String)
    ensures
        r@ == explorer_reveal_text(ps_quoted(path@)),
{
    let p = ps_quote(path);
    explorer_reveal_body(p.as_str())
}

/// A process-list row is split at `|` when it holds one, else at tabs.
pub open spec fn row_delim(line: Seq<char>) -> char {
    if line.contains('|') { '|' } else { '\t' }
}

/// The three leading pieces of a row: name, pid and title (the last two when present).
pub open spec fn row_pieces(line: Seq<char>) -> (Seq<char>, Option<Seq<char>>, Option<Seq<char>>) {
    let d = row_delim(line);
    let c1 = cut(line, d);
    match c1.1 {
        None => (c1.0, None, None),
        Some(r1) => {
            let c2 = cut(r1, d);
            match c2.1 {
                None => (c1.0, Some(c2.0), None),
                Some(r2) => (c1.0, Some(c2.0), Some(cut(r2, d).0)),
            }
        },
    }
}

/// An ApplicationFrameHost row showing Calculator.
pub open spec fn calc_window_row(line: Seq<char>) -> bool {
    let p = row_pieces(line);
    frame_host(trim(p.0)) && frame_host_alias_of(
        trim(
            match p.2 {
                Some(t) => t,
                None => Seq::empty(),
            },
        ),
    ) == Some("Calculator"@)
}

pub open spec fn has_calc_window(ls: Seq<Seq<char>>) -> bool {
    exists|i: int| 0 <= i < ls.len() && calc_window_row(#[trigger] ls[i])
}

/// A listed window before the allowlist decision: (listed name, title, process name,
/// pid, row index).
pub type CandidateView = (Seq<char>, Seq<char>, Seq<char>, Option<i32>, int);

/// The window a row names, unless the row is blank, a Calculator stub beside its frame
/// host window, a denied app, or a frame host that shows no packaged app.
pub open spec fn candidate_of(line: Seq<char>, idx: int, has_calc: bool) -> Option<CandidateView> {
    let p = row_pieces(line);
    let name = trim(p.0);
    let pid = match p.1 {
        Some(s) => parse_i32(trim(s)),
        None => None,
    };
    let title = match p.2 {
        Some(t) => trim(t),
        None => trim(name),
    };
    if name.len() == 0 {
        None
    } else if has_calc && packaged_calc_stub(name, title) {
        None
    } else if is_denied_name(name) || is_denied_name(title) {
        None
    } else if frame_host(name) {
        match frame_host_alias_of(title) {
            Some(alias) => Some((alias, title, name, pid, idx)),
            None => None,
        }
    } else {
        Some((name, title, name, pid, idx))
    }
}

pub open spec fn candidates_upto(ls: Seq<Seq<char>>, n: int, has_calc: bool) -> Seq<CandidateView>
    decreases n,
{
    if n <= 0 {
        Seq::empty()
    } else {
        let before = candidates_upto(ls, n - 1, has_calc);
        match candidate_of(ls[n - 1], n - 1, has_calc) {
            Some(c) => before.push(c),
            None => before,
        }
    }
}

/// Every window the listing names, in row order.
pub open spec fn process_candidates_of(raw: Seq<char>) -> Seq<CandidateView> {
    let ls = crate::text::lines(raw);
    candidates_upto(ls, ls.len() as int, has_calc_window(ls))
}

/// A listed window before the allowlist decision.
pub struct ProcessCandidate {
    pub listed: String,
    pub title: String,
    pub name: String,
    pub pid: Option<i32>,
    pub index: usize,
}

pub open spec fn candidate_view(c: ProcessCandidate) -> CandidateView {
    (c.listed@, c.title@, c.name@, c.pid, c.index as int)
}

pub open spec fn candidate_views(v: Seq<ProcessCandidate>) -> Seq<CandidateView> {
    v.map_values(|c: ProcessCandidate| candidate_view(c))
}

fn row_pieces_exec(line: &Vec<char>) -> (r: (Vec<char>, Option<Vec<char>>, Option<Vec<char>>))
    ensures
        r.0@ == row_pieces(line@).0,
        match (r.1, row_pieces(line@).1) {
            (Some(a), Some(b)) => a@ == b,
            (None, None) => true,
            _ => false,
        },
        match (r.2, row_pieces(line@).2) {
            (Some(a), Some(b)) => a@ == b,
            (None, None) => true,
            _ => false,
        },
{
    let d = if crate::text::has_char(line, '|') { '|' } else { '\t' };
    let (p1, r1) = cut_vec(line, d);
    match r1 {
        None => (p1, None, None),
        Some(r1) => {
            let (p2, r2) = cut_vec(&r1, d);
            match r2 {
                None => (p1, Some(p2), None),
                Some(r2) => {
                    let (p3, _) = cut_vec(&r2, d);
                    (p1, Some(p2), Some(p3))
                },
            }
        },
    }
}

fn calc_window_row_exec(line: &Vec<char>) -> (r: bool)
    ensures
        r == calc_window_row(line@),
{
    let (p1, _, p3) = row_pieces_exec(line);
    let name = trim_vec(&p1);
    let empty: Vec<char> = Vec::new();
    let t = match p3 {
        Some(t) => trim_vec(&t),
        None => trim_vec(&empty),
    };
    if !is_frame_host(&name) {
        return false;
    }
    let ts = string_of(&t);
    match frame_host_alias(ts.as_str()) {
        Some(a) => str_eq_lit(a, "Calculator"),
        None => false,
    }
}

fn str_eq_lit(a: &str, b: &str) -> (r: bool)
    ensures
        r == (a@ == b@),
{
    crate::text::str_eq(a, b)
}

fn candidate_exec(line: &Vec<char>, idx: usize, has_calc: bool) -> (r: Option<ProcessCandidate>)
    ensures
        match (r, candidate_of(line@, idx as int, has_calc)) {
            (Some(c), Some(v)) => candidate_view(c) == v,
            (None, None) => true,
            _ => false,
        },
{
    let (p1, p2, p3) = row_pieces_exec(line);
    let name = trim_vec(&p1);
    let pid = match p2 {
        Some(s) => parse_i32_vec(&trim_vec(&s)),
        None => None,
    };
    let title = match p3 {
        Some(t) => trim_vec(&t),
        None => trim_vec(&name),
    };
    if name.len() == 0 {
        return None;
    }
    if has_calc && is_packaged_calc_stub(&name, &title) {
        return None;
    }
    let name_s = string_of(&name);
    let title_s = string_of(&title);
    if is_denied_app(name_s.as_str()) || is_denied_app(title_s.as_str()) {
        return None;
    }
    if is_frame_host(&name) {
        match frame_host_alias(title_s.as_str()) {
            Some(alias) => Some(ProcessCandidate { listed: owned(alias), title: title_s, name: name_s, pid, index: idx }),
            None => None,
        }
    } else {
        let listed = string_of(&name);
        Some(ProcessCandidate { listed, title: title_s, name: name_s, pid, index: idx })
    }
}

/// The windows a process listing names, before the allowlist decision.
pub fn process_candidates(raw: &str) -> (r: Vec<ProcessCandidate>)
    ensures
        candidate_views(r@) == process_candidates_of(raw@),
{
    let ls = crate::text::lines_vec(&chars_of(raw));
    let ghost lv = crate::text::views(ls@);
    let mut has_calc = false;
    let mut i: usize = 0;
    while i < ls.len()
        invariant
            i <= ls@.len(),
            lv == crate::text::views(ls@),
            has_calc == exists|j: int| 0 <= j < i && calc_window_row(#[trigger] lv[j]),
        decreases ls.len() - i,
    {
        let hit = calc_window_row_exec(&ls[i]);
        assert(lv[i as int] == ls@[i as int]@);
        if hit {
            has_calc = true;
        }
        i = i + 1;
    }
    assert(has_calc == has_calc_window(lv));
    let mut out: Vec<ProcessCandidate> = Vec::new();
    let mut k: usize = 0;
    while k < ls.len()
        invariant
            k <= ls@.len(),
            lv == crate::text::views(ls@),
            has_calc == has_calc_window(lv),
            candidate_views(out@) == candidates_upto(lv, k as int, has_calc),
        decreases ls.len() - k,
    {
        let c = candidate_exec(&ls[k], k, has_calc);
        assert(lv[k as int] == ls@[k as int]@);
        match c {
            Some(c) => {
                out.push(c);
                assert(candidate_views(out@) =~= candidates_upto(lv, k + 1, has_calc));
            },
            None => {
                assert(candidate_views(out@) =~= candidates_upto(lv, k + 1, has_calc));
            },
        }
        k = k + 1;
    }
    out
}

/// What a listed window looks like as an app target: (id, title, executable, pid,
/// allowed, no browser profile).
pub type TargetView = (Seq<char>, Seq<char>, Seq<char>, Option<i32>, bool, bool);

pub open spec fn target_view(t: AppTarget) -> TargetView {
    (t.id@, t.title@, t.bundle_or_exe@, t.pid, t.allowed, t.browser_profile is None)
}

pub open spec fn target_views(v: Seq<AppTarget>) -> Seq<TargetView> {
    v.map_values(|t: AppTarget| target_view(t))
}

/// `win:<listed, spaces as underscores>:<pid or row index>`, titled by the row title or
/// else the process name.
pub open spec fn candidate_target(c: CandidateView) -> TargetView {
    let n = match c.3 {
        Some(p) => p,
        None => c.4 as i32,
    };
    (
        "win:"@ + replace_char(c.0, ' ', "_"@) + ":"@ + decimal(n as int),
        if c.1.len() == 0 { c.2 } else { c.1 },
        c.0,
        c.3,
        true,
        true,
    )
}

/// The targets of the candidates the decisions keep, in order.
pub open spec fn kept_targets(c: Seq<CandidateView>, d: Seq<bool>) -> Seq<TargetView>
    decreases c.len(),
{
    if c.len() == 0 || d.len() == 0 {
        Seq::empty()
    } else {
        let before = kept_targets(c.drop_last(), d.drop_last());
        if d.last() { before.push(candidate_target(c.last())) } else { before }
    }
}

/// `keep` is what the `allowed` callback decided for this window: the listed name is
/// asked first, and the title only when the name is refused.
pub open spec fn allow_decision<F: Fn(&str) -> bool>(allowed: F, c: CandidateView, keep: bool) -> bool {
    ||| keep && exists|s: &str| s@ == c.0 && #[trigger] allowed.ensures((s,), true)
    ||| exists|s1: &str, s2: &str|
        s1@ == c.0 && s2@ == c.1 && #[trigger] allowed.ensures((s1,), false) && #[trigger] allowed.ensures(
            (s2,),
            keep,
        )
}

fn candidate_to_target(c: &ProcessCandidate) -> (t: AppTarget)
    ensures
        target_view(t) == candidate_target(candidate_view(*c)),
{
    let mut under: Vec<char> = Vec::new();
    under.push('_');
    proof {
        reveal_strlit("_");
        assert(under@ =~= "_"@);
    }
    let listed = string_of(&replace_char_vec(&chars_of(c.listed.as_str()), ' ', &under));
    let n: i32 = match c.pid {
        Some(p) => p,
        None => c.index as i32,
    };
    let id = cat(cat(cat(owned("win:"), listed.as_str()), ":"), i32_string(n).as_str());
    let title = if c.title.as_str().unicode_len() == 0 { owned(c.name.as_str()) } else { owned(c.title.as_str()) };
    AppTarget {
        id,
        title,
        bundle_or_exe: owned(c.listed.as_str()),
        pid: c.pid,
        allowed: true,
        browser_profile: None,
    }
}

/// Parse `name\tpid\ttitle` (or `|`-separated) lines from the Windows process listing:
/// every candidate window the `allowed` callback accepts (by listed name, else by title).
pub fn parse_process_list_lines<F: Fn(&str) -> bool>(raw: &str, allowed: F) -> (r: Vec<AppTarget>)
    requires
        forall|s: &str| #[trigger] allowed.requires((s,)),
    ensures
        exists|d: Seq<bool>|
            d.len() == process_candidates_of(raw@).len() && (forall|i: int|
                0 <= i < d.len() ==> allow_decision(allowed, process_candidates_of(raw@)[i], #[trigger] d[i]))
                && target_views(r@) == kept_targets(process_candidates_of(raw@), d),
{
    let cands = process_candidates(raw);
    let ghost cv = candidate_views(cands@);
    let ghost mut d: Seq<bool> = Seq::empty();
    let mut out: Vec<AppTarget> = Vec::new();
    let mut k: usize = 0;
    while k < cands.len()
        invariant
            k <= cands@.len(),
            cv == candidate_views(cands@),
            forall|s: &str| #[trigger] allowed.requires((s,)),
            d.len() == k,
            forall|i: int| 0 <= i < k ==> allow_decision(allowed, cv[i], #[trigger] d[i]),
            target_views(out@) == kept_targets(cv.take(k as int), d),
        decreases cands.len() - k,
    {
        let c = &cands[k];
        assert(cv[k as int] == candidate_view(*c));
        let by_name = allowed(c.listed.as_str());
        let keep = if by_name {
            true
        } else {
            allowed(c.title.as_str())
        };
        let ghost d_old = d;
        proof {
            d = d.push(keep);
            assert(d[k as int] == keep);
            assert(allow_decision(allowed, cv[k as int], keep));
            assert(cv.take(k + 1).drop_last() =~= cv.take(k as int));
            assert(cv.take(k + 1).last() == cv[k as int]);
            assert(d.drop_last() =~= d_old);
            assert(forall|i: int| 0 <= i < k ==> d[i] == d_old[i]);
        }
        if keep {
            let t = candidate_to_target(c);
            out.push(t);
            assert(target_views(out@) =~= kept_targets(cv.take(k + 1), d));
        } else {
            assert(target_views(out@) =~= kept_targets(cv.take(k + 1), d));
        }
        k = k + 1;
    }
    assert(cv.take(k as int) =~= cv);
    out
}


pub const POWERSHELL_UTF8_PRELUDE: &'static str = r#"
try {
  $utf8 = New-Object System.Text.UTF8Encoding $false
  $OutputEncoding = $utf8
  [Console]::OutputEncoding = $utf8
} catch {}
"#;
pub const HWND_RESOLVE_PS: &'static str = r#"
if (-not ("VcuHwndResolve" -as [type])) {
Add-Type -TypeDefinition @"
using System;
using System.Runtime.InteropServices;
public static class VcuHwndResolve {
  public delegate bool EnumProc(IntPtr hWnd, IntPtr lParam);
  [DllImport("user32.dll")] public static extern bool EnumWindows(EnumProc lpEnumFunc, IntPtr lParam);
  [DllImport("user32.dll")] public static extern uint GetWindowThreadProcessId(IntPtr hWnd, out uint pid);
  [DllImport("user32.dll")] public static extern bool IsWindowVisible(IntPtr hWnd);
  [DllImport("kernel32.dll")] public static extern bool AttachConsole(uint dwProcessId);
  [DllImport("kernel32.dll")] public static extern bool FreeConsole();
  [DllImport("kernel32.dll")] public static extern IntPtr GetConsoleWindow();
  static IntPtr found = IntPtr.Zero;
  static uint want = 0;
  public static bool VisibleOwnedCb(IntPtr h, IntPtr l) {
    uint wpid = 0;
    GetWindowThreadProcessId(h, out wpid);
    if (wpid == want && IsWindowVisible(h)) { found = h; return false; }
    return true;
  }
  public static bool OwnedCb(IntPtr h, IntPtr l) {
    uint wpid = 0;
    GetWindowThreadProcessId(h, out wpid);
    if (wpid == want) { found = h; return false; }
    return true;
  }
  public static IntPtr ForPid(uint pid) {
    found = IntPtr.Zero;
    want = pid;
    EnumWindows(new EnumProc(VisibleOwnedCb), IntPtr.Zero);
    if (found != IntPtr.Zero) return found;
    EnumWindows(new EnumProc(OwnedCb), IntPtr.Zero);
    if (found != IntPtr.Zero) return found;
    FreeConsole();
    if (AttachConsole(pid)) {
      found = GetConsoleWindow();
      FreeConsole();
      if (found != IntPtr.Zero) return found;
    }
    return IntPtr.Zero;
  }
}
"@
}
function Get-VcuHwnd([int]$ProcessId) {
  $p = Get-Process -Id $ProcessId -ErrorAction SilentlyContinue
  if ($null -eq $p) { return [IntPtr]::Zero }
  try { $p.Refresh() } catch {}
  if ($p.MainWindowHandle -ne [IntPtr]::Zero) { return [IntPtr]$p.MainWindowHandle }
  $owned = [VcuHwndResolve]::ForPid([uint32]$ProcessId)
  if ($owned -ne [IntPtr]::Zero) { return $owned }
  # Store Notepad: Start-Process notepad.exe often returns a windowless stub.
  # Use the unique visible Notepad window. Do not guess when several are open.
  $name = [string]$p.ProcessName
  if ($name -eq "Notepad") {
    $wins = @(Get-Process -Name Notepad -ErrorAction SilentlyContinue | Where-Object {
      $_.Id -ne $ProcessId -and $_.MainWindowHandle -ne 0
    })
    $near = @()
    foreach ($w in $wins) {
      try {
        $delta = [Math]::Abs(($w.StartTime - $p.StartTime).TotalSeconds)
        if ($delta -lt 8) { $near += $w }
      } catch {}
    }
    if ($near.Count -eq 1) { return [IntPtr]$near[0].MainWindowHandle }
    if ($wins.Count -eq 1) { return [IntPtr]$wins[0].MainWindowHandle }
  }
  return [IntPtr]::Zero
}
function Wait-VcuHwnd([int]$ProcessId) {
  $hwnd = [IntPtr]::Zero
  for ($t = 0; $t -lt 15; $t++) {
    $hwnd = Get-VcuHwnd $ProcessId
    if ($hwnd -ne [IntPtr]::Zero) { return $hwnd }
    Start-Sleep -Milliseconds 200
  }
  return $hwnd
}
"#;
pub const SET_VALUE_BODY: &'static str = r#"
Add-Type -AssemblyName UIAutomationClient | Out-Null
if (-not ("Vcu.VcuSetValue070" -as [type])) {
  $sig = @'
[DllImport("user32.dll", CharSet=CharSet.Unicode)]
public static extern IntPtr SendMessage(IntPtr hWnd, uint Msg, IntPtr wParam, string lParam);
[DllImport("user32.dll", CharSet=CharSet.Unicode, EntryPoint="SendMessage")]
public static extern int SendMessageGetText(IntPtr hWnd, uint Msg, int wParam, System.Text.StringBuilder lParam);
[DllImport("user32.dll", CharSet=CharSet.Unicode)]
public static extern int GetClassName(IntPtr hWnd, System.Text.StringBuilder lpClassName, int nMaxCount);
'@
  Add-Type -MemberDefinition $sig -Name VcuSetValue070 -Namespace Vcu | Out-Null
}
if (-not ("Vcu.VcuPaste140" -as [type])) {
  $sig = @'
[DllImport("user32.dll")]
public static extern IntPtr SendMessage(IntPtr hWnd, uint Msg, IntPtr wParam, IntPtr lParam);
'@
  Add-Type -MemberDefinition $sig -Name VcuPaste140 -Namespace Vcu | Out-Null
}
function Get-VcuClass([IntPtr]$h) {
  if ($h -eq [IntPtr]::Zero) { return '' }
  $sb = New-Object System.Text.StringBuilder 256
  [void][Vcu.VcuSetValue070]::GetClassName($h, $sb, 256)
  return $sb.ToString()
}
function Test-VcuConsoleClass([string]$cls) {
  return $cls -eq 'ConsoleWindowClass' -or $cls -eq 'CASCADIA_HOSTING_WINDOW_CLASS' -or $cls -eq 'PseudoConsoleWindow'
}
function Test-VcuEditClass([string]$cls) {
  if ([string]::IsNullOrWhiteSpace($cls)) { return $false }
  $c = $cls.ToLowerInvariant()
  if ($c -eq 'edit') { return $true }
  if ($c.Contains('windowsforms10.edit')) { return $true }
  if ($c.Contains('richedit')) { return $true }
  if ($c.Contains('textbox')) { return $true }
  return $false
}
function Test-VcuComboClass([string]$cls) {
  if ([string]::IsNullOrWhiteSpace($cls)) { return $false }
  return $cls.ToLowerInvariant().Contains('combobox')
}
function Select-VcuCombo([IntPtr]$h, [string]$expect) {
  $count = [int][Vcu.VcuPaste140]::SendMessage($h, 0x0146, [IntPtr]::Zero, [IntPtr]::Zero)
  for ($i = 0; $i -lt $count; $i++) {
    $sb = New-Object System.Text.StringBuilder 512
    [void][Vcu.VcuSetValue070]::SendMessageGetText($h, 0x0148, $i, $sb)
    if ($sb.ToString() -eq $expect) {
      [void][Vcu.VcuPaste140]::SendMessage($h, 0x014E, [IntPtr]$i, [IntPtr]::Zero)
      'ok:combo_select'
      exit 0
    }
  }
}
function Test-VcuListClass([string]$cls) {
  if ([string]::IsNullOrWhiteSpace($cls)) { return $false }
  return $cls.ToLowerInvariant().Contains('listbox')
}
function Test-VcuTrackClass([string]$cls) {
  if ([string]::IsNullOrWhiteSpace($cls)) { return $false }
  return $cls.ToLowerInvariant().Contains('trackbar')
}
function Select-VcuTrack([IntPtr]$h, [string]$expect) {
  $pos = 0
  if (-not [int]::TryParse($expect, [ref]$pos)) { return }
  $min = [int][Vcu.VcuPaste140]::SendMessage($h, 0x0401, [IntPtr]::Zero, [IntPtr]::Zero)
  $max = [int][Vcu.VcuPaste140]::SendMessage($h, 0x0402, [IntPtr]::Zero, [IntPtr]::Zero)
  if ($pos -lt $min -or $pos -gt $max) { return }
  [void][Vcu.VcuPaste140]::SendMessage($h, 0x0405, [IntPtr]1, [IntPtr]$pos)
  $thumb = [IntPtr](($pos -shl 16) -bor 4)
  [void][Vcu.VcuPaste140]::SendMessage($h, 0x2114, $thumb, $h)
  [void][Vcu.VcuPaste140]::SendMessage($h, 0x2114, [IntPtr]8, $h)
  $got = [int][Vcu.VcuPaste140]::SendMessage($h, 0x0400, [IntPtr]::Zero, [IntPtr]::Zero)
  if ($got -eq $pos) {
    'ok:track_select'
    exit 0
  }
}
function Select-VcuList([IntPtr]$h, [string]$expect) {
  $count = [int][Vcu.VcuPaste140]::SendMessage($h, 0x018B, [IntPtr]::Zero, [IntPtr]::Zero)
  for ($i = 0; $i -lt $count; $i++) {
    $sb = New-Object System.Text.StringBuilder 512
    [void][Vcu.VcuSetValue070]::SendMessageGetText($h, 0x0189, $i, $sb)
    if ($sb.ToString() -eq $expect) {
      [void][Vcu.VcuPaste140]::SendMessage($h, 0x0186, [IntPtr]$i, [IntPtr]::Zero)
      $wp = [IntPtr](1 -shl 16)
      [void][Vcu.VcuPaste140]::SendMessage($h, 0x2111, $wp, $h)
      'ok:list_select'
      exit 0
    }
  }
}
function Test-VcuTabClass([string]$cls) {
  if ([string]::IsNullOrWhiteSpace($cls)) { return $false }
  $c = $cls.ToLowerInvariant()
  return $c.Contains("tabcontrol") -or $c.Contains("systabcontrol32")
}
function Select-VcuTab([IntPtr]$h, [string]$expect, [int]$ownerPid) {
  if (-not ("Vcu.VcuTabSelect" -as [type])) {
    $sig = @"
[DllImport("oleacc.dll")] public static extern int AccessibleObjectFromWindow(IntPtr hwnd, uint id, ref Guid iid, [MarshalAs(UnmanagedType.IUnknown)] out object acc);
[DllImport("user32.dll")] public static extern IntPtr SendMessage(IntPtr hWnd, int msg, IntPtr wParam, IntPtr lParam);
[DllImport("kernel32.dll")] public static extern IntPtr OpenProcess(uint access, bool inherit, int pid);
[DllImport("kernel32.dll")] public static extern IntPtr VirtualAllocEx(IntPtr proc, IntPtr addr, UIntPtr size, uint type, uint protect);
[DllImport("kernel32.dll")] public static extern bool WriteProcessMemory(IntPtr proc, IntPtr addr, IntPtr buffer, UIntPtr size, out UIntPtr written);
[DllImport("kernel32.dll")] public static extern bool VirtualFreeEx(IntPtr proc, IntPtr addr, UIntPtr size, uint type);
[DllImport("kernel32.dll")] public static extern bool CloseHandle(IntPtr handle);
[StructLayout(LayoutKind.Sequential)] public struct NMHDR { public IntPtr hwndFrom; public IntPtr idFrom; public int code; }
public static bool Notify(int pid, IntPtr hwnd) {
  IntPtr proc = OpenProcess(0x0438, false, pid);
  if (proc == IntPtr.Zero) return false;
  int size = System.Runtime.InteropServices.Marshal.SizeOf(typeof(NMHDR));
  IntPtr remote = VirtualAllocEx(proc, IntPtr.Zero, (UIntPtr)size, 0x1000, 0x04);
  if (remote == IntPtr.Zero) { CloseHandle(proc); return false; }
  NMHDR hdr = new NMHDR();
  hdr.hwndFrom = hwnd;
  hdr.code = -551;
  IntPtr local = System.Runtime.InteropServices.Marshal.AllocHGlobal(size);
  System.Runtime.InteropServices.Marshal.StructureToPtr(hdr, local, false);
  UIntPtr wrote;
  bool ok = WriteProcessMemory(proc, remote, local, (UIntPtr)size, out wrote);
  System.Runtime.InteropServices.Marshal.FreeHGlobal(local);
  if (ok) SendMessage(hwnd, 0x204E, IntPtr.Zero, remote);
  VirtualFreeEx(proc, remote, UIntPtr.Zero, 0x8000);
  CloseHandle(proc);
  return ok;
}
"@
    Add-Type -MemberDefinition $sig -Name VcuTabSelect -Namespace Vcu | Out-Null
  }
  $iid = [Guid]"618736e0-3c3d-11cf-810c-00aa00389b71"
  $acc = $null
  $hr = [Vcu.VcuTabSelect]::AccessibleObjectFromWindow($h, [uint32]4294967292, [ref]$iid, [ref]$acc)
  if ($hr -ne 0 -or $null -eq $acc) { return }
  $count = [int]$acc.GetType().InvokeMember("accChildCount", [Reflection.BindingFlags]::GetProperty, $null, $acc, $null)
  $child = 0
  $tabs = 0
  for ($i = 1; $i -le $count; $i++) {
    $role = [int]$acc.GetType().InvokeMember("accRole", [Reflection.BindingFlags]::GetProperty, $null, $acc, @($i))
    if ($role -ne 37) { continue }
    $tabs++
    $name = [string]$acc.GetType().InvokeMember("accName", [Reflection.BindingFlags]::GetProperty, $null, $acc, @($i))
    if ($name -eq $expect) { $child = $i; break }
  }
  if ($tabs -eq 0) { return }
  if ($child -eq 0) { 'error:tab-name'; exit 0 }
  [void]$acc.GetType().InvokeMember("accSelect", [Reflection.BindingFlags]::InvokeMethod, $null, $acc, @(2, $child))
  $cur = [int][Vcu.VcuPaste140]::SendMessage($h, 0x130B, [IntPtr]::Zero, [IntPtr]::Zero)
  if ($cur -ne ($child - 1)) {
    [void][Vcu.VcuPaste140]::SendMessage($h, 0x130C, [IntPtr]($child - 1), [IntPtr]::Zero)
    $cur = [int][Vcu.VcuPaste140]::SendMessage($h, 0x130B, [IntPtr]::Zero, [IntPtr]::Zero)
  }
  if ($cur -ne ($child - 1)) { 'error:tab-index'; exit 0 }
  [void][Vcu.VcuTabSelect]::Notify($ownerPid, $h)
  "ok:tab_select"
  exit 0
}
function Set-VcuElement($el, [string]$expect) {
  try {
    $vp = $el.GetCurrentPattern([System.Windows.Automation.ValuePattern]::Pattern)
    $vp.SetValue($expect)
    if (([string]$vp.Current.Value) -eq $expect) {
      'ok:uia_set_value'
      exit 0
    }
  } catch {}
  $nh = [int64]$el.Current.NativeWindowHandle
  if ($nh -eq 0) { return }
  $cls = Get-VcuClass ([IntPtr]$nh)
  $uiaCls = [string]$el.Current.ClassName
  if (Test-VcuComboClass $cls) {
    Select-VcuCombo ([IntPtr]$nh) $expect
    return
  }
  if (Test-VcuListClass $cls) {
    Select-VcuList ([IntPtr]$nh) $expect
    return
  }
  if (Test-VcuTrackClass $cls) {
    Select-VcuTrack ([IntPtr]$nh) $expect
    return
  }
  Select-VcuTab ([IntPtr]$nh) $expect $targetPid
  if ((Test-VcuTabClass $cls) -or (Test-VcuTabClass $uiaCls)) { return }
  if (Test-VcuConsoleClass $cls) { return }
  if (-not (Test-VcuEditClass $cls)) { return }
  [void][Vcu.VcuSetValue070]::SendMessage([IntPtr]$nh, 12, [IntPtr]::Zero, $expect)
  $tb = New-Object System.Text.StringBuilder 1024
  # GetWindowText across processes returns only captions, so an edit looks empty.
  [void][Vcu.VcuSetValue070]::SendMessageGetText([IntPtr]$nh, 13, 1024, $tb)
  if ($tb.ToString() -eq $expect) {
    'ok:wm_settext'
    exit 0
  }
}
$targetPid = @@PID@@
$want = @@WANT@@
$val = '@@VAL@@'
$allowPaste = @@ALLOW@@
$hwnd = Wait-VcuHwnd $targetPid
if ($hwnd -eq [IntPtr]::Zero) { 'not-found'; exit 0 }
$win = [System.Windows.Automation.AutomationElement]::FromHandle([IntPtr]$hwnd)
if ($null -eq $win) { 'not-found'; exit 0 }
$q = New-Object System.Collections.Queue
$q.Enqueue($win)
$i = 0
$target = $null
while ($q.Count -gt 0) {
  $el = $q.Dequeue()
  $i++
  if ($i -eq $want) { $target = $el; break }
  $kids = $el.FindAll([System.Windows.Automation.TreeScope]::Children, [System.Windows.Automation.Condition]::TrueCondition)
  foreach ($k in $kids) { $q.Enqueue($k) }
}
if ($null -eq $target) { 'not-found'; exit 0 }
Set-VcuElement $target $val
$dq = New-Object System.Collections.Queue
$dq.Enqueue($target)
$seen = 0
while ($dq.Count -gt 0 -and $seen -lt 40) {
  $el = $dq.Dequeue()
  $seen++
  if ($seen -gt 1) { Set-VcuElement $el $val }
  $kids = $el.FindAll([System.Windows.Automation.TreeScope]::Children, [System.Windows.Automation.Condition]::TrueCondition)
  foreach ($k in $kids) { $dq.Enqueue($k) }
}
$mainCls = Get-VcuClass $hwnd
$elHwnd = [IntPtr]::Zero
$enh = [int64]$target.Current.NativeWindowHandle
if ($enh -ne 0) { $elHwnd = [IntPtr]$enh }
$elCls = Get-VcuClass $elHwnd
if ($allowPaste -eq 1 -and ((Test-VcuConsoleClass $mainCls) -or (Test-VcuConsoleClass $elCls))) {
  $pasteHwnd = $hwnd
  if (Test-VcuConsoleClass $elCls) { $pasteHwnd = $elHwnd }
  Set-Clipboard -Value $val
  Start-Sleep -Milliseconds 80
  [void][Vcu.VcuPaste140]::SendMessage($pasteHwnd, 0x0302, [IntPtr]::Zero, [IntPtr]::Zero)
  'ok:clipboard_paste'
  exit 0
}
'error:value-not-set'
"#;
pub const SCROLL_BODY: &'static str = r#"
Add-Type -AssemblyName UIAutomationClient | Out-Null
if (-not ("Vcu.VcuScroll180" -as [type])) {
  $sig = @'
[DllImport("user32.dll")]
public static extern IntPtr SendMessage(IntPtr hWnd, uint Msg, IntPtr wParam, IntPtr lParam);
'@
  Add-Type -MemberDefinition $sig -Name VcuScroll180 -Namespace Vcu | Out-Null
}
$targetPid = @@PID@@
$want = @@WANT@@
$dy = @@DY@@
$hwnd = Wait-VcuHwnd $targetPid
if ($hwnd -eq [IntPtr]::Zero) { 'not-found'; exit 0 }
$win = [System.Windows.Automation.AutomationElement]::FromHandle([IntPtr]$hwnd)
if ($null -eq $win) { 'not-found'; exit 0 }
function Try-VcuScrollPattern($el, $delta) {
  try {
    $sp = $el.GetCurrentPattern([System.Windows.Automation.ScrollPattern]::Pattern)
    $before = -1.0
    try { $before = [double]$sp.Current.VerticalScrollPercent } catch {}
    $vert = if ($delta -ge 0) { [System.Windows.Automation.ScrollAmount]::LargeIncrement } else { [System.Windows.Automation.ScrollAmount]::LargeDecrement }
    $sp.Scroll([System.Windows.Automation.ScrollAmount]::NoAmount, $vert)
    $after = $before
    try { $after = [double]$sp.Current.VerticalScrollPercent } catch {}
    if ($before -lt 0 -or $after -ne $before) {
      'ok:uia_scroll'
      exit 0
    }
  } catch {}
}
function Try-VcuListScroll($el, $delta) {
  $cls = ''
  try { $cls = [string]$el.Current.ClassName } catch {}
  if ($cls -notlike '*LISTBOX*') { return }
  $nh = [int64]$el.Current.NativeWindowHandle
  if ($nh -eq 0) { return }
  $top0 = [int][Vcu.VcuScroll180]::SendMessage([IntPtr]$nh, 0x018E, [IntPtr]::Zero, [IntPtr]::Zero)
  $sb = if ($delta -ge 0) { 3 } else { 2 }
  [void][Vcu.VcuScroll180]::SendMessage([IntPtr]$nh, 0x0115, [IntPtr]$sb, [IntPtr]::Zero)
  $top1 = [int][Vcu.VcuScroll180]::SendMessage([IntPtr]$nh, 0x018E, [IntPtr]::Zero, [IntPtr]::Zero)
  if ($top1 -ne $top0) {
    'ok:wm_vscroll'
    exit 0
  }
}
function Walk-VcuScroll($root, $delta) {
  $q = New-Object System.Collections.Queue
  $q.Enqueue($root)
  $n = 0
  while ($q.Count -gt 0 -and $n -lt 80) {
    $el = $q.Dequeue()
    $n++
    Try-VcuScrollPattern $el $delta
    Try-VcuListScroll $el $delta
    $kids = $el.FindAll([System.Windows.Automation.TreeScope]::Children, [System.Windows.Automation.Condition]::TrueCondition)
    foreach ($k in $kids) { $q.Enqueue($k) }
  }
}
$root = $win
if ($want -gt 0) {
  $q = New-Object System.Collections.Queue
  $q.Enqueue($win)
  $i = 0
  while ($q.Count -gt 0) {
    $el = $q.Dequeue()
    $i++
    if ($i -eq $want) { $root = $el; break }
    $kids = $el.FindAll([System.Windows.Automation.TreeScope]::Children, [System.Windows.Automation.Condition]::TrueCondition)
    foreach ($k in $kids) { $q.Enqueue($k) }
  }
  if ($i -ne $want) { 'not-found'; exit 0 }
}
Walk-VcuScroll $root $dy
$sb = if ($dy -ge 0) { 3 } else { 2 }
[void][Vcu.VcuScroll180]::SendMessage([IntPtr]$hwnd, 0x0115, [IntPtr]$sb, [IntPtr]::Zero)
'ok:wm_vscroll'
"#;

pub const UIA_TREE_0: &'static str = r#"
Add-Type -AssemblyName UIAutomationClient | Out-Null
$targetPid = "#;
pub const UIA_TREE_1: &'static str = r#"
$max = "#;
pub const UIA_TREE_2: &'static str = r#"
$hwnd = Wait-VcuHwnd $targetPid
if ($hwnd -eq [IntPtr]::Zero) { 'MISSING'; exit 0 }
$win = [System.Windows.Automation.AutomationElement]::FromHandle([IntPtr]$hwnd)
if ($null -eq $win) {
  $proc = Get-Process -Id $targetPid -ErrorAction SilentlyContinue
  $nm = if ($null -ne $proc) { $proc.ProcessName } else { 'window' }
  'e1|ControlType.Window|{0}|0,0,0,0|ConsoleWindowClass' -f $nm
  exit 0
}
$q = New-Object System.Collections.Queue
$q.Enqueue($win)
$n = 0
while ($q.Count -gt 0 -and $n -lt $max) {
  $el = $q.Dequeue()
  $n++
  $ct = $el.Current.ControlType.ProgrammaticName
  $nm = ($el.Current.Name -replace '[\r\n\|]', ' ')
  if ([string]::IsNullOrWhiteSpace($nm)) { $nm = ($el.Current.AutomationId -replace '[\r\n\|]', ' ') }
  if ([string]::IsNullOrWhiteSpace($nm)) {
    try {
      $leg = $el.GetCurrentPattern([System.Windows.Automation.LegacyIAccessiblePattern]::Pattern)
      $nm = ($leg.Current.Name -replace '[\r\n\|]', ' ')
    } catch {}
  }
  $cls = ($el.Current.ClassName -replace '[\r\n\|]', ' ')
  $val = ''
  try {
    $vp = $el.GetCurrentPattern([System.Windows.Automation.ValuePattern]::Pattern)
    $val = [string]$vp.Current.Value
  } catch {}
  if ([string]::IsNullOrWhiteSpace($val)) {
    $nh = [int64]$el.Current.NativeWindowHandle
    if ($nh -ne 0) {
      if (-not ("Vcu.VcuGetText190" -as [type])) {
        $sig = @'
[DllImport("user32.dll", CharSet=CharSet.Unicode)]
public static extern int GetWindowText(IntPtr hWnd, System.Text.StringBuilder lpString, int nMaxCount);
'@
        Add-Type -MemberDefinition $sig -Name VcuGetText190 -Namespace Vcu | Out-Null
      }
      $sb = New-Object System.Text.StringBuilder 512
      [void][Vcu.VcuGetText190]::GetWindowText([IntPtr]$nh, $sb, 512)
      $val = $sb.ToString()
    }
  }
  try {
    $nhAcc = [int64]$el.Current.NativeWindowHandle
    if ($nhAcc -ne 0) {
      if (-not ("Vcu.VcuAccState" -as [type])) {
        Add-Type -MemberDefinition '[DllImport("oleacc.dll")] public static extern int AccessibleObjectFromWindow(IntPtr hwnd, uint id, ref Guid iid, [MarshalAs(UnmanagedType.IUnknown)] out object acc);' -Name VcuAccState -Namespace Vcu | Out-Null
      }
      $iid = [Guid]"618736e0-3c3d-11cf-810c-00aa00389b71"
      $acc = $null
      $hr = [Vcu.VcuAccState]::AccessibleObjectFromWindow([IntPtr]$nhAcc, [uint32]4294967292, [ref]$iid, [ref]$acc)
      if ($hr -eq 0 -and $null -ne $acc) {
        $roleId = [int]$acc.GetType().InvokeMember("accRole", [Reflection.BindingFlags]::GetProperty, $null, $acc, @(0))
        $state = [int]$acc.GetType().InvokeMember("accState", [Reflection.BindingFlags]::GetProperty, $null, $acc, @(0))
        if ($roleId -eq 44 -or $roleId -eq 45) {
          if (($state -band 16) -ne 0) { $mark = 'toggle-on' } else { $mark = 'toggle-off' }
          if ([string]::IsNullOrWhiteSpace($val)) { $val = $mark } else { $val = "$val $mark" }
        }
      }
    }
  } catch {}
  if ($cls -match 'LISTBOX') {
    $nhList = [int64]$el.Current.NativeWindowHandle
    if ($nhList -ne 0) {
      if (-not ("Vcu.VcuListRead" -as [type])) {
        Add-Type -MemberDefinition '[DllImport("user32.dll")] public static extern IntPtr SendMessage(IntPtr hWnd, uint msg, IntPtr wParam, IntPtr lParam); [DllImport("user32.dll", CharSet=CharSet.Unicode, EntryPoint="SendMessage")] public static extern int SendMessageGetText(IntPtr hWnd, uint msg, int wParam, System.Text.StringBuilder lParam);' -Name VcuListRead -Namespace Vcu | Out-Null
      }
      $cur = [int][Vcu.VcuListRead]::SendMessage([IntPtr]$nhList, 0x0188, [IntPtr]::Zero, [IntPtr]::Zero)
      if ($cur -ge 0) {
        $sbList = New-Object System.Text.StringBuilder 512
        [void][Vcu.VcuListRead]::SendMessageGetText([IntPtr]$nhList, 0x0189, $cur, $sbList)
        $picked = $sbList.ToString()
        if ($picked) {
          if ([string]::IsNullOrWhiteSpace($val)) { $val = $picked } else { $val = "$val $picked" }
        }
      }
    }
  }
  if ($cls -match 'TRACKBAR') {
    $nhTrack = [int64]$el.Current.NativeWindowHandle
    if ($nhTrack -ne 0) {
      if (-not ("Vcu.VcuTrackRead" -as [type])) {
        Add-Type -MemberDefinition '[DllImport("user32.dll")] public static extern IntPtr SendMessage(IntPtr hWnd, uint msg, IntPtr wParam, IntPtr lParam);' -Name VcuTrackRead -Namespace Vcu | Out-Null
      }
      $pos = [int][Vcu.VcuTrackRead]::SendMessage([IntPtr]$nhTrack, 0x0400, [IntPtr]::Zero, [IntPtr]::Zero)
      $mark = "track=$pos"
      if ([string]::IsNullOrWhiteSpace($val)) { $val = $mark } else { $val = "$val $mark" }
    }
  }
  if ($cls -match 'TabControl') {
    $nhTab = [int64]$el.Current.NativeWindowHandle
    if ($nhTab -ne 0) {
      if (-not ("Vcu.VcuTabRead" -as [type])) {
        Add-Type -MemberDefinition '[DllImport("oleacc.dll")] public static extern int AccessibleObjectFromWindow(IntPtr hwnd, uint id, ref Guid iid, [MarshalAs(UnmanagedType.IUnknown)] out object acc);' -Name VcuTabRead -Namespace Vcu | Out-Null
      }
      $iidTab = [Guid]"618736e0-3c3d-11cf-810c-00aa00389b71"
      $accTab = $null
      $hrTab = [Vcu.VcuTabRead]::AccessibleObjectFromWindow([IntPtr]$nhTab, [uint32]4294967292, [ref]$iidTab, [ref]$accTab)
      if ($hrTab -eq 0 -and $null -ne $accTab) {
        $tabCount = [int]$accTab.GetType().InvokeMember("accChildCount", [Reflection.BindingFlags]::GetProperty, $null, $accTab, $null)
        for ($ti = 1; $ti -le $tabCount; $ti++) {
          $roleTab = [int]$accTab.GetType().InvokeMember("accRole", [Reflection.BindingFlags]::GetProperty, $null, $accTab, @($ti))
          if ($roleTab -ne 37) { continue }
          $stateTab = [int]$accTab.GetType().InvokeMember("accState", [Reflection.BindingFlags]::GetProperty, $null, $accTab, @($ti))
          if (($stateTab -band 2) -eq 0) { continue }
          $nameTab = [string]$accTab.GetType().InvokeMember("accName", [Reflection.BindingFlags]::GetProperty, $null, $accTab, @($ti))
          if ($nameTab) {
            $markTab = "tab=$nameTab"
            if ([string]::IsNullOrWhiteSpace($val)) { $val = $markTab } else { $val = "$val $markTab" }
          }
          break
        }
      }
    }
  }

  $val = ($val -replace '[\r\n\|]', ' ')
  if ($val.Length -gt 200) { $val = $val.Substring(0, 200) }
  $r = $el.Current.BoundingRectangle
  '{0}|{1}|{2}|{3},{4},{5},{6}|{7}|{8}' -f ("e$n"), $ct, $nm, [int]$r.X, [int]$r.Y, [int]$r.Width, [int]$r.Height, $cls, $val
  if ($n -ge $max) { break }
  $kids = $el.FindAll([System.Windows.Automation.TreeScope]::Children, [System.Windows.Automation.Condition]::TrueCondition)
  foreach ($k in $kids) { $q.Enqueue($k) }
}
"#;

/// The text `uia_tree_body` produces.
pub open spec fn uia_tree_body_text(pid: i32, max: i32) -> Seq<char> {
    UIA_TREE_0@
        + decimal(pid as int)
        + UIA_TREE_1@
        + decimal(max as int)
        + UIA_TREE_2@
}

fn uia_tree_body(pid: i32, max: i32) -> (r: String)
    ensures
        r@ == uia_tree_body_text(pid, max),
{
    let pid_s = i32_string(pid);
    let max_s = i32_string(max);
    let mut s = String::new();
    s = cat(s, UIA_TREE_0);
    s = cat(s, pid_s.as_str());
    s = cat(s, UIA_TREE_1);
    s = cat(s, max_s.as_str());
    s = cat(s, UIA_TREE_2);
    s
}

pub const UIA_INVOKE_0: &'static str = r#"
Add-Type -AssemblyName UIAutomationClient | Out-Null
$targetPid = "#;
pub const UIA_INVOKE_1: &'static str = r#"
$want = "#;
pub const UIA_INVOKE_2: &'static str = r#"
$hwnd = Wait-VcuHwnd $targetPid
if ($hwnd -eq [IntPtr]::Zero) { 'not-found'; exit 0 }
$win = [System.Windows.Automation.AutomationElement]::FromHandle([IntPtr]$hwnd)
if ($null -eq $win) { 'not-found'; exit 0 }
$q = New-Object System.Collections.Queue
$q.Enqueue($win)
$i = 0
while ($q.Count -gt 0) {
  $el = $q.Dequeue()
  $i++
  if ($i -eq $want) {
    $pat = [System.Windows.Automation.InvokePattern]::Pattern
    try {
      $inv = $el.GetCurrentPattern($pat)
      $inv.Invoke()
      'ok:uia_invoke'
      exit 0
    } catch {}
    try {
      $leg = $el.GetCurrentPattern([System.Windows.Automation.LegacyIAccessiblePattern]::Pattern)
      $leg.DoDefaultAction()
      'ok:legacy_invoke'
      exit 0
    } catch {}
    try {
      $sel = $el.GetCurrentPattern([System.Windows.Automation.SelectionItemPattern]::Pattern)
      $sel.Select()
      'ok:selection_item'
      exit 0
    } catch {}
    try {
      $exp = $el.GetCurrentPattern([System.Windows.Automation.ExpandCollapsePattern]::Pattern)
      $exp.Expand()
      'ok:expand_collapse'
      exit 0
    } catch {}
    $inner = $el.FindAll([System.Windows.Automation.TreeScope]::Children, [System.Windows.Automation.Condition]::TrueCondition)
    foreach ($k in $inner) {
      try {
        $ktog = $k.GetCurrentPattern([System.Windows.Automation.TogglePattern]::Pattern)
        $ktog.Toggle()
        'ok:toggle'
        exit 0
      } catch {}
      try {
        $kinv = $k.GetCurrentPattern([System.Windows.Automation.InvokePattern]::Pattern)
        $kinv.Invoke()
        'ok:uia_invoke'
        exit 0
      } catch {}
      try {
        $kexp = $k.GetCurrentPattern([System.Windows.Automation.ExpandCollapsePattern]::Pattern)
        $kexp.Expand()
        'ok:expand_collapse'
        exit 0
      } catch {}
    }
    if (-not ("Vcu.VcuInvoke100" -as [type])) {
      $sig = @'
[DllImport("user32.dll")]
public static extern IntPtr SendMessage(IntPtr hWnd, uint Msg, IntPtr wParam, IntPtr lParam);
'@
      Add-Type -MemberDefinition $sig -Name VcuInvoke100 -Namespace Vcu | Out-Null
    }
    $nh = [int64]$el.Current.NativeWindowHandle
    if ($nh -ne 0) {
      [void][Vcu.VcuInvoke100]::SendMessage([IntPtr]$nh, 0x00F5, [IntPtr]::Zero, [IntPtr]::Zero)
      'ok:bm_click'
      exit 0
    }
    'error:no-invoke-pattern'
    exit 0
  }
  $kids = $el.FindAll([System.Windows.Automation.TreeScope]::Children, [System.Windows.Automation.Condition]::TrueCondition)
  foreach ($k in $kids) { $q.Enqueue($k) }
}
'not-found'
"#;

/// The text `uia_invoke_body` produces.
pub open spec fn uia_invoke_body_text(pid: i32, n: i32) -> Seq<char> {
    UIA_INVOKE_0@
        + decimal(pid as int)
        + UIA_INVOKE_1@
        + decimal(n as int)
        + UIA_INVOKE_2@
}

fn uia_invoke_body(pid: i32, n: i32) -> (r: String)
    ensures
        r@ == uia_invoke_body_text(pid, n),
{
    let pid_s = i32_string(pid);
    let n_s = i32_string(n);
    let mut s = String::new();
    s = cat(s, UIA_INVOKE_0);
    s = cat(s, pid_s.as_str());
    s = cat(s, UIA_INVOKE_1);
    s = cat(s, n_s.as_str());
    s = cat(s, UIA_INVOKE_2);
    s
}

pub const UIA_CAPTURE_0: &'static str = r#"
Add-Type -AssemblyName System.Drawing | Out-Null
Add-Type -TypeDefinition @"
using System;
using System.Runtime.InteropServices;
public static class VcuPrintWindow {
  [DllImport("user32.dll")] public static extern bool PrintWindow(IntPtr hWnd, IntPtr hdcBlt, uint nFlags);
  [DllImport("user32.dll")] public static extern bool GetWindowRect(IntPtr hWnd, out RECT lpRect);
  [StructLayout(LayoutKind.Sequential)] public struct RECT { public int Left; public int Top; public int Right; public int Bottom; }
}
"@
$hwnd = Wait-VcuHwnd "#;
pub const UIA_CAPTURE_1: &'static str = r#"
if ($hwnd -eq [IntPtr]::Zero) { 'MISSING'; exit 0 }
$rect = New-Object VcuPrintWindow+RECT
[void][VcuPrintWindow]::GetWindowRect($hwnd, [ref]$rect)
$w = [Math]::Max(1, $rect.Right - $rect.Left)
$h = [Math]::Max(1, $rect.Bottom - $rect.Top)
$bmp = New-Object System.Drawing.Bitmap $w, $h
$g = [System.Drawing.Graphics]::FromImage($bmp)
$hdc = $g.GetHdc()
[void][VcuPrintWindow]::PrintWindow($hwnd, $hdc, 2)
$g.ReleaseHdc($hdc)
$g.Dispose()
# PrintWindow can return an empty black bitmap for some WinForms windows.
# Only then copy this window rectangle, not the whole desktop. Occluders can appear.
$blank = $true
foreach ($pt in @(@([int]($w/2), [int]($h/2)), @(2, 2), @([Math]::Max(0, $w-3), [Math]::Max(0, $h-3)))) {
  $px = $bmp.GetPixel($pt[0], $pt[1])
  if ($px.R -gt 40 -or $px.G -gt 40 -or $px.B -gt 40) { $blank = $false; break }
}
if ($blank) {
  try {
    $g2 = [System.Drawing.Graphics]::FromImage($bmp)
    $g2.CopyFromScreen($rect.Left, $rect.Top, 0, 0, (New-Object System.Drawing.Size $w, $h))
    $g2.Dispose()
  } catch {}
}
$ms = New-Object System.IO.MemoryStream
$bmp.Save($ms, [System.Drawing.Imaging.ImageFormat]::Png)
$bmp.Dispose()
$b64 = [Convert]::ToBase64String($ms.ToArray())
$ms.Dispose()
'FRAME|{0},{1},{2},{3}' -f $rect.Left, $rect.Top, $w, $h
$b64
"#;

/// The text `uia_capture_body` produces.
pub open spec fn uia_capture_body_text(pid: i32) -> Seq<char> {
    UIA_CAPTURE_0@
        + decimal(pid as int)
        + UIA_CAPTURE_1@
}

fn uia_capture_body(pid: i32) -> (r: String)
    ensures
        r@ == uia_capture_body_text(pid),
{
    let pid_s = i32_string(pid);
    let mut s = String::new();
    s = cat(s, UIA_CAPTURE_0);
    s = cat(s, pid_s.as_str());
    s = cat(s, UIA_CAPTURE_1);
    s
}

pub const EXPLORER_OPEN_0: &'static str = r#"
$path = '"#;
pub const EXPLORER_OPEN_1: &'static str = r#"'
if (-not (Test-Path -LiteralPath $path -PathType Container)) { 'error:not-dir'; exit 1 }
Start-Process -FilePath explorer.exe -ArgumentList $path | Out-Null
'ok:explorer_open'
"#;

/// The text `explorer_open_body` produces.
pub open spec fn explorer_open_text(p: Seq<char>) -> Seq<char> {
    EXPLORER_OPEN_0@
        + p
        + EXPLORER_OPEN_1@
}

fn explorer_open_body(p: &str) -> (r: String)
    ensures
        r@ == explorer_open_text(p@),
{
    let mut s = String::new();
    s = cat(s, EXPLORER_OPEN_0);
    s = cat(s, p);
    s = cat(s, EXPLORER_OPEN_1);
    s
}

pub const EXPLORER_REVEAL_0: &'static str = r#"
$path = '"#;
pub const EXPLORER_REVEAL_1: &'static str = r#"'
if (-not (Test-Path -LiteralPath $path)) { 'error:missing'; exit 1 }
Start-Process -FilePath explorer.exe -ArgumentList ('/select,' + $path) | Out-Null
'ok:explorer_reveal'
"#;

/// The text `explorer_reveal_body` produces.
pub open spec fn explorer_reveal_text(p: Seq<char>) -> Seq<char> {
    EXPLORER_REVEAL_0@
        + p
        + EXPLORER_REVEAL_1@
}

fn explorer_reveal_body(p: &str) -> (r: String)
    ensures
        r@ == explorer_reveal_text(p@),
{
    let mut s = String::new();
    s = cat(s, EXPLORER_REVEAL_0);
    s = cat(s, p);
    s = cat(s, EXPLORER_REVEAL_1);
    s
}

// ---------------------------------------------------------------------------
// Base64 of captured pixels
// ---------------------------------------------------------------------------

/// The value of a standard-alphabet Base64 digit.
pub open spec fn b64_val(c: u8) -> Option<u8> {
    if 65 <= c <= 90 {
        Some((c - 65) as u8)
    } else if 97 <= c <= 122 {
        Some((c - 97 + 26) as u8)
    } else if 48 <= c <= 57 {
        Some((c - 48 + 52) as u8)
    } else if c == 43 {
        Some(62u8)
    } else if c == 47 {
        Some(63u8)
    } else {
        None
    }
}

/// An ASCII whitespace byte (space, tab, LF, FF, CR).
pub open spec fn ascii_ws(c: u8) -> bool {
    c == 32 || c == 9 || c == 10 || c == 12 || c == 13
}

pub open spec fn b64_or_pad(c: u8) -> Option<u8> {
    if c == 61 { Some(0u8) } else { b64_val(c) }
}

/// The bytes one group of four digits yields; `=` in the third or fourth place drops the
/// byte that place completes.
pub open spec fn b64_group(g: Seq<u8>) -> Option<Seq<u8>> {
    match (b64_val(g[0]), b64_val(g[1]), b64_or_pad(g[2]), b64_or_pad(g[3])) {
        (Some(a), Some(b), Some(c), Some(d)) => Some(
            seq![(a * 4 + b / 16) as u8] + (if g[2] != 61 {
                seq![((b % 16) * 16 + c / 4) as u8]
            } else {
                Seq::empty()
            }) + (if g[3] != 61 {
                seq![((c % 4) * 64 + d) as u8]
            } else {
                Seq::empty()
            }),
        ),
        _ => None,
    }
}

/// Groups of four decoded front to back; any bad group spoils the whole.
pub open spec fn b64_groups(bytes: Seq<u8>) -> Option<Seq<u8>>
    decreases bytes.len(),
{
    if bytes.len() < 4 {
        Some(Seq::empty())
    } else {
        match (b64_group(bytes.take(4)), b64_groups(bytes.skip(4))) {
            (Some(x), Some(y)) => Some(x + y),
            _ => None,
        }
    }
}

/// Lenient Base64 as PowerShell prints it: whitespace ignored, the rest must come in
/// groups of four.
pub open spec fn lenient_base64_of(s: Seq<u8>) -> Option<Seq<u8>> {
    let bytes = s.filter(|c: u8| !ascii_ws(c));
    if bytes.len() % 4 != 0 {
        None
    } else {
        b64_groups(bytes)
    }
}

fn b64_val_exec(c: u8) -> (r: Option<u8>)
    ensures
        r == b64_val(c),
        r matches Some(v) ==> v < 64,
{
    if 65u8 <= c && c <= 90u8 {
        Some(c - 65u8)
    } else if 97u8 <= c && c <= 122u8 {
        Some(c - 97u8 + 26)
    } else if 48u8 <= c && c <= 57u8 {
        Some(c - 48u8 + 52)
    } else if c == 43u8 {
        Some(62)
    } else if c == 47u8 {
        Some(63)
    } else {
        None
    }
}

fn is_ascii_ws(c: u8) -> (r: bool)
    ensures
        r == ascii_ws(c),
{
    c == 32u8 || c == 9u8 || c == 10u8 || c == 12u8 || c == 13u8
}

fn decode_group(g0: u8, g1: u8, g2: u8, g3: u8) -> (r: Option<Vec<u8>>)
    ensures
        match (r, b64_group(seq![g0, g1, g2, g3])) {
            (Some(v), Some(w)) => v@ == w,
            (None, None) => true,
            _ => false,
        },
{
    let ghost g = seq![g0, g1, g2, g3];
    let a = match b64_val_exec(g0) {
        Some(v) => v,
        None => return None,
    };
    let b = match b64_val_exec(g1) {
        Some(v) => v,
        None => return None,
    };
    let c: u8 = if g2 == 61u8 {
        0
    } else {
        match b64_val_exec(g2) {
            Some(v) => v,
            None => return None,
        }
    };
    let d: u8 = if g3 == 61u8 {
        0
    } else {
        match b64_val_exec(g3) {
            Some(v) => v,
            None => return None,
        }
    };
    let mut out: Vec<u8> = Vec::new();
    let x = (a << 2) | (b >> 4);
    assert(x == (a * 4 + b / 16) as u8) by (bit_vector)
        requires
            a < 64,
            b < 64,
            x == (a << 2) | (b >> 4),
    ;
    out.push(x);
    if g2 != 61u8 {
        let y = (b << 4) | (c >> 2);
        assert(y == ((b % 16) * 16 + c / 4) as u8) by (bit_vector)
            requires
                b < 64,
                c < 64,
                y == (b << 4) | (c >> 2),
        ;
        out.push(y);
    }
    if g3 != 61u8 {
        let z = (c << 6) | d;
        assert(z == ((c % 4) * 64 + d) as u8) by (bit_vector)
            requires
                c < 64,
                d < 64,
                z == (c << 6) | d,
        ;
        out.push(z);
    }
    assert(out@ =~= b64_group(g)->0);
    Some(out)
}

fn decode_groups(bytes: &Vec<u8>) -> (r: Option<Vec<u8>>)
    requires
        bytes@.len() % 4 == 0,
    ensures
        match (r, b64_groups(bytes@)) {
            (Some(v), Some(w)) => v@ == w,
            (None, None) => true,
            _ => false,
        },
{
    let mut out: Vec<u8> = Vec::new();
    let mut k: usize = 0;
    proof {
        assert(bytes@.skip(0) =~= bytes@);
        if let Some(y) = b64_groups(bytes@) {
            assert(out@ + y =~= y);
        }
    }
    while k < bytes.len()
        invariant
            k <= bytes@.len(),
            k % 4 == 0,
            bytes@.len() % 4 == 0,
            b64_groups(bytes@) == (match b64_groups(bytes@.skip(k as int)) {
                Some(y) => Some(out@ + y),
                None => None,
            }),
        decreases bytes.len() - k,
    {
        let ghost rest = bytes@.skip(k as int);
        let ghost g = rest.take(4);
        assert(bytes@.len() - k >= 4);
        assert(rest.len() >= 4);
        assert(rest.skip(4) =~= bytes@.skip(k + 4));
        assert(g =~= seq![bytes@[k as int], bytes@[k + 1], bytes@[k + 2], bytes@[k + 3]]);
        let ghost before = out@;
        match decode_group(bytes[k], bytes[k + 1], bytes[k + 2], bytes[k + 3]) {
            Some(mut part) => {
                out.append(&mut part);
                proof {
                    match b64_groups(bytes@.skip(k + 4)) {
                        Some(y) => {
                            assert(before + b64_group(g)->0 + y =~= before + (b64_group(g)->0 + y));
                        },
                        None => {},
                    }
                }
            },
            None => {
                return None;
            },
        }
        k = k + 4;
    }
    assert(bytes@.skip(k as int).len() == 0);
    assert(out@ + Seq::<u8>::empty() =~= out@);
    Some(out)
}

/// Decodes PowerShell's Base64 of a captured PNG (see `lenient_base64_of`).
pub fn base64_decode(s: &str) -> (r: Option<Vec<u8>>)
    ensures
        match (r, lenient_base64_of(s.spec_bytes())) {
            (Some(v), Some(w)) => v@ == w,
            (None, None) => true,
            _ => false,
        },
{
    let raw = s.as_bytes();
    let ghost keep = |c: u8| !ascii_ws(c);
    let mut bytes: Vec<u8> = Vec::new();
    let mut i: usize = 0;
    while i < raw.len()
        invariant
            i <= raw@.len(),
            raw@ == s.spec_bytes(),
            keep == (|c: u8| !ascii_ws(c)),
            bytes@ == raw@.take(i as int).filter(keep),
        decreases raw.len() - i,
    {
        let c = raw[i];
        proof {
            assert(raw@.take(i + 1) =~= raw@.take(i as int).push(c));
            raw@.take(i as int).lemma_filter_push(c, keep);
        }
        if !is_ascii_ws(c) {
            bytes.push(c);
        }
        i = i + 1;
    }
    assert(raw@.take(i as int) =~= raw@);
    if bytes.len() % 4 != 0 {
        return None;
    }
    assert(lenient_base64_of(s.spec_bytes()) == b64_groups(bytes@));
    decode_groups(&bytes)
}

/// The PowerShell prelude that resolves a process's window handle (console windows
/// are owned by conhost, so `MainWindowHandle` alone is often zero).
pub fn hwnd_resolve_ps() -> (r: &'static str)
    ensures
        r@ == HWND_RESOLVE_PS@,
{
    HWND_RESOLVE_PS
}

// ---------------------------------------------------------------------------
// Planning adapter operations
// ---------------------------------------------------------------------------

/// The process name in a `win:<name>:<pid>` id (underscores read as spaces); any other
/// id is taken whole.
pub open spec fn win_process_name(id: Seq<char>) -> Seq<char> {
    if begins(id, "win:"@) {
        replace_char(cut(id.skip(4), ':').0, '_', " "@)
    } else {
        id
    }
}

pub fn process_name_from_win_id(id: &str) -> (r: String)
    ensures
        r@ == win_process_name(id@),
{
    let v = chars_of(id);
    if !crate::text::begins_str(&v, "win:") {
        return owned(id);
    }
    proof {
        reveal_strlit("win:");
    }
    let mut rest: Vec<char> = Vec::new();
    let mut k: usize = 4;
    while k < v.len()
        invariant
            4 <= k <= v@.len(),
            rest@ == v@.subrange(4, k as int),
        decreases v.len() - k,
    {
        rest.push(v[k]);
        k = k + 1;
        assert(rest@ =~= v@.subrange(4, k as int));
    }
    assert(rest@ =~= v@.skip(4));
    let (head, _) = cut_vec(&rest, ':');
    let mut sp: Vec<char> = Vec::new();
    sp.push(' ');
    proof {
        reveal_strlit(" ");
        assert(sp@ =~= " "@);
    }
    string_of(&replace_char_vec(&head, '_', &sp))
}

/// An operation the Windows adapter runs through PowerShell.
#[derive(Debug, Clone)]
pub enum WinOp {
    Snapshot,
    Invoke { eref: String },
    SetValue { eref: String, value: String },
    OpenPath { path: String },
    RevealPath { path: String },
    Scroll { eref: Option<String>, dy: i32 },
    Capture,
}

/// A path character Explorer scripts refuse.
pub open spec fn forbidden_path_char(c: char) -> bool {
    c == '"' || c == '`' || c == '\n' || c == '\r' || c == '{' || c == '}'
}

pub open spec fn has_forbidden_path_char(path: Seq<char>) -> bool {
    exists|i: int| 0 <= i < path.len() && forbidden_path_char(#[trigger] path[i])
}

pub open spec fn has_line_break(v: Seq<char>) -> bool {
    exists|i: int| 0 <= i < v.len() && (#[trigger] v[i] == '\n' || v[i] == '\r')
}

pub const NOT_IN_ALLOWLIST_TAIL: &'static str = "' not in app allowlist";
pub const DENIED_POLICY_TAIL: &'static str = "' is denied by VCU policy";
pub const INVOKE_DENIED_OFF_WINDOWS: &'static str = "Windows app invoke is denied by default safety policy (no SendInput / no cursor)";
pub const CONSOLE_NEWLINE_REFUSED: &'static str = "Windows console type refuses newline/Return so commands are not executed";

/// The PowerShell an operation on window `id` runs, or why it is refused. Denied apps
/// (WeChat) are refused first; off Windows nothing runs (a capture is simply absent);
/// a console never receives a line break; explorer paths must not carry quoting or
/// line-break characters; everything else needs an allowlisted process and a pid.
pub open spec fn win_plan_of(allowlist: Seq<Seq<char>>, id: Seq<char>, op: WinOp, on_windows: bool) -> Result<
    Option<Seq<char>>,
    (ErrorCode, Seq<char>),
> {
    let name = win_process_name(id);
    let denied = Err((ErrorCode::AppDenied, "app '"@ + name + DENIED_POLICY_TAIL@));
    let not_allowed = Err((ErrorCode::FocusPolicyViolation, "process '"@ + name + NOT_IN_ALLOWLIST_TAIL@));
    let pid = parse_i32(last_piece(id, ':'));
    match op {
        WinOp::Snapshot => if !on_windows {
            Err((ErrorCode::NotImplemented, "Windows snapshot unavailable on this host for "@ + id))
        } else if !allowed_by(allowlist, name) {
            not_allowed
        } else {
            match pid {
                None => Err((ErrorCode::InvalidInput, "Windows snapshot requires win:name:pid"@)),
                Some(p) => Ok(Some(HWND_RESOLVE_PS@ + uia_tree_body_text(p, 80))),
            }
        },
        WinOp::Invoke { eref } => if is_denied_name(name) {
            denied
        } else if !on_windows {
            Err((ErrorCode::OsCursorDenied, INVOKE_DENIED_OFF_WINDOWS@))
        } else if !allowed_by(allowlist, name) {
            not_allowed
        } else {
            match pid {
                None => Err((ErrorCode::InvalidInput, "Windows invoke requires win:name:pid"@)),
                Some(p) => Ok(Some(HWND_RESOLVE_PS@ + uia_invoke_body_text(p, ref_number(eref@)))),
            }
        },
        WinOp::SetValue { eref, value } => if is_denied_name(name) {
            denied
        } else if console_app(name) && has_line_break(value@) {
            Err((ErrorCode::FocusPolicyViolation, CONSOLE_NEWLINE_REFUSED@))
        } else if !on_windows {
            Err((ErrorCode::NotImplemented, "Windows set_value only runs on Windows hosts"@))
        } else if !allowed_by(allowlist, name) {
            not_allowed
        } else {
            match pid {
                None => Err((ErrorCode::InvalidInput, "Windows set_value requires win:name:pid"@)),
                Some(p) => Ok(Some(set_value_text(p, eref@, value@, console_app(name)))),
            }
        },
        WinOp::OpenPath { path } => if is_denied_name(name) {
            denied
        } else if !on_windows {
            Err((ErrorCode::NotImplemented, "Windows open_path only runs on Windows hosts"@))
        } else if has_forbidden_path_char(path@) {
            Err((ErrorCode::InvalidInput, "Windows open_path path has forbidden characters"@))
        } else {
            Ok(Some(explorer_open_text(ps_quoted(path@))))
        },
        WinOp::RevealPath { path } => if is_denied_name(name) {
            denied
        } else if !on_windows {
            Err((ErrorCode::NotImplemented, "Windows reveal_path only runs on Windows hosts"@))
        } else if has_forbidden_path_char(path@) {
            Err((ErrorCode::InvalidInput, "Windows reveal_path path has forbidden characters"@))
        } else {
            Ok(Some(explorer_reveal_text(ps_quoted(path@))))
        },
        WinOp::Scroll { eref, dy } => if is_denied_name(name) {
            denied
        } else if !on_windows {
            Err((ErrorCode::NotImplemented, "Windows scroll only runs on Windows hosts"@))
        } else if !allowed_by(allowlist, name) {
            not_allowed
        } else {
            match pid {
                None => Err((ErrorCode::InvalidInput, "Windows scroll requires win:name:pid"@)),
                Some(p) => Ok(Some(scroll_text(p, match eref {
                    Some(e) => e@,
                    None => Seq::empty(),
                }, dy))),
            }
        },
        WinOp::Capture => if !on_windows {
            Ok(None)
        } else if is_denied_name(name) {
            denied
        } else if !allowed_by(allowlist, name) {
            not_allowed
        } else {
            match pid {
                None => Err((ErrorCode::InvalidInput, "Windows screenshot requires win:name:pid"@)),
                Some(p) => Ok(Some(HWND_RESOLVE_PS@ + uia_capture_body_text(p))),
            }
        },
    }
}

fn any_char(v: &Vec<char>, bad: &str) -> (r: bool)
    ensures
        r == exists|i: int| 0 <= i < v@.len() && bad@.contains(#[trigger] v@[i]),
{
    let b = chars_of(bad);
    let mut i: usize = 0;
    while i < v.len()
        invariant
            i <= v@.len(),
            b@ == bad@,
            forall|j: int| 0 <= j < i ==> !bad@.contains(#[trigger] v@[j]),
        decreases v.len() - i,
    {
        let mut k: usize = 0;
        while k < b.len()
            invariant
                k <= b@.len(),
                i < v@.len(),
                b@ == bad@,
                forall|t: int| 0 <= t < k ==> b@[t] != v@[i as int],
            decreases b.len() - k,
        {
            if b[k] == v[i] {
                assert(bad@.contains(v@[i as int]));
                return true;
            }
            k = k + 1;
        }
        i = i + 1;
    }
    false
}

fn err_msg(code: ErrorCode, m: String) -> (r: Result<Option<String>, VcuError>)
    ensures
        r matches Err(e) && e.code == code && e.message@ == m@,
{
    Err(VcuError::coded(code, m))
}

impl WindowsAppBackend {
    pub fn platform(&self) -> (r: &'static str)
        ensures
            r@ == "windows"@,
    {
        "windows"
    }

    /// Focus is never stolen, and explicit focus is gated.
    pub fn focus_window(&mut self, id: &str, allow_focus_steal: bool) -> (r: Result<(), VcuError>)
        ensures
            r matches Err(e) && e.code == (if allow_focus_steal {
                ErrorCode::NotImplemented
            } else {
                ErrorCode::FocusPolicyViolation
            }),
            final(self).allowlist@ == old(self).allowlist@,
    {
        if !allow_focus_steal {
            return Err(VcuError::coded(ErrorCode::FocusPolicyViolation, owned("refusing to steal app focus on Windows")));
        }
        Err(VcuError::coded(ErrorCode::NotImplemented, owned("explicit Windows focus is gated")))
    }

    /// The PowerShell an operation runs (see `win_plan_of`); `on_windows` says whether
    /// this host is Windows.
    pub fn plan_operation(&self, id: &str, op: &WinOp, on_windows: bool) -> (r: Result<Option<String>, VcuError>)
        ensures
            match (r, win_plan_of(view_strings(self.allowlist@), id@, *op, on_windows)) {
                (Ok(a), Ok(b)) => match (a, b) {
                    (Some(x), Some(y)) => x@ == y,
                    (None, None) => true,
                    _ => false,
                },
                (Err(e), Err((code, msg))) => e.code == code && e.message@ == msg,
                _ => false,
            },
    {
        let name = process_name_from_win_id(id);
        let pid = pid_from_win_id(id);
        let denied_msg = cat(cat(owned("app '"), name.as_str()), DENIED_POLICY_TAIL);
        let not_allowed_msg = cat(cat(owned("process '"), name.as_str()), NOT_IN_ALLOWLIST_TAIL);
        match op {
            WinOp::Snapshot => {
                if !on_windows {
                    return err_msg(ErrorCode::NotImplemented, cat(owned("Windows snapshot unavailable on this host for "), id));
                }
                if !self.allowed(name.as_str()) {
                    return err_msg(ErrorCode::FocusPolicyViolation, not_allowed_msg);
                }
                match pid {
                    None => err_msg(ErrorCode::InvalidInput, owned("Windows snapshot requires win:name:pid")),
                    Some(p) => Ok(Some(uia_tree_script(p, 80))),
                }
            },
            WinOp::Invoke { eref } => {
                if is_denied_app(name.as_str()) {
                    return err_msg(ErrorCode::AppDenied, denied_msg);
                }
                if !on_windows {
                    return err_msg(ErrorCode::OsCursorDenied, owned(INVOKE_DENIED_OFF_WINDOWS));
                }
                if !self.allowed(name.as_str()) {
                    return err_msg(ErrorCode::FocusPolicyViolation, not_allowed_msg);
                }
                match pid {
                    None => err_msg(ErrorCode::InvalidInput, owned("Windows invoke requires win:name:pid")),
                    Some(p) => Ok(Some(uia_invoke_script(p, eref.as_str()))),
                }
            },
            WinOp::SetValue { eref, value } => {
                if is_denied_app(name.as_str()) {
                    return err_msg(ErrorCode::AppDenied, denied_msg);
                }
                let console = windows_console_app(name.as_str());
                let breaks = any_char(&chars_of(value.as_str()), "\n\r");
                proof {
                    reveal_strlit("\n\r");
                    assert(breaks == has_line_break(value@)) by {
                        if has_line_break(value@) {
                            let i = choose|i: int| 0 <= i < value@.len() && (#[trigger] value@[i] == '\n' || value@[i] == '\r');
                            assert("\n\r"@[0] == '\n');
                            assert("\n\r"@[1] == '\r');
                            assert("\n\r"@.contains(value@[i]));
                        }
                    }
                }
                if console && breaks {
                    return err_msg(ErrorCode::FocusPolicyViolation, owned(CONSOLE_NEWLINE_REFUSED));
                }
                if !on_windows {
                    return err_msg(ErrorCode::NotImplemented, owned("Windows set_value only runs on Windows hosts"));
                }
                if !self.allowed(name.as_str()) {
                    return err_msg(ErrorCode::FocusPolicyViolation, not_allowed_msg);
                }
                match pid {
                    None => err_msg(ErrorCode::InvalidInput, owned("Windows set_value requires win:name:pid")),
                    Some(p) => Ok(Some(uia_set_value_script_for(p, eref.as_str(), value.as_str(), console))),
                }
            },
            WinOp::OpenPath { path } => {
                if is_denied_app(name.as_str()) {
                    return err_msg(ErrorCode::AppDenied, denied_msg);
                }
                if !on_windows {
                    return err_msg(ErrorCode::NotImplemented, owned("Windows open_path only runs on Windows hosts"));
                }
                if forbidden_in(path.as_str()) {
                    return err_msg(ErrorCode::InvalidInput, owned("Windows open_path path has forbidden characters"));
                }
                Ok(Some(explorer_open_script(path.as_str())))
            },
            WinOp::RevealPath { path } => {
                if is_denied_app(name.as_str()) {
                    return err_msg(ErrorCode::AppDenied, denied_msg);
                }
                if !on_windows {
                    return err_msg(ErrorCode::NotImplemented, owned("Windows reveal_path only runs on Windows hosts"));
                }
                if forbidden_in(path.as_str()) {
                    return err_msg(ErrorCode::InvalidInput, owned("Windows reveal_path path has forbidden characters"));
                }
                Ok(Some(explorer_reveal_script(path.as_str())))
            },
            WinOp::Scroll { eref, dy } => {
                if is_denied_app(name.as_str()) {
                    return err_msg(ErrorCode::AppDenied, denied_msg);
                }
                if !on_windows {
                    return err_msg(ErrorCode::NotImplemented, owned("Windows scroll only runs on Windows hosts"));
                }
                if !self.allowed(name.as_str()) {
                    return err_msg(ErrorCode::FocusPolicyViolation, not_allowed_msg);
                }
                match pid {
                    None => err_msg(ErrorCode::InvalidInput, owned("Windows scroll requires win:name:pid")),
                    Some(p) => {
                        let e = match eref {
                            Some(e) => e.as_str(),
                            None => "",
                        };
                        proof {
                            reveal_strlit("");
                        }
                        Ok(Some(uia_scroll_script(p, e, *dy)))
                    },
                }
            },
            WinOp::Capture => {
                if !on_windows {
                    return Ok(None);
                }
                if is_denied_app(name.as_str()) {
                    return err_msg(ErrorCode::AppDenied, denied_msg);
                }
                if !self.allowed(name.as_str()) {
                    return err_msg(ErrorCode::FocusPolicyViolation, not_allowed_msg);
                }
                match pid {
                    None => err_msg(ErrorCode::InvalidInput, owned("Windows screenshot requires win:name:pid")),
                    Some(p) => Ok(Some(uia_capture_script(p))),
                }
            },
        }
    }
}

fn forbidden_in(path: &str) -> (r: bool)
    ensures
        r == has_forbidden_path_char(path@),
{
    let found = any_char(&chars_of(path), "\"`\n\r{}");
    proof {
        reveal_strlit("\"`\n\r{}");
        let bad = "\"`\n\r{}"@;
        assert(bad.len() == 6);
        assert(forall|c: char| bad.contains(c) <==> forbidden_path_char(c)) by {
            assert forall|c: char| bad.contains(c) implies forbidden_path_char(c) by {
                let k = choose|k: int| 0 <= k < bad.len() && bad[k] == c;
            }
            assert forall|c: char| forbidden_path_char(c) implies bad.contains(c) by {
                if c == '"' { assert(bad[0] == c); }
                if c == '`' { assert(bad[1] == c); }
                if c == '\n' { assert(bad[2] == c); }
                if c == '\r' { assert(bad[3] == c); }
                if c == '{' { assert(bad[4] == c); }
                if c == '}' { assert(bad[5] == c); }
            }
        }
    }
    found
}

/// What an Explorer script's output means: it must report `marker`, else the step
/// failed (with the output as detail).
pub fn explorer_outcome(out: &str, marker: &str, failure: &str) -> (r: Result<(), VcuError>)
    ensures
        r is Ok <==> seq_has(out@, marker@),
        r matches Err(e) ==> e.code == ErrorCode::ActionFailed && e.message@ == failure@ && (e.detail matches Some(d)
            && d@ == out@),
{
    if has_str(&chars_of(out), marker) {
        Ok(())
    } else {
        Err(VcuError::with_detail(ErrorCode::ActionFailed, owned(failure), owned(out)))
    }
}

/// No PowerShell is ever planned against a denied app (WeChat), and a console window
/// never receives a line break (which would run a command).
pub proof fn lemma_plans_spare_denied_and_consoles(allowlist: Seq<Seq<char>>, id: Seq<char>, op: WinOp, on_windows: bool)
    ensures
        (win_plan_of(allowlist, id, op, on_windows) matches Ok(Some(_))) ==> !is_denied_name(win_process_name(id)),
        (op matches WinOp::SetValue { value, .. } && console_app(win_process_name(id)) && has_line_break(value@))
            ==> win_plan_of(allowlist, id, op, on_windows) is Err,
        !on_windows ==> !(win_plan_of(allowlist, id, op, on_windows) matches Ok(Some(_))),
{
}

// ---------------------------------------------------------------------------
// UI Automation replies
// ---------------------------------------------------------------------------

/// An element line of the UIA tree script, `ref|role|name|frame|class|value`: the frame
/// stays text (four numbers the host reads), the class is folded into the role.
#[derive(Debug, Clone)]
pub struct UiaElement {
    pub ref_id: String,
    pub role: String,
    pub name: String,
    pub frame: String,
    pub value: Option<String>,
}

pub type UiaV = (Seq<char>, Seq<char>, Seq<char>, Seq<char>, Option<Seq<char>>);

pub open spec fn uia_v(e: UiaElement) -> UiaV {
    (e.ref_id@, e.role@, e.name@, e.frame@, match e.value {
        Some(v) => Some(v@),
        None => None,
    })
}

pub open spec fn uia_views(v: Seq<UiaElement>) -> Seq<UiaV> {
    v.map_values(|e: UiaElement| uia_v(e))
}

/// Edit-like window classes, whose class the role carries (`role/class`).
pub open spec fn edit_class(class: Seq<char>) -> bool {
    let cl = lower(class);
    cl == "edit"@ || cl == "document"@ || seq_has(cl, "richedit"@) || seq_has(cl, "windowsforms10.edit"@)
}

/// One line of the tree reply: skipped when blank, `MISSING`, or without a ref.
pub open spec fn uia_line_of(line: Seq<char>) -> Option<UiaV> {
    let t = trim(line);
    if t.len() == 0 || t == "MISSING"@ {
        None
    } else {
        let p = split_all(t, '|');
        let eref = trim(piece_or_empty(p, 0));
        let role = trim(piece_or_empty(p, 1));
        let class = trim(piece_or_empty(p, 4));
        let value = if p.len() > 5 && trim(p[5]).len() > 0 { Some(trim(p[5])) } else { None };
        if eref.len() == 0 {
            None
        } else {
            Some((
                eref,
                if class.len() > 0 && edit_class(class) { role + "/"@ + class } else { role },
                trim(piece_or_empty(p, 2)),
                trim(piece_or_empty(p, 3)),
                value,
            ))
        }
    }
}

pub open spec fn uia_elements_of(ls: Seq<Seq<char>>) -> Seq<UiaV>
    decreases ls.len(),
{
    if ls.len() == 0 {
        Seq::empty()
    } else {
        let rest = uia_elements_of(ls.drop_last());
        match uia_line_of(ls.last()) {
            Some(e) => rest.push(e),
            None => rest,
        }
    }
}

fn piece(p: &Vec<Vec<char>>, k: usize) -> (r: Vec<char>)
    ensures
        r@ == trim(piece_or_empty(views(p@), k as int)),
{
    if k < p.len() {
        trim_vec(&p[k])
    } else {
        let e: Vec<char> = Vec::new();
        let t = trim_vec(&e);
        assert(e@ =~= Seq::<char>::empty());
        t
    }
}

fn uia_line(line: &Vec<char>) -> (r: Option<UiaElement>)
    ensures
        match (r, uia_line_of(line@)) {
            (Some(e), Some(v)) => uia_v(e) == v,
            (None, None) => true,
            _ => false,
        },
{
    let t = trim_vec(line);
    proof {
        reveal_strlit("MISSING");
    }
    if t.len() == 0 || same_str(&t, "MISSING") {
        return None;
    }
    let p = split_vec(&t, '|');
    let eref = piece(&p, 0);
    if eref.len() == 0 {
        return None;
    }
    let role = piece(&p, 1);
    let name = piece(&p, 2);
    let frame = piece(&p, 3);
    let class = piece(&p, 4);
    let value = if p.len() > 5 {
        let v = trim_vec(&p[5]);
        if v.len() > 0 { Some(string_of(&v)) } else { None }
    } else {
        None
    };
    let mut role_s = string_of(&role);
    if class.len() > 0 {
        let cl = lower_vec(&class);
        if same_str(&cl, "edit") || same_str(&cl, "document") || has_str(&cl, "richedit") || has_str(
            &cl,
            "windowsforms10.edit",
        ) {
            role_s = cat(cat(role_s, "/"), string_of(&class).as_str());
        }
    }
    Some(UiaElement { ref_id: string_of(&eref), role: role_s, name: string_of(&name), frame: string_of(&frame), value })
}

/// The elements of a UIA tree reply, in order (see `uia_line_of`).
pub fn parse_uia_element_lines(raw: &str) -> (r: Vec<UiaElement>)
    ensures
        uia_views(r@) == uia_elements_of(lines(raw@)),
{
    let ls = lines_vec(&chars_of(raw));
    let mut out: Vec<UiaElement> = Vec::new();
    let mut i: usize = 0;
    while i < ls.len()
        invariant
            i <= ls@.len(),
            views(ls@) == lines(raw@),
            uia_views(out@) == uia_elements_of(views(ls@).take(i as int)),
        decreases ls.len() - i,
    {
        proof {
            assert(views(ls@).take(i + 1).drop_last() =~= views(ls@).take(i as int));
            assert(views(ls@).take(i + 1).last() == ls@[i as int]@);
        }
        match uia_line(&ls[i]) {
            Some(e) => {
                out.push(e);
                assert(uia_views(out@) =~= uia_elements_of(views(ls@).take(i + 1)));
            },
            None => {},
        }
        i = i + 1;
    }
    assert(views(ls@).take(i as int) =~= views(ls@));
    out
}

/// A scene from the UIA tree reply: the elements (none under a budget below 10), the
/// window title from the first element, and a summary line.
#[derive(Debug, Clone)]
pub struct UiaSnapshot {
    pub target: AppTarget,
    pub summary: String,
    pub elements: Vec<UiaElement>,
    pub truncated: bool,
}

pub open spec fn uia_scene_elements(raw: Seq<char>, budget: u64) -> Seq<UiaV> {
    if 0 < budget < 10 { Seq::empty() } else { uia_elements_of(lines(raw)) }
}

pub open spec fn uia_summary_of(name: Seq<char>, raw: Seq<char>, n: nat) -> Seq<char> {
    if n == 0 {
        "process=\""@ + name + "\" elements=0 note=uia_tree raw="@ + raw.take(if raw.len() < 160 { raw.len() as int } else { 160 })
    } else {
        "process=\""@ + name + "\" elements="@ + nat_decimal(n) + " note=uia_tree"@
    }
}

pub fn snapshot_from_uia(id: &str, name: &str, pid: Option<i32>, raw: &str, budget: u64) -> (r: UiaSnapshot)
    ensures
        uia_views(r.elements@) == uia_scene_elements(raw@, budget),
        r.target.id@ == id@,
        r.target.title@ == (if uia_scene_elements(raw@, budget).len() > 0 && uia_scene_elements(raw@, budget)[0].2.len()
            > 0 {
            uia_scene_elements(raw@, budget)[0].2
        } else {
            name@
        }),
        r.target.bundle_or_exe@ == name@,
        r.target.pid == pid,
        r.target.allowed,
        r.target.browser_profile is None,
        r.summary@ == uia_summary_of(name@, raw@, uia_scene_elements(raw@, budget).len()),
        r.truncated,
{
    let mut elements = parse_uia_element_lines(raw);
    if budget > 0 && budget < 10 {
        elements = Vec::new();
        assert(uia_views(elements@) =~= Seq::<UiaV>::empty());
    }
    let title = if elements.len() > 0 && elements[0].name.as_str().unicode_len() > 0 {
        elements[0].name.clone()
    } else {
        owned(name)
    };
    let summary = if elements.len() == 0 {
        let v = chars_of(raw);
        let n: usize = if v.len() < 160 { v.len() } else { 160 };
        let mut head: Vec<char> = Vec::new();
        let mut k: usize = 0;
        while k < n
            invariant
                n <= v@.len(),
                k <= n,
                head@ == v@.take(k as int),
            decreases n - k,
        {
            head.push(v[k]);
            k = k + 1;
            assert(head@ =~= v@.take(k as int));
        }
        cat(cat(cat(owned("process=\""), name), "\" elements=0 note=uia_tree raw="), string_of(&head).as_str())
    } else {
        cat(cat(cat(cat(owned("process=\""), name), "\" elements="), u64_string(elements.len() as u64).as_str()), " note=uia_tree")
    };
    UiaSnapshot {
        target: AppTarget {
            id: owned(id),
            title,
            bundle_or_exe: owned(name),
            pid,
            allowed: true,
            browser_profile: None,
        },
        summary,
        elements,
        truncated: true,
    }
}

/// How a UIA step succeeded: the process, the element, the script's reply and the
/// input path it reports. Every path is a UIA pattern or a window message; none moves
/// the cursor or injects input.
#[derive(Debug, Clone)]
pub struct UiaOutcome {
    pub process: String,
    pub element_ref: Option<String>,
    pub result: String,
    pub input_path: &'static str,
    pub os_cursor_used: bool,
    pub hid_injected: bool,
}

pub open spec fn invoke_path_of(out: Seq<char>) -> Option<Seq<char>> {
    if seq_has(out, "ok:uia_invoke"@) {
        Some("uia_invoke"@)
    } else if seq_has(out, "ok:legacy_invoke"@) {
        Some("legacy_invoke"@)
    } else if seq_has(out, "ok:selection_item"@) {
        Some("selection_item"@)
    } else if seq_has(out, "ok:expand_collapse"@) {
        Some("expand_collapse"@)
    } else if seq_has(out, "ok:toggle"@) {
        Some("toggle"@)
    } else if seq_has(out, "ok:bm_click"@) {
        Some("bm_click"@)
    } else {
        None
    }
}

pub open spec fn set_value_path_of(out: Seq<char>) -> Option<Seq<char>> {
    if seq_has(out, "ok:uia_set_value"@) {
        Some("uia_set_value"@)
    } else if seq_has(out, "ok:combo_select"@) {
        Some("combo_select"@)
    } else if seq_has(out, "ok:list_select"@) {
        Some("list_select"@)
    } else if seq_has(out, "ok:track_select"@) {
        Some("track_select"@)
    } else if seq_has(out, "ok:tab_select"@) {
        Some("tab_select"@)
    } else if seq_has(out, "ok:wm_settext"@) {
        Some("wm_settext"@)
    } else if seq_has(out, "ok:clipboard_paste"@) {
        Some("clipboard_paste"@)
    } else {
        None
    }
}

pub open spec fn scroll_path_of(out: Seq<char>) -> Option<Seq<char>> {
    if seq_has(out, "ok:uia_scroll"@) {
        Some("uia_scroll"@)
    } else if seq_has(out, "ok:wm_vscroll"@) {
        Some("wm_vscroll"@)
    } else {
        None
    }
}

/// The outcome for `path`, or the failure `msg` with the reply as detail.
pub open spec fn uia_outcome_ok(
    r: Result<UiaOutcome, VcuError>,
    path: Option<Seq<char>>,
    name: Seq<char>,
    element_ref: Option<Seq<char>>,
    out: Seq<char>,
    msg: Seq<char>,
) -> bool {
    match path {
        Some(p) => r matches Ok(o) && o.input_path@ == p && o.process@ == name && o.result@ == out && !o.os_cursor_used
            && !o.hid_injected && match (
            o.element_ref,
            element_ref,
        ) {
            (Some(a), Some(b)) => a@ == b,
            (None, None) => true,
            _ => false,
        },
        None => r matches Err(e) && e.code == ErrorCode::ActionFailed && e.message@ == msg && (e.detail matches Some(d)
            && d@ == out),
    }
}

fn uia_outcome(path: Option<&'static str>, name: &str, element_ref: Option<&str>, out: &str, msg: &str) -> (r: Result<UiaOutcome, VcuError>)
    ensures
        uia_outcome_ok(r, match path {
            Some(p) => Some(p@),
            None => None,
        }, name@, match element_ref {
            Some(e) => Some(e@),
            None => None,
        }, out@, msg@),
{
    match path {
        Some(p) => Ok(UiaOutcome {
            process: owned(name),
            element_ref: match element_ref {
                Some(e) => Some(owned(e)),
                None => None,
            },
            result: owned(out),
            input_path: p,
            os_cursor_used: false,
            hid_injected: false,
        }),
        None => Err(VcuError::with_detail(ErrorCode::ActionFailed, owned(msg), owned(out))),
    }
}

/// What an invoke reply reports (see `invoke_path_of`).
pub fn invoke_from_uia_output(name: &str, element_ref: &str, out: &str) -> (r: Result<UiaOutcome, VcuError>)
    ensures
        uia_outcome_ok(r, invoke_path_of(out@), name@, Some(element_ref@), out@, "uia invoke failed"@),
{
    let o = chars_of(out);
    let path: Option<&'static str> = if has_str(&o, "ok:uia_invoke") {
        Some("uia_invoke")
    } else if has_str(&o, "ok:legacy_invoke") {
        Some("legacy_invoke")
    } else if has_str(&o, "ok:selection_item") {
        Some("selection_item")
    } else if has_str(&o, "ok:expand_collapse") {
        Some("expand_collapse")
    } else if has_str(&o, "ok:toggle") {
        Some("toggle")
    } else if has_str(&o, "ok:bm_click") {
        Some("bm_click")
    } else {
        None
    };
    uia_outcome(path, name, Some(element_ref), out, "uia invoke failed")
}

/// What a set-value reply reports (see `set_value_path_of`).
pub fn set_value_from_uia_output(name: &str, element_ref: &str, out: &str) -> (r: Result<UiaOutcome, VcuError>)
    ensures
        uia_outcome_ok(r, set_value_path_of(out@), name@, Some(element_ref@), out@, "uia set_value failed"@),
{
    let o = chars_of(out);
    let path: Option<&'static str> = if has_str(&o, "ok:uia_set_value") {
        Some("uia_set_value")
    } else if has_str(&o, "ok:combo_select") {
        Some("combo_select")
    } else if has_str(&o, "ok:list_select") {
        Some("list_select")
    } else if has_str(&o, "ok:track_select") {
        Some("track_select")
    } else if has_str(&o, "ok:tab_select") {
        Some("tab_select")
    } else if has_str(&o, "ok:wm_settext") {
        Some("wm_settext")
    } else if has_str(&o, "ok:clipboard_paste") {
        Some("clipboard_paste")
    } else {
        None
    };
    uia_outcome(path, name, Some(element_ref), out, "uia set_value failed")
}

/// What a scroll reply reports (see `scroll_path_of`).
pub fn scroll_from_uia_output(name: &str, out: &str) -> (r: Result<UiaOutcome, VcuError>)
    ensures
        uia_outcome_ok(r, scroll_path_of(out@), name@, None, out@, "uia scroll failed"@),
{
    let o = chars_of(out);
    let path: Option<&'static str> = if has_str(&o, "ok:uia_scroll") {
        Some("uia_scroll")
    } else if has_str(&o, "ok:wm_vscroll") {
        Some("wm_vscroll")
    } else {
        None
    };
    uia_outcome(path, name, None, out, "uia scroll failed")
}

pub open spec fn trimmed_all(s: Seq<Seq<char>>) -> Seq<Seq<char>> {
    s.map_values(|p: Seq<char>| trim(p))
}

/// The lines of a reply, trimmed, blank ones dropped.
pub open spec fn nonblank_lines(ls: Seq<Seq<char>>) -> Seq<Seq<char>>
    decreases ls.len(),
{
    if ls.len() == 0 {
        Seq::empty()
    } else {
        let rest = nonblank_lines(ls.drop_last());
        if trim(ls.last()).len() > 0 { rest.push(trim(ls.last())) } else { rest }
    }
}

/// A window capture reply: a `FRAME|x,y,w,h` line, then the PNG in Base64. The PNG
/// (which must carry an IHDR size) and the frame's comma-separated fields, trimmed.
pub open spec fn uia_capture_of(raw: Seq<char>) -> Option<(Seq<u8>, Seq<Seq<char>>)> {
    let ls = nonblank_lines(lines(raw));
    if ls.len() < 2 || !begins(ls[0], "FRAME|"@) {
        None
    } else {
        match lenient_base64_of(vstd::utf8::encode_utf8(ls[1])) {
            None => None,
            Some(png) => if png_size_of(png) is None {
                None
            } else {
                Some((png, trimmed_all(split_all(ls[0].skip(6), ','))))
            },
        }
    }
}

/// Reads a window capture reply (see `uia_capture_of`); the host reads the four frame
/// numbers from the fields.
pub fn parse_uia_capture_output(raw: &str) -> (r: Option<(Vec<u8>, Vec<String>)>)
    ensures
        match (r, uia_capture_of(raw@)) {
            (Some((png, fields)), Some((p, f))) => png@ == p && view_strings(fields@) == f,
            (None, None) => true,
            _ => false,
        },
{
    let ls = lines_vec(&chars_of(raw));
    let mut kept: Vec<Vec<char>> = Vec::new();
    let mut i: usize = 0;
    while i < ls.len() && kept.len() < 2
        invariant
            i <= ls@.len(),
            views(ls@) == lines(raw@),
            kept@.len() <= 2,
            views(kept@) == nonblank_lines(views(ls@).take(i as int)),
            nonblank_lines(views(ls@).take(i as int)).len() <= 2,
        decreases ls.len() - i,
    {
        proof {
            assert(views(ls@).take(i + 1).drop_last() =~= views(ls@).take(i as int));
            assert(views(ls@).take(i + 1).last() == ls@[i as int]@);
        }
        let t = trim_vec(&ls[i]);
        if t.len() > 0 {
            kept.push(t);
            assert(views(kept@) =~= nonblank_lines(views(ls@).take(i + 1)));
        }
        i = i + 1;
    }
    proof {
        lemma_nonblank_prefix(views(ls@), i as int);
    }
    if kept.len() < 2 {
        assert(views(ls@).take(i as int) =~= views(ls@));
        return None;
    }
    proof {
        reveal_strlit("FRAME|");
    }
    if !begins_str(&kept[0], "FRAME|") {
        return None;
    }
    let b64 = string_of(&kept[1]);
    let png = match base64_decode(b64.as_str()) {
        Some(p) => p,
        None => return None,
    };
    if png_ihdr_size(png.as_slice()).is_none() {
        return None;
    }
    let rest = super::macos::skip_vec(&kept[0], 6);
    let parts = split_vec(&rest, ',');
    let mut fields: Vec<String> = Vec::new();
    let mut k: usize = 0;
    while k < parts.len()
        invariant
            k <= parts@.len(),
            view_strings(fields@) == trimmed_all(views(parts@).take(k as int)),
        decreases parts.len() - k,
    {
        let f = string_of(&trim_vec(&parts[k]));
        let ghost before = fields@;
        fields.push(f);
        proof {
            assert(view_strings(fields@) =~= view_strings(before).push(f@));
            assert(trimmed_all(views(parts@).take(k + 1)) =~= trimmed_all(views(parts@).take(k as int)).push(
                trim(views(parts@)[k as int]),
            ));
        }
        k = k + 1;
    }
    assert(views(parts@).take(k as int) =~= views(parts@));
    Some((png, fields))
}

/// The first two non-blank lines are fixed by the first lines that hold them.
proof fn lemma_nonblank_prefix(ls: Seq<Seq<char>>, i: int)
    requires
        0 <= i <= ls.len(),
        i < ls.len() ==> nonblank_lines(ls.take(i)).len() >= 2,
    ensures
        nonblank_lines(ls).len() >= nonblank_lines(ls.take(i)).len(),
        forall|k: int| 0 <= k < nonblank_lines(ls.take(i)).len() ==> nonblank_lines(ls)[k] == nonblank_lines(ls.take(i))[k],
    decreases ls.len() - i,
{
    if i < ls.len() {
        let a = ls.take(i);
        let b = ls.take(i + 1);
        assert(b.drop_last() =~= a);
        assert(nonblank_lines(b).len() >= nonblank_lines(a).len());
        assert(forall|k: int| 0 <= k < nonblank_lines(a).len() ==> nonblank_lines(b)[k] == nonblank_lines(a)[k]);
        lemma_nonblank_prefix(ls, i + 1);
    } else {
        assert(ls.take(i) =~= ls);
    }
}

} // verus!
