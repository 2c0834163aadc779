//! Desktop App computer-use adapters: the policy shared by every platform (denied apps,
//! AXPress outcomes, PNG headers) and the values the adapters exchange.
pub mod capture;
pub mod macos;
pub mod mock_app;
pub mod windows;

use vstd::prelude::*;
use crate::error::{ErrorCode, VcuError};
use crate::text::{begins, begins_str, cat, chars_of, has_str, lower, lower_of, lower_vec, occurs_at, owned, same_str, seq_has, trim, trim_vec};

verus! {

broadcast use vstd::string::group_string_axioms;

pub const PNG_SIGNATURE: [u8; 8] = [0x89, 0x50, 0x4e, 0x47, 0x0d, 0x0a, 0x1a, 0x0a];

/// The big-endian `u32` stored at `png[i..i + 4]`.
pub open spec fn be_u32_at(png: Seq<u8>, i: int) -> int {
    png[i] as int * 16777216 + png[i + 1] as int * 65536 + png[i + 2] as int * 256 + png[i + 3] as int
}

/// A PNG signature followed by an IHDR chunk header.
pub open spec fn has_png_ihdr(png: Seq<u8>) -> bool {
    &&& png.len() >= 24
    &&& png.take(8) == seq![0x89u8, 0x50u8, 0x4eu8, 0x47u8, 0x0du8, 0x0au8, 0x1au8, 0x0au8]
    &&& png.subrange(12, 16) == seq![0x49u8, 0x48u8, 0x44u8, 0x52u8]
}

/// Pixel size from the IHDR chunk of a PNG; `None` unless both sides are non-zero.
pub open spec fn png_size_of(png: Seq<u8>) -> Option<(u32, u32)> {
    if has_png_ihdr(png) && be_u32_at(png, 16) != 0 && be_u32_at(png, 20) != 0 {
        Some((be_u32_at(png, 16) as u32, be_u32_at(png, 20) as u32))
    } else {
        None
    }
}

fn bytes_are(png: &[u8], from: usize, want: &[u8]) -> (r: bool)
    requires
        from + want@.len() <= png@.len(),
    ensures
        r == (png@.subrange(from as int, from + want@.len()) == want@),
{
    let _n = png.len();
    let mut i: usize = 0;
    while i < want.len()
        invariant
            i <= want@.len(),
            from + want@.len() <= png@.len(),
            png@.len() <= usize::MAX,
            forall|k: int| 0 <= k < i ==> png@[from + k] == want@[k],
        decreases want.len() - i,
    {
        if png[from + i] != want[i] {
            assert(png@.subrange(from as int, from + want@.len())[i as int] != want@[i as int]);
            return false;
        }
        i = i + 1;
    }
    assert(png@.subrange(from as int, from + want@.len()) =~= want@);
    true
}

fn be_u32(png: &[u8], i: usize) -> (r: u32)
    requires
        i + 4 <= png@.len(),
    ensures
        r == be_u32_at(png@, i as int),
{
    let a = png[i] as u32;
    let b = png[i + 1] as u32;
    let c = png[i + 2] as u32;
    let d = png[i + 3] as u32;
    a * 16777216 + b * 65536 + c * 256 + d
}

/// Read PNG IHDR pixel size. Retina screencapture is often 2x the AX point frame.
pub fn png_ihdr_size(png: &[u8]) -> (r: Option<(u32, u32)>)
    ensures
        r == png_size_of(png@),
{
    if png.len() < 24 {
        return None;
    }
    let sig: [u8; 8] = [0x89, 0x50, 0x4e, 0x47, 0x0d, 0x0a, 0x1a, 0x0a];
    let ihdr: [u8; 4] = [0x49, 0x48, 0x44, 0x52];
    proof {
        assert(png@.take(8) =~= png@.subrange(0, 8));
        assert(sig@ =~= seq![0x89u8, 0x50u8, 0x4eu8, 0x47u8, 0x0du8, 0x0au8, 0x1au8, 0x0au8]);
        assert(ihdr@ =~= seq![0x49u8, 0x48u8, 0x44u8, 0x52u8]);
    }
    if !bytes_are(png, 0, sig.as_slice()) {
        return None;
    }
    if !bytes_are(png, 12, ihdr.as_slice()) {
        return None;
    }
    let w = be_u32(png, 16);
    let h = be_u32(png, 20);
    if w == 0 || h == 0 {
        return None;
    }
    Some((w, h))
}

/// Unicode lower-casing, as `str::to_lowercase` performs it.
pub uninterp spec fn unicode_lower(s: Seq<char>) -> Seq<char>;

/// `str::to_lowercase`: the Unicode lower-case mapping of every character. Its result is
/// named (`unicode_lower`), not spelled out: the mapping is the Unicode table.
#[verifier::external_body]
pub(crate) fn to_lowercase(s: &str) -> (r: String)
    ensures
        r@ == unicode_lower(s@),
{
    s.to_lowercase()
}

/// WeChat is never operable, whatever the allowlist says.
pub open spec fn is_denied_name(name: Seq<char>) -> bool {
    let l = unicode_lower(name);
    seq_has(l, "wechat"@) || seq_has(l, "weixin"@) || seq_has(name, "微信"@)
}

/// Hard denylist — evaluated before allowlist. WeChat is never operable.
pub fn is_denied_app(name: &str) -> (r: bool)
    ensures
        r == is_denied_name(name@),
{
    let lower = to_lowercase(name);
    let l = chars_of(lower.as_str());
    let n = chars_of(name);
    has_str(&l, "wechat") || has_str(&l, "weixin") || has_str(&n, "微信")
}

pub const DENIED_HEAD: &'static str = "app '";
pub const DENIED_TAIL: &'static str = "' is denied by VCU policy";

pub fn denied_app_error(name: &str) -> (e: VcuError)
    ensures
        e.code == ErrorCode::AppDenied,
        e.message@ == DENIED_HEAD@ + name@ + DENIED_TAIL@,
        e.detail is None,
{
    VcuError::coded(ErrorCode::AppDenied, cat(cat(owned(DENIED_HEAD), name), DENIED_TAIL))
}

/// The error code a hit-test script outcome maps to.
pub open spec fn hit_code_of(detail: Seq<char>) -> Option<ErrorCode> {
    let d = lower(detail);
    if seq_has(d, "denied-app"@) || (seq_has(d, "wechat"@) && seq_has(d, "error:"@)) {
        Some(ErrorCode::AppDenied)
    } else if seq_has(d, "other-pid"@) {
        Some(ErrorCode::ActionFailed)
    } else {
        None
    }
}

pub fn hit_error_code(detail: &str) -> (r: Option<ErrorCode>)
    ensures
        r == hit_code_of(detail@),
{
    let d = lower_of(detail);
    if has_str(&d, "denied-app") || (has_str(&d, "wechat") && has_str(&d, "error:")) {
        Some(ErrorCode::AppDenied)
    } else if has_str(&d, "other-pid") {
        Some(ErrorCode::ActionFailed)
    } else {
        None
    }
}

/// `i` is the start of the last occurrence of `pat` in `s`.
pub open spec fn is_last_occurrence(s: Seq<char>, pat: Seq<char>, i: int) -> bool {
    occurs_at(s, pat, i) && forall|j: int| i < j ==> !occurs_at(s, pat, j)
}

/// The text after the last occurrence of `pat`: what `rsplit_once(pat)` gives as its second part.
pub open spec fn after_last(s: Seq<char>, pat: Seq<char>) -> Option<Seq<char>> {
    if exists|i: int| is_last_occurrence(s, pat, i) {
        let i = choose|i: int| is_last_occurrence(s, pat, i);
        Some(s.skip(i + pat.len()))
    } else {
        None
    }
}

/// AXPress reported status zero after the last `:axpress:` marker.
pub open spec fn axpress_ok(d: Seq<char>) -> bool {
    after_last(d, ":axpress:"@) matches Some(code) && trim(code) == "0"@
}

fn last_occurrence(hay: &Vec<char>, pat: &Vec<char>) -> (r: Option<usize>)
    requires
        pat.len() > 0,
    ensures
        match r {
            Some(i) => is_last_occurrence(hay@, pat@, i as int) && i + pat.len() <= hay.len(),
            None => forall|j: int| !occurs_at(hay@, pat@, j),
        },
{
    if pat.len() > hay.len() {
        return None;
    }
    let mut i: usize = hay.len() - pat.len() + 1;
    while i > 0
        invariant
            pat.len() <= hay.len(),
            i <= hay.len() - pat.len() + 1,
            forall|j: int| i <= j ==> !occurs_at(hay@, pat@, j),
        decreases i,
    {
        let k = i - 1;
        let mut m: usize = 0;
        let mut ok = true;
        while m < pat.len()
            invariant
                k + pat.len() <= hay.len(),
                m <= pat.len(),
                ok == forall|t: int| 0 <= t < m ==> hay@[k + t] == pat@[t],
            decreases pat.len() - m,
        {
            if hay[k + m] != pat[m] {
                ok = false;
            }
            m = m + 1;
        }
        if ok {
            assert(hay@.subrange(k as int, k + pat.len()) =~= pat@);
            return Some(k);
        } else {
            assert(!occurs_at(hay@, pat@, k as int)) by {
                let t = choose|t: int| 0 <= t < pat.len() && hay@[k + t] != pat@[t];
                if occurs_at(hay@, pat@, k as int) {
                    assert(hay@.subrange(k as int, k + pat.len())[t] == hay@[k + t]);
                }
            }
        }
        i = k;
    }
    None
}

proof fn lemma_after_last(s: Seq<char>, pat: Seq<char>, i: int)
    requires
        is_last_occurrence(s, pat, i),
    ensures
        after_last(s, pat) == Some(s.skip(i + pat.len())),
{
    let j = choose|j: int| is_last_occurrence(s, pat, j);
    if j != i {
        if j < i {
            assert(!occurs_at(s, pat, i));
        } else {
            assert(!occurs_at(s, pat, j));
        }
    }
}

fn axpress_ok_exec(d: &Vec<char>) -> (r: bool)
    ensures
        r == axpress_ok(d@),
{
    let pat = chars_of(":axpress:");
    proof {
        reveal_strlit(":axpress:");
    }
    match last_occurrence(d, &pat) {
        Some(i) => {
            proof {
                lemma_after_last(d@, pat@, i as int);
            }
            let mut rest: Vec<char> = Vec::new();
            let mut k: usize = i + pat.len();
            while k < d.len()
                invariant
                    i + pat.len() <= k <= d.len(),
                    rest@ == d@.subrange(i + pat.len(), k as int),
                decreases d.len() - k,
            {
                rest.push(d[k]);
                k = k + 1;
                assert(rest@ =~= d@.subrange(i + pat.len(), k as int));
            }
            assert(rest@ =~= d@.skip(i + pat.len()));
            let t = trim_vec(&rest);
            same_str(&t, "0")
        },
        None => {
            assert(!exists|i: int| is_last_occurrence(d@, pat@, i));
            false
        },
    }
}

/// AXPress returns zero on success. A successful script process is not enough.
pub fn ax_position_press_succeeded(detail: &str) -> (r: bool)
    ensures
        r == (begins(detail@, "ok:ax_position_press:pid:"@) && axpress_ok(detail@)),
{
    let d = chars_of(detail);
    begins_str(&d, "ok:ax_position_press:pid:") && axpress_ok_exec(&d)
}

/// AXPress by Scene ref. Bare "ok" or System Events `click` is not success.
pub fn ax_ref_press_succeeded(detail: &str) -> (r: bool)
    ensures
        r == ((begins(trim(detail@), "ok:ax_press:"@) || begins(trim(detail@), "ok-webview:ax_press:"@))
            && axpress_ok(trim(detail@))),
{
    let d = trim_vec(&chars_of(detail));
    (begins_str(&d, "ok:ax_press:") || begins_str(&d, "ok-webview:ax_press:")) && axpress_ok_exec(&d)
}

/// A window the app adapters can act on.
#[derive(Debug, Clone)]
pub struct AppTarget {
    pub id: String,
    pub title: String,
    pub bundle_or_exe: String,
    pub pid: Option<i32>,
    pub allowed: bool,
    /// user | agent when this process is Chrome/Edge; none for ordinary apps.
    pub browser_profile: Option<String>,
}

pub fn default_true() -> (r: bool)
    ensures
        r,
{
    true
}

/// A browser tab shown in an app scene.
#[derive(Debug, Clone)]
pub struct AppTab {
    pub name: String,
    pub selected: bool,
}

/// An Electron/WebView region, from an AX role and name.
pub open spec fn webview_like(role: Seq<char>, name: Seq<char>) -> bool {
    let blob = lower(role + seq![' '] + name);
    seq_has(blob, "webview"@) || seq_has(blob, "messenger"@) || seq_has(blob, "webarea"@) || seq_has(
        blob,
        "axwebarea"@,
    )
}

pub fn is_webview_like(role: &str, name: &str) -> (r: bool)
    ensures
        r == webview_like(role@, name@),
{
    let mut blob = chars_of(role);
    blob.push(' ');
    let mut n = chars_of(name);
    blob.append(&mut n);
    assert(blob@ =~= role@ + seq![' '] + name@);
    let b = lower_vec(&blob);
    has_str(&b, "webview") || has_str(&b, "messenger") || has_str(&b, "webarea") || has_str(&b, "axwebarea")
}

/// Placeholder used when platform adapter is unavailable: every request is refused.
pub struct UnsupportedAppBackend {
    pub platform: String,
}

pub const UNSUPPORTED_LIST_HEAD: &'static str = "app computer-use adapter not enabled on ";

impl UnsupportedAppBackend {
    pub fn platform(&self) -> (r: &str)
        ensures
            r@ == self.platform@,
    {
        self.platform.as_str()
    }

    pub fn list_windows(&self) -> (r: Result<Vec<AppTarget>, VcuError>)
        ensures
            r matches Err(e) && e.code == ErrorCode::NotImplemented && e.message@
                == UNSUPPORTED_LIST_HEAD@ + self.platform@,
    {
        Err(VcuError::coded(ErrorCode::NotImplemented, cat(owned(UNSUPPORTED_LIST_HEAD), self.platform.as_str())))
    }

    pub fn focus_window(&mut self, id: &str, allow_focus_steal: bool) -> (r: Result<(), VcuError>)
        ensures
            r matches Err(e) && e.code == ErrorCode::FocusPolicyViolation,
            final(self).platform@ == old(self).platform@,
    {
        Err(VcuError::coded(ErrorCode::FocusPolicyViolation, owned("app focus steal denied by default policy")))
    }

    pub fn snapshot_refused(&self) -> (e: VcuError)
        ensures
            e.code == ErrorCode::NotImplemented,
    {
        VcuError::coded(ErrorCode::NotImplemented, owned("app a11y snapshot not implemented"))
    }

    pub fn invoke_refused(&self) -> (e: VcuError)
        ensures
            e.code == ErrorCode::OsCursorDenied,
    {
        VcuError::coded(
            ErrorCode::OsCursorDenied,
            owned("app invoke via OS input is denied unless a safe AX press path is available"),
        )
    }

    pub fn set_value_refused(&self) -> (e: VcuError)
        ensures
            e.code == ErrorCode::NotImplemented,
    {
        VcuError::coded(ErrorCode::NotImplemented, owned("app set_value not implemented"))
    }
}

/// The app-scene elements an extract selector matches (indices, in order).
pub fn extract_elements(elements: &[crate::browser::SceneRef], selector: &str) -> (r: Vec<usize>)
    ensures
        crate::browser::usize_ints(r@) == crate::browser::hit_indices(elements@, crate::browser::selector_hit(selector@)),
{
    crate::browser::selector_matches(elements, selector)
}

} // verus!
