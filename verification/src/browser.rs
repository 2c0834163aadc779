//! Browser and desktop-scene decisions: which keys a desktop session may press, which
//! scene ref a wait resolves to, the DevTools websocket for a debugger address, and
//! how a captured PNG is accepted and addressed.
use vstd::prelude::*;

pub mod extension;
pub mod mock;
use base64::Engine;
use sha2::Digest;
use crate::login_state::{is_first, first_where, lemma_first_where, lemma_first_where_none};
use crate::app::{png_ihdr_size, png_size_of, to_lowercase, unicode_lower};
use crate::error::{ErrorCode, VcuError};
use crate::text::{
    has_vec, begins, begins_str, cat, chars_of, eq_ignore_case, finishes, has_str, lower, lower_of, owned,
    same_ignore_case, same_str, seq_has, string_of, trim, trimmed_of, lower_vec, nat_decimal, u64_string,
};

verus! {

broadcast use vstd::string::group_string_axioms;

// ---------------------------------------------------------------------------
// Screenshots
// ---------------------------------------------------------------------------

/// A captured PNG and its pixel size.
#[derive(Debug, Clone)]
pub struct ScreenshotData {
    pub png: Vec<u8>,
    pub width: u32,
    pub height: u32,
}

/// What standard-alphabet, padded Base64 decoding yields for `s` (`None` when `s` is
/// not valid Base64).
pub uninterp spec fn base64_standard_decoded(s: Seq<char>) -> Option<Seq<u8>>;

/// `base64::engine::general_purpose::STANDARD.decode`: the decoded bytes, or `None` on a
/// decode error. The result is named, not spelled out.
#[verifier::external_body]
pub(crate) fn base64_decode(s: &str) -> (r: Option<Vec<u8>>)
    ensures
        match (r, base64_standard_decoded(s@)) {
            (Some(v), Some(w)) => v@ == w,
            (None, None) => true,
            _ => false,
        },
{
    base64::engine::general_purpose::STANDARD.decode(s).ok()
}

/// What standard-alphabet, padded Base64 encoding yields for `b`.
pub uninterp spec fn base64_standard_encoded(b: Seq<u8>) -> Seq<char>;

/// `base64::engine::general_purpose::STANDARD.encode`: the padded Base64 text of the
/// bytes. The result is named, not spelled out.
#[verifier::external_body]
pub(crate) fn base64_encode(b: &[u8]) -> (r: String)
    ensures
        r@ == base64_standard_encoded(b@),
{
    base64::engine::general_purpose::STANDARD.encode(b)
}

/// What a page snapshot includes.
#[derive(Debug, Clone, Copy, PartialEq, Eq, Structural)]
pub enum SnapshotMode {
    A11y,
    Text,
    Dom,
    Full,
}

/// An element a snapshot exposes for actions.
#[derive(Debug, Clone)]
pub struct DomRef {
    pub ref_id: String,
    pub role: String,
    pub name: String,
    pub value: Option<String>,
    pub selector: Option<String>,
}

/// A page snapshot: the accessibility summary, the actionable elements, the body text,
/// a screenshot, and whether the token budget cut it.
#[derive(Debug, Clone)]
pub struct SnapshotData {
    pub a11y_summary: Option<String>,
    pub dom_refs: Vec<DomRef>,
    pub text_excerpt: Option<String>,
    pub screenshot_png: Option<Vec<u8>>,
    pub truncated: bool,
    pub budget_tokens_est: u64,
}

/// A page action: its kind and the target and arguments that kind uses.
#[derive(Debug, Clone)]
pub struct ActionRequest {
    pub kind: String,
    pub target_ref: Option<String>,
    pub text: Option<String>,
    pub url: Option<String>,
    pub dy: Option<i64>,
    pub ms: Option<u64>,
    pub key: Option<String>,
}

/// What a page action did. Every one goes through the page DOM; none uses the OS cursor.
#[derive(Debug, Clone)]
pub enum ActionDetail {
    Clicked { target: String, role: String, name: String },
    Typed { text: String, into: Option<String> },
    Navigated { url: String },
    Scrolled { dy: i64 },
    /// A wait of `ms`; the caller sleeps `sleep_ms` (at most five seconds).
    Waited { ms: u64, sleep_ms: u64 },
}

#[derive(Debug, Clone)]
pub struct ActionResultDetail {
    pub ok: bool,
    pub detail: ActionDetail,
}

/// A one-pixel PNG, Base64-encoded.
pub const MINIMAL_PNG_BASE64: &'static str =
    "iVBORw0KGgoAAAANSUhEUgAAAAEAAAABCAYAAAAfFcSJAAAADUlEQVR42mP8z8BQDwAEhQGAhKmMIQAAAABJRU5ErkJggg==";

/// The bytes of `MINIMAL_PNG_BASE64` (empty should it not decode).
pub open spec fn minimal_png_bytes() -> Seq<u8> {
    match base64_standard_decoded(MINIMAL_PNG_BASE64@) {
        Some(b) => b,
        None => Seq::empty(),
    }
}

pub fn minimal_png() -> (r: Vec<u8>)
    ensures
        r@ == minimal_png_bytes(),
{
    match base64_decode(MINIMAL_PNG_BASE64) {
        Some(b) => b,
        None => Vec::new(),
    }
}

pub const MAX_SCREENSHOT_BASE64_BYTES: usize = 24_000_000;

pub const SCREENSHOT_INVALID: &'static str = "extension screenshot must contain a PNG and bound viewport metadata";

/// The screenshot a Base64 payload carries: at most 24,000,000 bytes of Base64 that
/// decode to a PNG with a non-zero IHDR size.
pub open spec fn screenshot_of(encoded: Seq<char>) -> Option<(Seq<u8>, u32, u32)> {
    if vstd::utf8::encode_utf8(encoded).len() > MAX_SCREENSHOT_BASE64_BYTES {
        None
    } else {
        match base64_standard_decoded(encoded) {
            None => None,
            Some(png) => match png_size_of(png) {
                Some((w, h)) => Some((png, w, h)),
                None => None,
            },
        }
    }
}

pub fn decode_screenshot_png(encoded: &str) -> (r: Result<ScreenshotData, VcuError>)
    requires
        vstd::utf8::encode_utf8(encoded@).len() <= usize::MAX,
    ensures
        match (r, screenshot_of(encoded@)) {
            (Ok(d), Some((png, w, h))) => d.png@ == png && d.width == w && d.height == h,
            (Err(e), None) => e.code == ErrorCode::ActionFailed && e.message@ == SCREENSHOT_INVALID@,
            _ => false,
        },
{
    if encoded.len() > MAX_SCREENSHOT_BASE64_BYTES {
        return Err(VcuError::coded(ErrorCode::ActionFailed, owned(SCREENSHOT_INVALID)));
    }
    let png = match base64_decode(encoded) {
        Some(v) => v,
        None => return Err(VcuError::coded(ErrorCode::ActionFailed, owned(SCREENSHOT_INVALID))),
    };
    match png_ihdr_size(png.as_slice()) {
        Some((width, height)) => Ok(ScreenshotData { png, width, height }),
        None => Err(VcuError::coded(ErrorCode::ActionFailed, owned(SCREENSHOT_INVALID))),
    }
}

pub const OBSERVE_PNG_MISSING: &'static str = "extension observe screenshot missing PNG";
pub const OBSERVE_PNG_TOO_LARGE: &'static str = "extension observe screenshot too large";
pub const OBSERVE_NOT_PNG: &'static str = "extension observe screenshot is not PNG";

/// The viewport capture of an observe: its `png_base64` must be there, at most
/// 24,000,000 bytes long, and decode to a PNG with a non-zero IHDR size; each failure
/// has its own message.
pub open spec fn observe_png_of(encoded: Option<Seq<char>>) -> Result<(Seq<u8>, u32, u32), Seq<char>> {
    match encoded {
        None => Err(OBSERVE_PNG_MISSING@),
        Some(e) => if vstd::utf8::encode_utf8(e).len() > MAX_SCREENSHOT_BASE64_BYTES {
            Err(OBSERVE_PNG_TOO_LARGE@)
        } else {
            match base64_standard_decoded(e) {
                None => Err(OBSERVE_NOT_PNG@),
                Some(png) => match png_size_of(png) {
                    Some((w, h)) => Ok((png, w, h)),
                    None => Err(OBSERVE_NOT_PNG@),
                },
            }
        },
    }
}

pub fn decode_observe_png(encoded: Option<&str>) -> (r: Result<ScreenshotData, VcuError>)
    requires
        encoded matches Some(e) ==> vstd::utf8::encode_utf8(e@).len() <= usize::MAX,
    ensures
        match (r, observe_png_of(opt_str(encoded))) {
            (Ok(d), Ok((png, w, h))) => d.png@ == png && d.width == w && d.height == h,
            (Err(e), Err(msg)) => e.code == ErrorCode::ActionFailed && e.message@ == msg,
            _ => false,
        },
{
    let text = match encoded {
        Some(e) => e,
        None => return Err(VcuError::coded(ErrorCode::ActionFailed, owned(OBSERVE_PNG_MISSING))),
    };
    if text.len() > MAX_SCREENSHOT_BASE64_BYTES {
        return Err(VcuError::coded(ErrorCode::ActionFailed, owned(OBSERVE_PNG_TOO_LARGE)));
    }
    let png = match base64_decode(text) {
        Some(v) => v,
        None => return Err(VcuError::coded(ErrorCode::ActionFailed, owned(OBSERVE_NOT_PNG))),
    };
    match png_ihdr_size(png.as_slice()) {
        Some((width, height)) => Ok(ScreenshotData { png, width, height }),
        None => Err(VcuError::coded(ErrorCode::ActionFailed, owned(OBSERVE_NOT_PNG))),
    }
}

/// The SHA-256 digest of `b`.
pub uninterp spec fn sha256_of(b: Seq<u8>) -> Seq<u8>;

/// `sha2::Sha256::digest`: the 32-byte SHA-256 digest. The digest is named; its length
/// is the one fact stated.
#[verifier::external_body]
fn sha256(b: &[u8]) -> (r: Vec<u8>)
    ensures
        r@ == sha256_of(b@),
        r@.len() == 32,
{
    sha2::Sha256::digest(b).to_vec()
}

pub open spec fn hex_digit(d: int) -> char {
    if d < 10 { (('0' as int) + d) as char } else { (('a' as int) + d - 10) as char }
}

/// Lower-case hexadecimal, two digits per byte, high nibble first.
pub open spec fn hex_lower(b: Seq<u8>) -> Seq<char>
    decreases b.len(),
{
    if b.len() == 0 {
        Seq::empty()
    } else {
        seq![hex_digit(b[0] as int / 16), hex_digit(b[0] as int % 16)] + hex_lower(b.drop_first())
    }
}

/// `hex::encode`: every byte as two lower-case hexadecimal digits, in order.
#[verifier::external_body]
fn hex_encode(b: &[u8]) -> (r: String)
    ensures
        r@ == hex_lower(b@),
{
    hex::encode(b)
}

/// A content address for a PNG: `cas://sha256/<lower-case hex digest>`.
pub fn screenshot_ref(png: &[u8]) -> (r: String)
    ensures
        r@ == "cas://sha256/"@ + hex_lower(sha256_of(png@)),
{
    let digest = sha256(png);
    let h = hex_encode(digest.as_slice());
    cat(owned("cas://sha256/"), h.as_str())
}

/// The hex SHA-256 digest of a capture, the name its file is stored under.
pub fn capture_digest(png: &[u8]) -> (r: String)
    ensures
        r@ == hex_lower(sha256_of(png@)),
        r@.len() == 64,
{
    let digest = sha256(png);
    proof {
        lemma_hex_len(digest@);
    }
    hex_encode(digest.as_slice())
}

proof fn lemma_hex_len(b: Seq<u8>)
    ensures
        hex_lower(b).len() == 2 * b.len(),
    decreases b.len(),
{
    if b.len() > 0 {
        lemma_hex_len(b.drop_first());
    }
}

// ---------------------------------------------------------------------------
// DevTools
// ---------------------------------------------------------------------------

/// The text without its trailing run of `c` (`trim_end_matches(c)`).
pub open spec fn strip_trailing(s: Seq<char>, c: char) -> Seq<char>
    decreases s.len(),
{
    if s.len() > 0 && s.last() == c { strip_trailing(s.drop_last(), c) } else { s }
}

/// The browser-level DevTools websocket for an HTTP (or websocket) debugger base.
pub open spec fn browser_ws_of(base: Seq<char>) -> Seq<char> {
    let b = strip_trailing(base, '/');
    if begins(b, "https://"@) {
        "wss://"@ + b.skip(8) + "/devtools/browser"@
    } else if begins(b, "http://"@) {
        "ws://"@ + b.skip(7) + "/devtools/browser"@
    } else if begins(b, "ws://"@) || begins(b, "wss://"@) {
        if seq_has(b, "/devtools/"@) { b } else { b + "/devtools/browser"@ }
    } else {
        "ws://"@ + b + "/devtools/browser"@
    }
}

fn strip_trailing_vec(v: &Vec<char>, c: char) -> (r: Vec<char>)
    ensures
        r@ == strip_trailing(v@, c),
{
    let mut n: usize = v.len();
    assert(v@.take(n as int) =~= v@);
    while n > 0 && v[n - 1] == c
        invariant
            n <= v.len(),
            strip_trailing(v@.take(n as int), c) == strip_trailing(v@, c),
        decreases n,
    {
        assert(v@.take(n as int).drop_last() =~= v@.take(n - 1));
        n = n - 1;
    }
    let mut r: Vec<char> = Vec::new();
    let mut k: usize = 0;
    while k < n
        invariant
            k <= n <= v.len(),
            r@ == v@.take(k as int),
        decreases n - k,
    {
        r.push(v[k]);
        k = k + 1;
        assert(r@ =~= v@.take(k as int));
    }
    r
}

fn skip_chars(v: &Vec<char>, n: usize) -> (r: String)
    requires
        n <= v@.len(),
    ensures
        r@ == v@.skip(n as int),
{
    let mut r: Vec<char> = Vec::new();
    let mut k: usize = n;
    while k < v.len()
        invariant
            n <= k <= v.len(),
            r@ == v@.subrange(n as int, k as int),
        decreases v.len() - k,
    {
        r.push(v[k]);
        k = k + 1;
        assert(r@ =~= v@.subrange(n as int, k as int));
    }
    assert(r@ =~= v@.skip(n as int));
    string_of(&r)
}

pub fn http_base_to_browser_ws(base: &str) -> (r: String)
    ensures
        r@ == browser_ws_of(base@),
{
    let b = strip_trailing_vec(&chars_of(base), '/');
    let bs = string_of(&b);
    if begins_str(&b, "https://") {
        proof {
            reveal_strlit("https://");
        }
        cat(cat(owned("wss://"), skip_chars(&b, 8).as_str()), "/devtools/browser")
    } else if begins_str(&b, "http://") {
        proof {
            reveal_strlit("http://");
        }
        cat(cat(owned("ws://"), skip_chars(&b, 7).as_str()), "/devtools/browser")
    } else if begins_str(&b, "ws://") || begins_str(&b, "wss://") {
        if has_str(&b, "/devtools/") {
            bs
        } else {
            cat(bs, "/devtools/browser")
        }
    } else {
        cat(cat(owned("ws://"), bs.as_str()), "/devtools/browser")
    }
}

// ---------------------------------------------------------------------------
// Desktop keys
// ---------------------------------------------------------------------------

#[derive(Debug, Clone, Copy, PartialEq, Eq, Structural)]
pub enum DesktopKeyPlan {
    PressRefSend,
    PressRef,
}

impl DesktopKeyPlan {
    pub fn input_path(self) -> (r: &'static str)
        ensures
            r@ == (match self {
                DesktopKeyPlan::PressRefSend => "ax_press_send"@,
                DesktopKeyPlan::PressRef => "ax_press"@,
            }),
    {
        match self {
            DesktopKeyPlan::PressRefSend => "ax_press_send",
            DesktopKeyPlan::PressRef => "ax_press",
        }
    }
}

/// The canonical name of a key a desktop session understands.
pub open spec fn desktop_key_of(key: Seq<char>) -> Option<Seq<char>> {
    let k = lower(trim(key));
    if k == "esc"@ || k == "escape"@ {
        Some("escape"@)
    } else if k == "return"@ || k == "enter"@ || k == "keypadenter"@ {
        Some("return"@)
    } else if k == "space"@ || k == "spacebar"@ {
        Some("space"@)
    } else if k == "tab"@ {
        Some("tab"@)
    } else {
        None
    }
}

pub fn normalize_desktop_key(key: &str) -> (r: Option<&'static str>)
    ensures
        match (r, desktop_key_of(key@)) {
            (Some(a), Some(b)) => a@ == b,
            (None, None) => true,
            _ => false,
        },
{
    let k = lower_vec(&trimmed_of(key));
    if same_str(&k, "esc") || same_str(&k, "escape") {
        Some("escape")
    } else if same_str(&k, "return") || same_str(&k, "enter") || same_str(&k, "keypadenter") {
        Some("return")
    } else if same_str(&k, "space") || same_str(&k, "spacebar") {
        Some("space")
    } else if same_str(&k, "tab") {
        Some("tab")
    } else {
        None
    }
}

pub const DESKTOP_ESCAPE_REFUSED: &'static str = "Escape is not injected; the Stage HUD Esc abort is the cancel path";
pub const DESKTOP_RETURN_UNCONFIRMED: &'static str = "Return/Enter is gated; set args.confirm_send=true and target.ref of the Send control after the user asked to send";
pub const DESKTOP_RETURN_BLIND: &'static str = "blind Return is forbidden; pass target.ref of the Send button";
pub const DESKTOP_SPACE_NO_REF: &'static str = "space requires target.ref (AXPress, no HID keystroke)";
pub const DESKTOP_TAB_REFUSED: &'static str = "Tab is not injected; snapshot and click the next control ref";
pub const DESKTOP_UNKNOWN_HEAD: &'static str = "desktop key not implemented: ";

/// A desktop key request: pressed through a ref (AXPress), never as a HID keystroke;
/// Escape and Tab are never injected and Return needs explicit consent and a Send ref.
pub open spec fn desktop_key_plan(key: Seq<char>, confirm_send: bool, has_ref: bool) -> Result<
    DesktopKeyPlan,
    (ErrorCode, Seq<char>),
> {
    match desktop_key_of(key) {
        Some(k) => if k == "escape"@ {
            Err((ErrorCode::FocusPolicyViolation, DESKTOP_ESCAPE_REFUSED@))
        } else if k == "return"@ {
            if !confirm_send {
                Err((ErrorCode::FocusPolicyViolation, DESKTOP_RETURN_UNCONFIRMED@))
            } else if !has_ref {
                Err((ErrorCode::FocusPolicyViolation, DESKTOP_RETURN_BLIND@))
            } else {
                Ok(DesktopKeyPlan::PressRefSend)
            }
        } else if k == "space"@ {
            if !has_ref {
                Err((ErrorCode::InvalidInput, DESKTOP_SPACE_NO_REF@))
            } else {
                Ok(DesktopKeyPlan::PressRef)
            }
        } else {
            Err((ErrorCode::NotImplemented, DESKTOP_TAB_REFUSED@))
        },
        None => Err((ErrorCode::NotImplemented, DESKTOP_UNKNOWN_HEAD@ + key)),
    }
}

pub fn plan_desktop_key(key: &str, confirm_send: bool, has_ref: bool) -> (r: Result<DesktopKeyPlan, VcuError>)
    ensures
        match (r, desktop_key_plan(key@, confirm_send, has_ref)) {
            (Ok(p), Ok(q)) => p == q,
            (Err(e), Err((code, msg))) => e.code == code && e.message@ == msg,
            _ => false,
        },
{
    proof {
        reveal_strlit("escape");
        reveal_strlit("return");
        reveal_strlit("space");
        reveal_strlit("tab");
    }
    match normalize_desktop_key(key) {
        Some(k) => {
            if str_is(k, "escape") {
                Err(VcuError::coded(ErrorCode::FocusPolicyViolation, owned(DESKTOP_ESCAPE_REFUSED)))
            } else if str_is(k, "return") {
                if !confirm_send {
                    Err(VcuError::coded(ErrorCode::FocusPolicyViolation, owned(DESKTOP_RETURN_UNCONFIRMED)))
                } else if !has_ref {
                    Err(VcuError::coded(ErrorCode::FocusPolicyViolation, owned(DESKTOP_RETURN_BLIND)))
                } else {
                    Ok(DesktopKeyPlan::PressRefSend)
                }
            } else if str_is(k, "space") {
                if !has_ref {
                    Err(VcuError::coded(ErrorCode::InvalidInput, owned(DESKTOP_SPACE_NO_REF)))
                } else {
                    Ok(DesktopKeyPlan::PressRef)
                }
            } else {
                Err(VcuError::coded(ErrorCode::NotImplemented, owned(DESKTOP_TAB_REFUSED)))
            }
        },
        None => Err(VcuError::coded(ErrorCode::NotImplemented, cat(owned(DESKTOP_UNKNOWN_HEAD), key))),
    }
}

fn str_is(a: &str, b: &str) -> (r: bool)
    ensures
        r == (a@ == b@),
{
    crate::text::str_eq(a, b)
}

// ---------------------------------------------------------------------------
// Desktop scene refs
// ---------------------------------------------------------------------------

/// A window-level role in an AX or UIA scene.
pub open spec fn desktop_window_role(role: Seq<char>) -> bool {
    let r = lower(role);
    r == "window"@ || r == "axwindow"@ || begins(r, "controltype.window"@) || seq_has(r, "axwindow"@)
}

pub fn is_desktop_window_role(role: &str) -> (r: bool)
    ensures
        r == desktop_window_role(role@),
{
    let r = lower_of(role);
    same_str(&r, "window") || same_str(&r, "axwindow") || begins_str(&r, "controltype.window") || has_str(
        &r,
        "axwindow",
    )
}

/// An element of a desktop scene: its ref, role, name and (text) value.
#[derive(Debug, Clone)]
pub struct SceneRef {
    pub ref_id: String,
    pub role: String,
    pub name: String,
    pub value: Option<String>,
}

pub open spec fn opt_str(s: Option<&str>) -> Option<Seq<char>> {
    match s {
        Some(t) => Some(t@),
        None => None,
    }
}

pub open spec fn value_text(v: Option<String>) -> Seq<char> {
    match v {
        Some(s) => s@,
        None => Seq::empty(),
    }
}

/// The element satisfies every given filter: exact ref, name containment and role
/// (ignoring case), and value containment in `name + " " + value` (ignoring case).
pub open spec fn wait_filter(
    want_ref: Option<Seq<char>>,
    want_name: Option<Seq<char>>,
    want_role: Option<Seq<char>>,
    want_value: Option<Seq<char>>,
) -> spec_fn(SceneRef) -> bool {
    |r: SceneRef|
        (want_ref matches Some(w) ==> r.ref_id@ == w) && (want_name matches Some(w) ==> seq_has(
            unicode_lower(r.name@),
            unicode_lower(w),
        )) && (want_role matches Some(w) ==> eq_ignore_case(r.role@, w)) && (want_value matches Some(w)
            ==> seq_has(unicode_lower(r.name@ + " "@ + value_text(r.value)), unicode_lower(w)))
}

/// A matching element whose role is not a window.
pub open spec fn wait_control(
    want_ref: Option<Seq<char>>,
    want_name: Option<Seq<char>>,
    want_role: Option<Seq<char>>,
    want_value: Option<Seq<char>>,
) -> spec_fn(SceneRef) -> bool {
    |r: SceneRef|
        wait_filter(want_ref, want_name, want_role, want_value)(r) && !desktop_window_role(r.role@)
}

/// The ref a scene wait resolves to: with a wanted ref, the first match; otherwise the
/// first matching control, else the first matching window.
pub open spec fn scene_wait_of(
    refs: Seq<SceneRef>,
    want_ref: Option<Seq<char>>,
    want_name: Option<Seq<char>>,
    want_role: Option<Seq<char>>,
    want_value: Option<Seq<char>>,
) -> Option<Seq<char>> {
    let f = wait_filter(want_ref, want_name, want_role, want_value);
    let c = wait_control(want_ref, want_name, want_role, want_value);
    if want_ref is None && first_where(refs, c) is Some {
        Some(refs[first_where(refs, c)->0].ref_id@)
    } else {
        match first_where(refs, f) {
            Some(i) => Some(refs[i].ref_id@),
            None => None,
        }
    }
}

fn contains_lowered(hay: &str, needle: &str) -> (r: bool)
    ensures
        r == seq_has(unicode_lower(hay@), unicode_lower(needle@)),
{
    let h = to_lowercase(hay);
    let n = to_lowercase(needle);
    has_vec(&chars_of(h.as_str()), &chars_of(n.as_str()))
}

fn wait_hit(
    r: &SceneRef,
    want_ref: Option<&str>,
    want_name: Option<&str>,
    want_role: Option<&str>,
    want_value: Option<&str>,
) -> (b: bool)
    ensures
        b == wait_filter(opt_str(want_ref), opt_str(want_name), opt_str(want_role), opt_str(want_value))(
            *r,
        ),
{
    if let Some(w) = want_ref {
        if !str_is(r.ref_id.as_str(), w) {
            return false;
        }
    }
    if let Some(w) = want_name {
        if !contains_lowered(r.name.as_str(), w) {
            return false;
        }
    }
    if let Some(w) = want_role {
        if !same_ignore_case(&chars_of(r.role.as_str()), &chars_of(w)) {
            return false;
        }
    }
    if let Some(w) = want_value {
        let mut hay = cat(owned(r.name.as_str()), " ");
        match &r.value {
            Some(v) => {
                hay = cat(hay, v.as_str());
            },
            None => {},
        }
        assert(hay@ =~= r.name@ + " "@ + value_text(r.value)) by {
            reveal_strlit(" ");
        }
        if !contains_lowered(hay.as_str(), w) {
            return false;
        }
    }
    true
}

/// The ref a desktop-scene wait resolves to (see `scene_wait_of`).
pub fn scene_wait_match(
    refs: &[SceneRef],
    want_ref: Option<&str>,
    want_name: Option<&str>,
    want_role: Option<&str>,
    want_value: Option<&str>,
) -> (r: Option<String>)
    ensures
        match (r, scene_wait_of(
            refs@,
            opt_str(want_ref),
            opt_str(want_name),
            opt_str(want_role),
            opt_str(want_value),
        )) {
            (Some(a), Some(b)) => a@ == b,
            (None, None) => true,
            _ => false,
        },
{
    let ghost f = wait_filter(opt_str(want_ref), opt_str(want_name), opt_str(want_role), opt_str(want_value));
    let ghost c = wait_control(opt_str(want_ref), opt_str(want_name), opt_str(want_role), opt_str(want_value));
    let mut first: Option<usize> = None;
    let mut i: usize = 0;
    while i < refs.len()
        invariant
            i <= refs@.len(),
            f == wait_filter(opt_str(want_ref), opt_str(want_name), opt_str(want_role), opt_str(want_value)),
            c == wait_control(opt_str(want_ref), opt_str(want_name), opt_str(want_role), opt_str(want_value)),
            forall|j: int| 0 <= j < i ==> !c(#[trigger] refs@[j]),
            match first {
                Some(k) => k < i && is_first(refs@, f, k as int),
                None => forall|j: int| 0 <= j < i ==> !f(#[trigger] refs@[j]),
            },
            want_ref is Some ==> first is None,
        decreases refs.len() - i,
    {
        let hit = wait_hit(&refs[i], want_ref, want_name, want_role, want_value);
        if hit {
            if want_ref.is_some() {
                proof {
                    lemma_first_where(refs@, f, i as int);
                }
                return Some(owned(refs[i].ref_id.as_str()));
            }
            if !is_desktop_window_role(refs[i].role.as_str()) {
                proof {
                    assert(c(refs@[i as int]));
                    lemma_first_where(refs@, c, i as int);
                }
                return Some(owned(refs[i].ref_id.as_str()));
            }
            if first.is_none() {
                first = Some(i);
            }
        } else {
            assert(!c(refs@[i as int]));
        }
        i = i + 1;
    }
    proof {
        lemma_first_where_none(refs@, c);
    }
    match first {
        Some(k) => {
            proof {
                lemma_first_where(refs@, f, k as int);
            }
            Some(owned(refs[k].ref_id.as_str()))
        },
        None => {
            proof {
                lemma_first_where_none(refs@, f);
            }
            None
        },
    }
}

// ---------------------------------------------------------------------------
// Desktop scene waits, one round at a time
// ---------------------------------------------------------------------------

/// What `format!("{:?}", s)` prints for a `&str`: the text in double quotes, escaped as
/// `str`'s `Debug` escapes it.
pub uninterp spec fn debug_str_of(s: Seq<char>) -> Seq<char>;

/// `format!("{:?}", s)` for a `&str`. The escaping is named, not spelled out.
#[verifier::external_body]
pub(crate) fn debug_str(s: &str) -> (r: String)
    ensures
        r@ == debug_str_of(s@),
{
    format!("{:?}", s)
}

/// What `format!("{:?}", o)` prints for an `Option<&str>`, as the derived `Debug` of
/// `Option` writes it: `None`, or `Some(` + the text's `Debug` + `)`.
pub open spec fn debug_opt_str(o: Option<Seq<char>>) -> Seq<char> {
    match o {
        None => "None"@,
        Some(s) => "Some("@ + debug_str_of(s) + ")"@,
    }
}

pub(crate) fn debug_option(o: Option<&str>) -> (r: String)
    ensures
        r@ == debug_opt_str(opt_str(o)),
{
    match o {
        None => owned("None"),
        Some(s) => cat(cat(owned("Some("), debug_str(s).as_str()), ")"),
    }
}

/// A desktop wait: the element it waits for (any filter may be absent) and its time,
/// 100 ms unless given, at most 5 s.
#[derive(Debug, Clone)]
pub struct SceneWait {
    pub want_ref: Option<String>,
    pub want_name: Option<String>,
    pub want_role: Option<String>,
    pub want_value: Option<String>,
    pub ms: u64,
}

pub open spec fn opt_string_v(s: Option<String>) -> Option<Seq<char>> {
    match s {
        Some(t) => Some(t@),
        None => None,
    }
}

fn opt_as_str(s: &Option<String>) -> (r: Option<&str>)
    ensures
        opt_str(r) == opt_string_v(*s),
{
    match s {
        Some(t) => Some(t.as_str()),
        None => None,
    }
}

/// A wait with a filter: it ends when the scene shows a matching element.
pub open spec fn conditioned(w: SceneWait) -> bool {
    w.want_ref is Some || w.want_name is Some || w.want_role is Some || w.want_value is Some
}

/// What the host does next in a wait.
#[derive(Debug)]
pub enum SceneWaitNext {
    /// The wait is over: the element found (for a filtered wait) and the time waited.
    Done { found_ref: Option<String>, waited_ms: u64 },
    /// Sleep this long, then run the next round.
    Sleep { ms: u64 },
    /// The wait failed.
    Fail(VcuError),
}

pub const STAGE_ABORT_DURING_WAIT: &'static str = "stage abort during wait";

/// The message of a filtered wait that ran out of time.
pub open spec fn wait_timeout_text(w: SceneWait) -> Seq<char> {
    "wait timed out after "@ + nat_decimal(w.ms as nat) + "ms for ref="@ + debug_opt_str(opt_string_v(w.want_ref))
        + " name="@ + debug_opt_str(opt_string_v(w.want_name)) + " role="@ + debug_opt_str(opt_string_v(w.want_role))
        + " value="@ + debug_opt_str(opt_string_v(w.want_value))
}

/// One round of a wait, `elapsed_ms` after it started, with the Stage's abort flag and
/// the scene just read: an abort ends it; an unfiltered wait sleeps out its time in
/// slices of at most 50 ms; a filtered wait ends on a match (see `scene_wait_of`),
/// fails once its time (at least 1 ms) is up, and otherwise looks again in 50 ms.
pub open spec fn wait_round_ok(w: SceneWait, aborted: bool, elapsed_ms: u64, scene: Seq<SceneRef>, r: SceneWaitNext) -> bool {
    if aborted {
        r matches SceneWaitNext::Fail(e) && e.code == ErrorCode::SessionClosed && e.message@ == STAGE_ABORT_DURING_WAIT@
    } else if !conditioned(w) {
        if elapsed_ms >= w.ms {
            r matches SceneWaitNext::Done { found_ref: None, waited_ms } && waited_ms == w.ms
        } else {
            r matches SceneWaitNext::Sleep { ms } && ms == (if w.ms - elapsed_ms < 50 { w.ms - elapsed_ms } else { 50 })
        }
    } else {
        match scene_wait_of(
            scene,
            opt_string_v(w.want_ref),
            opt_string_v(w.want_name),
            opt_string_v(w.want_role),
            opt_string_v(w.want_value),
        ) {
            Some(found) => r matches SceneWaitNext::Done { found_ref: Some(f), waited_ms } && f@ == found && waited_ms
                == elapsed_ms,
            None => if elapsed_ms >= (if w.ms < 1 { 1 } else { w.ms }) {
                r matches SceneWaitNext::Fail(e) && e.code == ErrorCode::ActionFailed && e.message@ == wait_timeout_text(w)
            } else {
                r matches SceneWaitNext::Sleep { ms } && ms == 50
            },
        }
    }
}

impl SceneWait {
    /// A wait for `ms` (100 when absent, at most 5000) on the given filters.
    pub fn new(
        ms: Option<u64>,
        want_ref: Option<String>,
        want_name: Option<String>,
        want_role: Option<String>,
        want_value: Option<String>,
    ) -> (w: SceneWait)
        ensures
            w.ms == (match ms {
                Some(m) => if m < 5000 { m } else { 5000 },
                None => 100,
            }),
            w.want_ref == want_ref && w.want_name == want_name && w.want_role == want_role && w.want_value == want_value,
    {
        let m: u64 = match ms {
            Some(m) => if m < 5000 { m } else { 5000 },
            None => 100,
        };
        SceneWait { want_ref, want_name, want_role, want_value, ms: m }
    }

    /// One round (see `wait_round_ok`).
    pub fn round(&self, aborted: bool, elapsed_ms: u64, scene: &[SceneRef]) -> (r: SceneWaitNext)
        ensures
            wait_round_ok(*self, aborted, elapsed_ms, scene@, r),
    {
        if aborted {
            return SceneWaitNext::Fail(VcuError::coded(ErrorCode::SessionClosed, owned(STAGE_ABORT_DURING_WAIT)));
        }
        let cond = self.want_ref.is_some() || self.want_name.is_some() || self.want_role.is_some()
            || self.want_value.is_some();
        if !cond {
            if elapsed_ms >= self.ms {
                return SceneWaitNext::Done { found_ref: None, waited_ms: self.ms };
            }
            let left = self.ms - elapsed_ms;
            return SceneWaitNext::Sleep { ms: if left < 50 { left } else { 50 } };
        }
        let want_ref = opt_as_str(&self.want_ref);
        let want_name = opt_as_str(&self.want_name);
        let want_role = opt_as_str(&self.want_role);
        let want_value = opt_as_str(&self.want_value);
        match scene_wait_match(scene, want_ref, want_name, want_role, want_value) {
            Some(f) => SceneWaitNext::Done { found_ref: Some(f), waited_ms: elapsed_ms },
            None => {
                let budget: u64 = if self.ms < 1 { 1 } else { self.ms };
                if elapsed_ms >= budget {
                    let msg = cat(
                        cat(
                            cat(
                                cat(
                                    cat(
                                        cat(
                                            cat(
                                                cat(cat(owned("wait timed out after "), u64_string(self.ms).as_str()), "ms for ref="),
                                                debug_option(want_ref).as_str(),
                                            ),
                                            " name=",
                                        ),
                                        debug_option(want_name).as_str(),
                                    ),
                                    " role=",
                                ),
                                debug_option(want_role).as_str(),
                            ),
                            " value=",
                        ),
                        debug_option(want_value).as_str(),
                    );
                    SceneWaitNext::Fail(VcuError::coded(ErrorCode::ActionFailed, msg))
                } else {
                    SceneWaitNext::Sleep { ms: 50 }
                }
            },
        }
    }
}

// ---------------------------------------------------------------------------
// Extract and wait over scene elements
// ---------------------------------------------------------------------------

/// An element matches an extract selector: a blank or `*` selector matches everything;
/// otherwise the ref equals it, or the role, name or value contains it (ASCII case
/// ignored, the selector trimmed).
pub open spec fn selector_hit(selector: Seq<char>) -> spec_fn(SceneRef) -> bool {
    |r: SceneRef|
        {
            let sel = trim(selector);
            let needle = lower(sel);
            sel.len() == 0 || sel == "*"@ || eq_ignore_case(r.ref_id@, sel) || seq_has(lower(r.role@), needle)
                || seq_has(lower(r.name@), needle) || seq_has(lower(value_text(r.value)), needle)
        }
}

/// The indices of `s` at which `p` holds, in order.
pub open spec fn hit_indices<T>(s: Seq<T>, p: spec_fn(T) -> bool) -> Seq<int>
    decreases s.len(),
{
    if s.len() == 0 {
        Seq::empty()
    } else {
        let before = hit_indices(s.drop_last(), p);
        if p(s.last()) {
            before.push(s.len() - 1)
        } else {
            before
        }
    }
}

pub open spec fn usize_ints(v: Seq<usize>) -> Seq<int> {
    v.map_values(|i: usize| i as int)
}

fn selector_hit_exec(r: &SceneRef, sel: &Vec<char>, needle: &Vec<char>, star: bool) -> (b: bool)
    requires
        star == (sel@.len() == 0 || sel@ == "*"@),
        needle@ == lower(sel@),
    ensures
        b == (star || eq_ignore_case(r.ref_id@, sel@) || seq_has(lower(r.role@), needle@) || seq_has(
            lower(r.name@),
            needle@,
        ) || seq_has(lower(value_text(r.value)), needle@)),
{
    if star {
        return true;
    }
    if same_ignore_case(&chars_of(r.ref_id.as_str()), sel) {
        return true;
    }
    if has_vec(&lower_of(r.role.as_str()), needle) || has_vec(&lower_of(r.name.as_str()), needle) {
        return true;
    }
    match &r.value {
        Some(v) => has_vec(&lower_of(v.as_str()), needle),
        None => {
            let e: Vec<char> = Vec::new();
            assert(e@ =~= lower(value_text(r.value)));
            has_vec(&lower_vec(&e), needle)
        },
    }
}

/// The indices of the elements an extract selector matches, in order.
pub fn selector_matches(refs: &[SceneRef], selector: &str) -> (r: Vec<usize>)
    ensures
        usize_ints(r@) == hit_indices(refs@, selector_hit(selector@)),
{
    let sel = trimmed_of(selector);
    let star = sel.len() == 0 || same_str(&sel, "*");
    let needle = lower_vec(&sel);
    let ghost p = selector_hit(selector@);
    let mut out: Vec<usize> = Vec::new();
    let mut i: usize = 0;
    while i < refs.len()
        invariant
            i <= refs@.len(),
            sel@ == trim(selector@),
            star == (sel@.len() == 0 || sel@ == "*"@),
            needle@ == lower(sel@),
            p == selector_hit(selector@),
            usize_ints(out@) == hit_indices(refs@.take(i as int), p),
        decreases refs.len() - i,
    {
        let ghost before = out@;
        proof {
            let t = refs@.take(i + 1);
            assert(t.drop_last() =~= refs@.take(i as int));
            assert(t.last() == refs@[i as int]);
        }
        if selector_hit_exec(&refs[i], &sel, &needle, star) {
            out.push(i);
            assert(usize_ints(out@) =~= usize_ints(before).push(i as int));
        }
        i = i + 1;
    }
    assert(refs@.take(i as int) =~= refs@);
    out
}

/// An element a window wait accepts: exact ref; name containing the wanted name
/// (Unicode lower case); role containing the wanted role (ASCII lower case).
pub open spec fn element_wait_hit(
    want_ref: Option<Seq<char>>,
    want_name: Option<Seq<char>>,
    want_role: Option<Seq<char>>,
) -> spec_fn(SceneRef) -> bool {
    |r: SceneRef|
        (want_ref matches Some(w) ==> r.ref_id@ == w) && (want_name matches Some(w) ==> seq_has(
            unicode_lower(r.name@),
            unicode_lower(w),
        )) && (want_role matches Some(w) ==> seq_has(lower(r.role@), lower(w)))
}

/// The first element a window wait accepts.
pub fn element_wait_match(
    elements: &[SceneRef],
    want_ref: Option<&str>,
    want_name: Option<&str>,
    want_role: Option<&str>,
) -> (r: Option<String>)
    ensures
        match (r, first_where(elements@, element_wait_hit(opt_str(want_ref), opt_str(want_name), opt_str(want_role)))) {
            (Some(a), Some(i)) => a@ == elements@[i].ref_id@,
            (None, None) => true,
            _ => false,
        },
{
    let ghost p = element_wait_hit(opt_str(want_ref), opt_str(want_name), opt_str(want_role));
    let mut i: usize = 0;
    while i < elements.len()
        invariant
            i <= elements@.len(),
            p == element_wait_hit(opt_str(want_ref), opt_str(want_name), opt_str(want_role)),
            forall|j: int| 0 <= j < i ==> !p(#[trigger] elements@[j]),
        decreases elements.len() - i,
    {
        let e = &elements[i];
        let mut ok = true;
        if let Some(w) = want_ref {
            if !str_is(e.ref_id.as_str(), w) {
                ok = false;
            }
        }
        if ok {
            if let Some(w) = want_name {
                if !contains_lowered(e.name.as_str(), w) {
                    ok = false;
                }
            }
        }
        if ok {
            if let Some(w) = want_role {
                if !has_vec(&lower_of(e.role.as_str()), &lower_of(w)) {
                    ok = false;
                }
            }
        }
        if ok {
            proof {
                lemma_first_where(elements@, p, i as int);
            }
            return Some(owned(e.ref_id.as_str()));
        }
        i = i + 1;
    }
    proof {
        lemma_first_where_none(elements@, p);
    }
    None
}

/// Desktop keys are pressed only through a ref (never as a HID keystroke); Return only
/// with explicit consent; Escape and Tab never.
pub proof fn lemma_desktop_keys_need_ref_and_consent(key: Seq<char>, confirm_send: bool, has_ref: bool)
    ensures
        desktop_key_plan(key, confirm_send, has_ref) is Ok ==> has_ref,
        (desktop_key_plan(key, confirm_send, has_ref) matches Ok(DesktopKeyPlan::PressRefSend)) ==> confirm_send
            && desktop_key_of(key) == Some("return"@),
        desktop_key_of(key) == Some("escape"@) || desktop_key_of(key) == Some("tab"@) ==> desktop_key_plan(
            key,
            confirm_send,
            has_ref,
        ) is Err,
{
    reveal_strlit("escape");
    reveal_strlit("return");
    reveal_strlit("space");
    reveal_strlit("tab");
    assert("tab"@.len() != "escape"@.len());
    assert("tab"@.len() != "return"@.len());
    assert("tab"@.len() != "space"@.len());
}

/// A wait for a ref resolves to that very ref, or to nothing.
pub proof fn lemma_wait_for_ref_finds_it(
    refs: Seq<SceneRef>,
    want: Seq<char>,
    want_name: Option<Seq<char>>,
    want_role: Option<Seq<char>>,
    want_value: Option<Seq<char>>,
)
    ensures
        scene_wait_of(refs, Some(want), want_name, want_role, want_value) matches Some(found) ==> found == want,
{
    let f = wait_filter(Some(want), want_name, want_role, want_value);
    crate::login_state::lemma_first_where_some(refs, f);
}

} // verus!
