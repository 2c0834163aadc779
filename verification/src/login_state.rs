//! User-profile vs empty Agent-profile browsers.
//! Login-state computer use attaches to the *user* window (desktop Scene).
//! Never click Chromium "Allow debugging".
use vstd::prelude::*;
use crate::error::{ErrorCode, VcuError};
use crate::text::{
    all_digits, begins, begins_str, cat, chars_of, cut, cut_vec, eq_ignore_case, has_str, is_digit, last_piece,
    last_piece_vec, lower, lower_of, lower_vec, owned, parse_i32, parse_i32_vec, same_ignore_case,
    same_str, same_vec, seq_has, string_of, trim, trim_str, trim_vec, trimmed_of,
};
use vstd::string::StringSliceAdditionalSpecFns;
use vstd::utf8::{decode_utf8, encode_utf8, is_char_boundary};

verus! {

broadcast use vstd::string::group_string_axioms;

#[derive(Debug, Clone, Copy, PartialEq, Eq, Structural)]
pub enum BrowserProfile {
    User,
    Agent,
    Helper,
    App,
}

pub open spec fn profile_name(p: BrowserProfile) -> Seq<char> {
    match p {
        BrowserProfile::User => "user"@,
        BrowserProfile::Agent => "agent"@,
        BrowserProfile::Helper => "helper"@,
        BrowserProfile::App => "app"@,
    }
}

impl BrowserProfile {
    pub fn as_str(self) -> (s: &'static str)
        ensures
            s@ == profile_name(self),
    {
        match self {
            BrowserProfile::User => "user",
            BrowserProfile::Agent => "agent",
            BrowserProfile::Helper => "helper",
            BrowserProfile::App => "app",
        }
    }
}

/// A command line that points at a `.vcu` directory, with either path separator.
pub open spec fn uses_vcu_dir(cmd: Seq<char>) -> bool {
    seq_has(cmd, "/.vcu/"@) || seq_has(cmd, "\\.vcu\\"@) || seq_has(cmd, "/.vcu\\"@) || seq_has(
        cmd,
        "\\.vcu/"@,
    )
}

/// How a process is classified from its name and command line.
pub open spec fn browser_profile_of(process_name: Seq<char>, command: Seq<char>) -> BrowserProfile {
    let name = lower(process_name);
    let cmd = lower(command);
    let is_browser = seq_has(name, "edge"@) || seq_has(name, "chrome"@) || seq_has(name, "chromium"@)
        || seq_has(cmd, "microsoft edge"@) || seq_has(cmd, "google chrome"@) || seq_has(
        cmd,
        "chromium"@,
    );
    if !is_browser {
        BrowserProfile::App
    } else if seq_has(cmd, "--type="@) || seq_has(cmd, "crashpad"@) || seq_has(cmd, "helper ("@)
        || seq_has(cmd, "helper.app"@) {
        BrowserProfile::Helper
    } else if seq_has(cmd, "edge-agent-profile"@) || seq_has(cmd, "chrome-agent-profile"@) || (
    seq_has(cmd, "--user-data-dir="@) && uses_vcu_dir(cmd)) {
        BrowserProfile::Agent
    } else {
        BrowserProfile::User
    }
}

fn command_uses_vcu_dir(cmd: &Vec<char>) -> (r: bool)
    ensures
        r == uses_vcu_dir(cmd@),
{
    has_str(cmd, "/.vcu/") || has_str(cmd, "\\.vcu\\") || has_str(cmd, "/.vcu\\") || has_str(
        cmd,
        "\\.vcu/",
    )
}

/// Classify a process from its name + `ps` command line.
pub fn classify_browser_command(process_name: &str, command: &str) -> (p: BrowserProfile)
    ensures
        p == browser_profile_of(process_name@, command@),
{
    let name = lower_of(process_name);
    let cmd = lower_of(command);
    let is_browser = has_str(&name, "edge") || has_str(&name, "chrome") || has_str(&name, "chromium")
        || has_str(&cmd, "microsoft edge") || has_str(&cmd, "google chrome") || has_str(
        &cmd,
        "chromium",
    );
    if !is_browser {
        return BrowserProfile::App;
    }
    if has_str(&cmd, "--type=") || has_str(&cmd, "crashpad") || has_str(&cmd, "helper (") || has_str(
        &cmd,
        "helper.app",
    ) {
        return BrowserProfile::Helper;
    }
    if has_str(&cmd, "edge-agent-profile") || has_str(&cmd, "chrome-agent-profile") || (has_str(
        &cmd,
        "--user-data-dir=",
    ) && command_uses_vcu_dir(&cmd)) {
        return BrowserProfile::Agent;
    }
    BrowserProfile::User
}

/// The profile name reported for a process whose `ps` command line is `command`
/// (`None` when the pid is unknown or `ps` printed nothing): only user and agent
/// browsers are named.
pub fn profile_for_pid(process_name: &str, command: Option<&str>) -> (r: Option<&'static str>)
    ensures
        match command {
            None => r is None,
            Some(c) => match browser_profile_of(process_name@, c@) {
                BrowserProfile::App | BrowserProfile::Helper => r is None,
                p => r matches Some(s) && s@ == profile_name(p),
            },
        },
{
    let cmd = match command {
        Some(c) => c,
        None => return None,
    };
    match classify_browser_command(process_name, cmd) {
        BrowserProfile::App | BrowserProfile::Helper => None,
        other => Some(other.as_str()),
    }
}

/// Automation infobar / "Allow debugging" prompt detection on a window text blob.
pub open spec fn debug_ui_of(blob: Seq<char>) -> (bool, bool) {
    let b = lower(blob);
    let automation = seq_has(b, "自动测试"@) || seq_has(b, "controlled by automated"@) || seq_has(
        b,
        "being controlled by automated test"@,
    );
    let allow = seq_has(b, "allow debugging"@) || seq_has(b, "允许调试"@) || (seq_has(b, "allow"@)
        && seq_has(b, "debugging"@));
    (automation, allow)
}

pub fn classify_debug_ui(blob: &str) -> (r: (bool, bool))
    ensures
        r == debug_ui_of(blob@),
{
    let b = lower_of(blob);
    let automation = has_str(&b, "自动测试") || has_str(&b, "controlled by automated") || has_str(
        &b,
        "being controlled by automated test",
    );
    let allow = has_str(&b, "allow debugging") || has_str(&b, "允许调试") || (has_str(&b, "allow")
        && has_str(&b, "debugging"));
    (automation, allow)
}

pub open spec fn opt_text(s: Option<&str>) -> Seq<char> {
    match s {
        Some(t) => t@,
        None => Seq::empty(),
    }
}

/// A stale extension service worker answers `ping` with "unknown method".
pub open spec fn is_stale_error(message: Seq<char>, detail: Seq<char>) -> bool {
    let blob = lower(message + seq![' '] + detail);
    seq_has(blob, "unknown method ping"@) || seq_has(blob, "unknown method"@)
}

pub fn extension_error_is_stale(message: &str, detail: Option<&str>) -> (r: bool)
    ensures
        r == is_stale_error(message@, opt_text(detail)),
{
    let mut blob = chars_of(message);
    blob.push(' ');
    if let Some(d) = detail {
        let mut dv = chars_of(d);
        blob.append(&mut dv);
    }
    proof {
        assert(blob@ =~= message@ + seq![' '] + opt_text(detail));
    }
    let b = lower_vec(&blob);
    has_str(&b, "unknown method ping") || has_str(&b, "unknown method")
}

pub const NEXT_STALE_HEAD: &'static str = "USER Edge extension SW is stale (ping unknown method). Open edge://extensions and click Reload on VCU Browser Bridge (unpacked ";
pub const NEXT_STALE_TAIL: &'static str = "). Then `vcu browser ping` must pong. Never click Allow.";
pub const NEXT_NO_USER_BROWSER: &'static str = "Open the USER Chrome/Edge (logged-in profile), not Agent Edge.";
pub const NEXT_INSTALL_LENS: &'static str = "Run `vcu browser install-lens`, then Load unpacked in USER Edge. CDP is abandoned; never click Allow.";
pub const NEXT_LOAD_HEAD: &'static str = "In USER Edge open edge://extensions, Developer mode, Load unpacked → ";
pub const NEXT_LOAD_TAIL: &'static str = ". Then `vcu browser login-state` should show extension_profile=user. Observe without waiting: `vcu browser observe`. CDP is abandoned; never click Allow.";
pub const NEXT_LENS_ON_USER: &'static str = "Login-state DOM lens is on the USER browser. `vcu browser ping` must pong; then `vcu browser observe` and view the PNG. For 60s, click/screenshot/open without tab_id bind last observe. `vcu browser extract` source must be extension_dom. Do not use Agent Edge. CDP is abandoned; never click Allow.";

/// The advice shown to the operator. The Allow-dialog flag never changes it: CDP is
/// abandoned, so the user is never asked to click Allow.
pub open spec fn next_action_of(
    no_user_browser: bool,
    lens_copied: bool,
    extension_profile: Seq<char>,
    lens_dir: Seq<char>,
    sw_stale: bool,
) -> Seq<char> {
    if sw_stale {
        NEXT_STALE_HEAD@ + lens_dir + NEXT_STALE_TAIL@
    } else if no_user_browser {
        NEXT_NO_USER_BROWSER@
    } else if !lens_copied {
        NEXT_INSTALL_LENS@
    } else if extension_profile != "user"@ {
        NEXT_LOAD_HEAD@ + lens_dir + NEXT_LOAD_TAIL@
    } else {
        NEXT_LENS_ON_USER@
    }
}

pub fn login_next_action(
    no_user_browser: bool,
    lens_copied: bool,
    extension_profile: &str,
    allow_dialog: bool,
    lens_dir: &str,
    sw_stale: bool,
) -> (r: String)
    ensures
        r@ == next_action_of(no_user_browser, lens_copied, extension_profile@, lens_dir@, sw_stale),
{
    let _ = allow_dialog;  // CDP abandoned: never ask the user to click Allow.
    if sw_stale {
        return cat(cat(owned(NEXT_STALE_HEAD), lens_dir), NEXT_STALE_TAIL);
    }
    if no_user_browser {
        return owned(NEXT_NO_USER_BROWSER);
    }
    if !lens_copied {
        return owned(NEXT_INSTALL_LENS);
    }
    let profile = chars_of(extension_profile);
    if !same_str(&profile, "user") {
        return cat(cat(owned(NEXT_LOAD_HEAD), lens_dir), NEXT_LOAD_TAIL);
    }
    owned(NEXT_LENS_ON_USER)
}


/// A browser process seen on the host.
#[derive(Debug, Clone)]
pub struct BrowserProc {
    pub pid: i32,
    pub name: String,
    pub profile: String,
    pub command_excerpt: String,
}

pub const EXCERPT_MAX_BYTES: usize = 180;

/// The UTF-8 bytes of the trimmed command line.
pub open spec fn trimmed_bytes(cmd: Seq<char>) -> Seq<u8> {
    encode_utf8(trim(cmd))
}

/// A command line fit for a report: trimmed, and cut to its first 180 bytes plus an
/// ellipsis when longer.
pub open spec fn excerpt_of(cmd: Seq<char>) -> Seq<char> {
    if trimmed_bytes(cmd).len() <= EXCERPT_MAX_BYTES {
        trim(cmd)
    } else {
        decode_utf8(trimmed_bytes(cmd).take(EXCERPT_MAX_BYTES as int)) + "…"@
    }
}

/// A cut after 180 bytes must not split a character (and the byte length of the
/// trimmed text fits in `usize`, as every string's does).
pub open spec fn excerpt_cut_ok(cmd: Seq<char>) -> bool {
    &&& trimmed_bytes(cmd).len() <= usize::MAX
    &&& trimmed_bytes(cmd).len() > EXCERPT_MAX_BYTES ==> is_char_boundary(
        trimmed_bytes(cmd),
        EXCERPT_MAX_BYTES as int,
    )
}

fn excerpt(cmd: &str) -> (r: String)
    requires
        excerpt_cut_ok(cmd@),
    ensures
        r@ == excerpt_of(cmd@),
{
    let t = trim_str(cmd);
    if t.len() <= EXCERPT_MAX_BYTES {
        owned(t)
    } else {
        let (head, _) = t.split_at(EXCERPT_MAX_BYTES);
        proof {
            vstd::utf8::encode_utf8_decode_utf8(head@);
            assert(encode_utf8(head@) =~= trimmed_bytes(cmd@).take(EXCERPT_MAX_BYTES as int));
        }
        cat(owned(head), "…")
    }
}

/// A command line that carries the VCU bridge extension.
pub open spec fn looks_vcu_ext(c: Seq<char>) -> bool {
    let c = lower(c);
    seq_has(c, "load-extension"@) || seq_has(c, "disable-extensions-except"@) || seq_has(
        c,
        "edge-agent-profile"@,
    ) || seq_has(c, "share/vcu"@)
}

/// A user browser running the extension outside the agent profile.
pub open spec fn user_has_ext(c: Seq<char>) -> bool {
    looks_vcu_ext(c) && !seq_has(lower(c), "edge-agent-profile"@) && !seq_has(lower(c), "/.vcu/"@)
}

/// Where the VCU extension is loaded: the user browser, the agent browser, or nowhere.
pub open spec fn extension_profile_of(user: Seq<BrowserProc>, agent: Seq<BrowserProc>) -> Seq<char> {
    if exists|i: int| 0 <= i < user.len() && user_has_ext(#[trigger] user[i].command_excerpt@) {
        "user"@
    } else if exists|i: int| 0 <= i < agent.len() && looks_vcu_ext(#[trigger] agent[i].command_excerpt@) {
        "agent"@
    } else {
        "none"@
    }
}

fn looks_vcu_ext_exec(c: &String) -> (r: bool)
    ensures
        r == looks_vcu_ext(c@),
{
    let l = lower_of(c.as_str());
    has_str(&l, "load-extension") || has_str(&l, "disable-extensions-except") || has_str(
        &l,
        "edge-agent-profile",
    ) || has_str(&l, "share/vcu")
}

pub fn classify_extension_profile(user: &[BrowserProc], agent: &[BrowserProc]) -> (r: &'static str)
    ensures
        r@ == extension_profile_of(user@, agent@),
{
    let mut i: usize = 0;
    while i < user.len()
        invariant
            i <= user.len(),
            forall|k: int| 0 <= k < i ==> !user_has_ext(#[trigger] user@[k].command_excerpt@),
        decreases user.len() - i,
    {
        let c = &user[i].command_excerpt;
        let l = lower_of(c.as_str());
        if looks_vcu_ext_exec(c) && !has_str(&l, "edge-agent-profile") && !has_str(&l, "/.vcu/") {
            return "user";
        }
        i = i + 1;
    }
    let mut j: usize = 0;
    while j < agent.len()
        invariant
            j <= agent.len(),
            !exists|k: int| 0 <= k < user@.len() && user_has_ext(#[trigger] user@[k].command_excerpt@),
            forall|k: int| 0 <= k < j ==> !looks_vcu_ext(#[trigger] agent@[k].command_excerpt@),
        decreases agent.len() - j,
    {
        if looks_vcu_ext_exec(&agent[j].command_excerpt) {
            return "agent";
        }
        j = j + 1;
    }
    "none"
}

/// The display name of a user browser: Edge when the name or command mentions it, else Chrome.
pub open spec fn display_name_of(process_name: Seq<char>, command: Seq<char>) -> Seq<char> {
    if seq_has(lower(process_name + seq![' '] + command), "edge"@) {
        "Microsoft Edge"@
    } else {
        "Chrome"@
    }
}

fn browser_display_name(process_name: &str, command: &str) -> (r: String)
    ensures
        r@ == display_name_of(process_name@, command@),
{
    let mut blob = chars_of(process_name);
    blob.push(' ');
    let mut c = chars_of(command);
    blob.append(&mut c);
    assert(blob@ =~= process_name@ + seq![' '] + command@);
    let l = lower_vec(&blob);
    if has_str(&l, "edge") {
        owned("Microsoft Edge")
    } else {
        owned("Chrome")
    }
}

/// `p` is the report entry for process `pid` with the given display name, profile and command.
pub open spec fn proc_is(
    p: BrowserProc,
    pid: i32,
    name: Seq<char>,
    profile: BrowserProfile,
    command: Seq<char>,
) -> bool {
    &&& p.pid == pid
    &&& p.name@ == name
    &&& p.profile@ == profile_name(profile)
    &&& p.command_excerpt@ == excerpt_of(command)
}

/// The effect of scanning one process: user browsers and agent browsers are recorded,
/// helpers and other apps are dropped.
pub open spec fn ingested(
    old_user: Seq<BrowserProc>,
    old_agent: Seq<BrowserProc>,
    new_user: Seq<BrowserProc>,
    new_agent: Seq<BrowserProc>,
    pid: i32,
    process_name: Seq<char>,
    command: Seq<char>,
) -> bool {
    match browser_profile_of(process_name, command) {
        BrowserProfile::User => {
            &&& new_agent == old_agent
            &&& new_user.len() == old_user.len() + 1
            &&& new_user.take(old_user.len() as int) == old_user
            &&& proc_is(
                new_user.last(),
                pid,
                display_name_of(process_name, command),
                BrowserProfile::User,
                command,
            )
        },
        BrowserProfile::Agent => {
            &&& new_user == old_user
            &&& new_agent.len() == old_agent.len() + 1
            &&& new_agent.take(old_agent.len() as int) == old_agent
            &&& proc_is(new_agent.last(), pid, "Agent Edge"@, BrowserProfile::Agent, command)
        },
        _ => new_user == old_user && new_agent == old_agent,
    }
}

/// A scanned row can be recorded: when it is a user or agent browser (the rows that are
/// excerpted), its command line can be cut after 180 bytes.
pub open spec fn row_cut_ok(process_name: Seq<char>, command: Seq<char>) -> bool {
    (browser_profile_of(process_name, command) is User || browser_profile_of(process_name, command) is Agent)
        ==> excerpt_cut_ok(command)
}

pub fn ingest_scanned_browser(
    pid: i32,
    process_name: &str,
    command: &str,
    user_browsers: &mut Vec<BrowserProc>,
    agent_browsers: &mut Vec<BrowserProc>,
)
    requires
        row_cut_ok(process_name@, command@),
    ensures
        ingested(
            old(user_browsers)@,
            old(agent_browsers)@,
            final(user_browsers)@,
            final(agent_browsers)@,
            pid,
            process_name@,
            command@,
        ),
{
    let kind = classify_browser_command(process_name, command);
    match kind {
        BrowserProfile::User => {
            let p = BrowserProc {
                pid,
                name: browser_display_name(process_name, command),
                profile: owned(kind.as_str()),
                command_excerpt: excerpt(command),
            };
            user_browsers.push(p);
            assert(user_browsers@.take(old(user_browsers)@.len() as int) =~= old(user_browsers)@);
        },
        BrowserProfile::Agent => {
            let p = BrowserProc {
                pid,
                name: owned("Agent Edge"),
                profile: owned(kind.as_str()),
                command_excerpt: excerpt(command),
            };
            agent_browsers.push(p);
            assert(agent_browsers@.take(old(agent_browsers)@.len() as int) =~= old(agent_browsers)@);
        },
        _ => {},
    }
}

/// `pid<TAB>name<TAB>command` as the Windows process scan prints it.
pub open spec fn windows_browser_line_of(line: Seq<char>) -> Option<(i32, Seq<char>, Seq<char>)> {
    let first = cut(line, '\t');
    match first.1 {
        None => None,
        Some(rest) => {
            let second = cut(rest, '\t');
            match (parse_i32(trim(first.0)), second.1) {
                (Some(pid), Some(cmd)) => if trim(second.0).len() == 0 {
                    None
                } else {
                    Some((pid, trim(second.0), trim(cmd)))
                },
                _ => None,
            }
        },
    }
}

pub fn parse_windows_browser_line(line: &str) -> (r: Option<(i32, String, String)>)
    ensures
        match (r, windows_browser_line_of(line@)) {
            (Some(got), Some(want)) => got.0 == want.0 && got.1@ == want.1 && got.2@ == want.2,
            (None, None) => true,
            _ => false,
        },
{
    let v = chars_of(line);
    let (first, rest) = cut_vec(&v, '\t');
    let rest = match rest {
        Some(r) => r,
        None => return None,
    };
    let pid = match parse_i32_vec(&trim_vec(&first)) {
        Some(p) => p,
        None => return None,
    };
    let (second, third) = cut_vec(&rest, '\t');
    let third = match third {
        Some(t) => t,
        None => return None,
    };
    let name = trim_vec(&second);
    let cmd = trim_vec(&third);
    if name.len() == 0 {
        return None;
    }
    Some((pid, string_of(&name), string_of(&cmd)))
}


/// Whether a user-browser name denotes the frontmost application.
pub open spec fn is_frontmost_name(name: Seq<char>, frontmost: Seq<char>) -> bool {
    let n = lower(name);
    let f = lower(frontmost);
    if seq_has(n, "edge"@) {
        seq_has(f, "edge"@)
    } else if seq_has(n, "chrome"@) {
        seq_has(f, "chrome"@) && !seq_has(f, "edge"@)
    } else {
        n == f
    }
}

pub fn browser_name_is_frontmost(name: &str, frontmost: &str) -> (r: bool)
    ensures
        r == is_frontmost_name(name@, frontmost@),
{
    let n = lower_of(name);
    let f = lower_of(frontmost);
    if has_str(&n, "edge") {
        return has_str(&f, "edge");
    }
    if has_str(&n, "chrome") {
        return has_str(&f, "chrome") && !has_str(&f, "edge");
    }
    same_vec(&n, &f)
}

/// Frontmost browsers first, everything else after, each group in its original order.
pub open spec fn frontmost_first(users: Seq<BrowserProc>, front: Seq<char>) -> Seq<BrowserProc> {
    users.filter(is_front_pred(front)) + users.filter(not_front_pred(front))
}

pub open spec fn is_front_pred(front: Seq<char>) -> spec_fn(BrowserProc) -> bool {
    |u: BrowserProc| is_frontmost_name(u.name@, front)
}

pub open spec fn not_front_pred(front: Seq<char>) -> spec_fn(BrowserProc) -> bool {
    |u: BrowserProc| !is_frontmost_name(u.name@, front)
}

/// The order of user browsers in a report: a (stable) frontmost-first order when a
/// non-blank frontmost name is known.
pub open spec fn ordered_users(users: Seq<BrowserProc>, frontmost: Option<Seq<char>>) -> Seq<BrowserProc> {
    match frontmost {
        Some(f) => if trim(f).len() == 0 {
            users
        } else {
            frontmost_first(users, trim(f))
        },
        None => users,
    }
}

pub open spec fn opt_view(s: Option<&str>) -> Option<Seq<char>> {
    match s {
        Some(t) => Some(t@),
        None => None,
    }
}

pub fn order_user_browsers_frontmost_first(users: Vec<BrowserProc>, frontmost: Option<&str>) -> (r: Vec<BrowserProc>)
    ensures
        r@ == ordered_users(users@, opt_view(frontmost)),
{
    let front = match frontmost {
        Some(f) => trim_str(f),
        None => return users,
    };
    if front.unicode_len() == 0 {
        return users;
    }
    let ghost fv = front@;
    let ghost orig = users@;
    let mut first: Vec<BrowserProc> = Vec::new();
    let mut rest: Vec<BrowserProc> = Vec::new();
    let mut users = users;
    let _n = users.len();
    let mut taken: usize = 0;
    assert(orig.take(0).filter(is_front_pred(fv)) =~= Seq::<BrowserProc>::empty()) by {
        reveal_with_fuel(Seq::<_>::filter, 1);
    }
    assert(orig.take(0).filter(not_front_pred(fv)) =~= Seq::<BrowserProc>::empty()) by {
        reveal_with_fuel(Seq::<_>::filter, 1);
    }
    while users.len() > 0
        invariant
            taken + users@.len() == orig.len(),
            orig.len() <= usize::MAX,
            fv == front@,
            users@ == orig.skip(taken as int),
            first@ == orig.take(taken as int).filter(is_front_pred(fv)),
            rest@ == orig.take(taken as int).filter(not_front_pred(fv)),
        decreases users@.len(),
    {
        let u = users.remove(0);
        proof {
            assert(orig.skip(taken as int)[0] == u);
            assert(orig.take(taken + 1).drop_last() =~= orig.take(taken as int));
            assert(orig.take(taken + 1).last() == u);
            let a = orig.take(taken + 1);
            let b = orig.take(taken as int);
            assert(a.filter(is_front_pred(fv)) == if is_front_pred(fv)(u) { b.filter(is_front_pred(fv)).push(u) } else { b.filter(is_front_pred(fv)) }) by {
                reveal_with_fuel(Seq::<_>::filter, 1);
                assert(a.len() > 0);
                assert(a.drop_last() == b);
            }
            assert(a.filter(not_front_pred(fv)) == if not_front_pred(fv)(u) { b.filter(not_front_pred(fv)).push(u) } else { b.filter(not_front_pred(fv)) }) by {
                reveal_with_fuel(Seq::<_>::filter, 1);
                assert(a.len() > 0);
                assert(a.drop_last() == b);
            }
        }
        let is_front = browser_name_is_frontmost(u.name.as_str(), front);
        if is_front {
            first.push(u);
        } else {
            rest.push(u);
        }
        taken = taken + 1;
        assert(users@ =~= orig.skip(taken as int));
    }
    assert(orig.take(taken as int) =~= orig);
    first.append(&mut rest);
    first
}

/// The extension browser kind (`edge` / `chrome`) of a desktop app id; WeChat never maps.
pub open spec fn browser_kind_of(id: Seq<char>) -> Option<Seq<char>> {
    let s = lower(id);
    if seq_has(s, "wechat"@) || seq_has(s, "微信"@) {
        None
    } else if seq_has(s, "edge"@) {
        Some("edge"@)
    } else if seq_has(s, "chrome"@) {
        Some("chrome"@)
    } else {
        None
    }
}

/// Map a desktop app id (`proc:Chrome:123`) to an extension browser kind.
pub fn browser_kind_from_app_id(id: &str) -> (r: Option<&'static str>)
    ensures
        opt_view(r) == browser_kind_of(id@),
{
    let s = lower_of(id);
    if has_str(&s, "wechat") || has_str(&s, "微信") {
        return None;
    }
    if has_str(&s, "edge") {
        return Some("edge");
    }
    if has_str(&s, "chrome") {
        return Some("chrome");
    }
    None
}

/// An AX name that belongs to a Send control.
pub open spec fn is_send_name(name: Seq<char>) -> bool {
    let n = trim(name);
    seq_has(n, "发送"@) || n == "Send"@ || n == "Send message"@
}

/// Feishu/Lark composer Send lives in the Electron webview, not AX.
/// A scene whose AX names contain 发送/Send is lying or is not the messenger UI.
pub fn ax_exposes_send_control(names: &[&str]) -> (r: bool)
    ensures
        r == exists|i: int| 0 <= i < names@.len() && is_send_name(#[trigger] names@[i]@),
{
    let mut i: usize = 0;
    while i < names.len()
        invariant
            i <= names.len(),
            forall|k: int| 0 <= k < i ==> !is_send_name(#[trigger] names@[k]@),
        decreases names.len() - i,
    {
        let n = trimmed_of(names[i]);
        if has_str(&n, "发送") || same_str(&n, "Send") || same_str(&n, "Send message") {
            return true;
        }
        i = i + 1;
    }
    false
}

pub const KEY_ESCAPE_REFUSED: &'static str = "Escape is not injected; Stage HUD Esc abort is the cancel path. dry_run reports this policy.";
pub const KEY_RETURN_UNCONFIRMED: &'static str = "Return/Enter is gated; confirm_send=true and a Send control ref required after the user asked to send";
pub const KEY_RETURN_BLIND: &'static str = "blind Return is forbidden; pass --ref of the Send button";
pub const KEY_TAB_REFUSED: &'static str = "Tab is not injected; snapshot/click the next control";
pub const KEY_UNKNOWN_HEAD: &'static str = "login-state key not implemented: ";

/// The outcome of a login-state key request: the input path, or the refusal (code, message).
pub open spec fn login_key_plan(key: Seq<char>, confirm_send: bool, has_send_ref: bool) -> Result<
    Seq<char>,
    (ErrorCode, Seq<char>),
> {
    let k = lower(trim(key));
    if k == "esc"@ || k == "escape"@ {
        Err((ErrorCode::FocusPolicyViolation, KEY_ESCAPE_REFUSED@))
    } else if k == "return"@ || k == "enter"@ {
        if !confirm_send {
            Err((ErrorCode::FocusPolicyViolation, KEY_RETURN_UNCONFIRMED@))
        } else if !has_send_ref {
            Err((ErrorCode::FocusPolicyViolation, KEY_RETURN_BLIND@))
        } else {
            Ok("ax_press_send"@)
        }
    } else if k == "tab"@ {
        Err((ErrorCode::NotImplemented, KEY_TAB_REFUSED@))
    } else {
        Err((ErrorCode::NotImplemented, KEY_UNKNOWN_HEAD@ + k))
    }
}

/// Login-state / Codex-like keys: never HID, never blind Return (would send IM).
pub fn plan_login_key(key: &str, confirm_send: bool, has_send_ref: bool) -> (r: Result<&'static str, VcuError>)
    ensures
        match (r, login_key_plan(key@, confirm_send, has_send_ref)) {
            (Ok(p), Ok(q)) => p@ == q,
            (Err(e), Err((code, msg))) => e.code == code && e.message@ == msg && e.detail is None,
            _ => false,
        },
{
    let k = lower_vec(&trimmed_of(key));
    if same_str(&k, "esc") || same_str(&k, "escape") {
        return Err(VcuError::coded(ErrorCode::FocusPolicyViolation, owned(KEY_ESCAPE_REFUSED)));
    }
    if same_str(&k, "return") || same_str(&k, "enter") {
        if !confirm_send {
            return Err(VcuError::coded(ErrorCode::FocusPolicyViolation, owned(KEY_RETURN_UNCONFIRMED)));
        } else if !has_send_ref {
            return Err(VcuError::coded(ErrorCode::FocusPolicyViolation, owned(KEY_RETURN_BLIND)));
        } else {
            return Ok("ax_press_send");
        }
    }
    if same_str(&k, "tab") {
        return Err(VcuError::coded(ErrorCode::NotImplemented, owned(KEY_TAB_REFUSED)));
    }
    let mut msg = owned(KEY_UNKNOWN_HEAD);
    let tail = string_of(&k);
    msg.append(tail.as_str());
    Err(VcuError::coded(ErrorCode::NotImplemented, msg))
}

pub const LAST_OBSERVE_TTL_SECS: u64 = 60;

/// The most recent observe: which app and tab it looked at, and when (milliseconds on
/// a monotonic clock).
#[derive(Debug, Clone)]
pub struct LastObserve {
    pub app_id: String,
    pub tab_id: Option<String>,
    pub at_ms: u64,
}

/// Whole seconds elapsed since the observe, zero when the clock reads earlier.
pub open spec fn elapsed_secs(at_ms: u64, now_ms: u64) -> int {
    if now_ms >= at_ms {
        (now_ms - at_ms) / 1000
    } else {
        0
    }
}

pub open spec fn is_fresh(l: LastObserve, now_ms: u64) -> bool {
    elapsed_secs(l.at_ms, now_ms) < LAST_OBSERVE_TTL_SECS
}

impl LastObserve {
    pub fn fresh(&self, now_ms: u64) -> (r: bool)
        ensures
            r == is_fresh(*self, now_ms),
    {
        let elapsed = if now_ms >= self.at_ms { (now_ms - self.at_ms) / 1000 } else { 0 };
        elapsed < LAST_OBSERVE_TTL_SECS
    }
}

pub open spec fn nonblank(s: Option<Seq<char>>) -> Option<Seq<char>> {
    match s {
        Some(t) => if trim(t).len() == 0 {
            None
        } else {
            Some(trim(t))
        },
        None => None,
    }
}

pub open spec fn opt_string_view(s: Option<String>) -> Option<Seq<char>> {
    match s {
        Some(t) => Some(t@),
        None => None,
    }
}

/// Explicit tab wins. Else a fresh observe tab. Else the caller keeps implicit last-focused.
pub open spec fn tab_binding(
    explicit: Option<Seq<char>>,
    last: Option<LastObserve>,
    now_ms: u64,
) -> (Option<Seq<char>>, Seq<char>) {
    if nonblank(explicit) is Some {
        (nonblank(explicit), "explicit"@)
    } else if last matches Some(l) && is_fresh(l, now_ms) && nonblank(opt_string_view(l.tab_id)) is Some {
        (nonblank(opt_string_view(last->0.tab_id)), "last_observe"@)
    } else {
        (None, "implicit"@)
    }
}

fn nonblank_exec(s: Option<&str>) -> (r: Option<String>)
    ensures
        opt_string_view(r) == nonblank(opt_view(s)),
{
    match s {
        Some(t) => {
            let v = trimmed_of(t);
            if v.len() == 0 {
                None
            } else {
                Some(string_of(&v))
            }
        },
        None => None,
    }
}

pub open spec fn opt_ref<T>(o: Option<&T>) -> Option<T> {
    match o {
        Some(x) => Some(*x),
        None => None,
    }
}

pub fn bind_tab_id(explicit: Option<&str>, last: Option<&LastObserve>, now_ms: u64) -> (r: (
    Option<String>,
    &'static str,
))
    ensures
        (opt_string_view(r.0), r.1@) == tab_binding(opt_view(explicit), opt_ref(last), now_ms),
{
    let e = nonblank_exec(explicit);
    if e.is_some() {
        return (e, "explicit");
    }
    if let Some(l) = last {
        if l.fresh(now_ms) {
            let t = match &l.tab_id {
                Some(t) => nonblank_exec(Some(t.as_str())),
                None => None,
            };
            if t.is_some() {
                return (t, "last_observe");
            }
        }
    }
    (None, "implicit")
}

/// The app to act on: an explicit id, else the app of a fresh observe.
pub open spec fn app_binding(explicit: Option<Seq<char>>, last: Option<LastObserve>, now_ms: u64) -> Option<
    Seq<char>,
> {
    if nonblank(explicit) is Some {
        nonblank(explicit)
    } else if last matches Some(l) && is_fresh(l, now_ms) && l.app_id@.len() > 0 {
        Some(last->0.app_id@)
    } else {
        None
    }
}

pub fn bind_app_id(explicit: Option<&str>, last: Option<&LastObserve>, now_ms: u64) -> (r: Option<String>)
    ensures
        opt_string_view(r) == app_binding(opt_view(explicit), opt_ref(last), now_ms),
{
    let e = nonblank_exec(explicit);
    if e.is_some() {
        return e;
    }
    if let Some(l) = last {
        if l.fresh(now_ms) && l.app_id.as_str().unicode_len() > 0 {
            return Some(owned(l.app_id.as_str()));
        }
    }
    None
}


/// The facts gathered on the host for a login-state report: the scanned browser
/// processes `(pid, process name, command line)`, the frontmost user browser, whether
/// anything listens on the CDP port, and where the bridge extension was copied.
#[derive(Debug, Clone)]
pub struct LoginScan {
    pub rows: Vec<(i32, String, String)>,
    pub frontmost: Option<String>,
    pub cdp_listening: bool,
    pub lens_copied: bool,
    pub lens_dir: String,
}

#[derive(Debug, Clone)]
pub struct LoginBrowserReport {
    pub preferred_path: &'static str,
    pub user_browsers: Vec<BrowserProc>,
    pub agent_browsers: Vec<BrowserProc>,
    pub cdp_listening: bool,
    pub cdp_note: String,
    /// agent = empty profile extension; user = DOM lens on login-state; none = unpaired
    pub extension_profile: &'static str,
    pub automation_infobar: bool,
    pub allow_dialog_visible: bool,
    pub cdp_handshake: &'static str,
    pub host_vision: &'static str,
    pub never: Vec<&'static str>,
    pub lens_copied: bool,
    pub lens_dir: String,
    pub next_action: String,
    pub never_click_allow: bool,
    pub never_os_cursor: bool,
    pub never_wechat: bool,
    /// The frontmost application when the scan ran, if known.
    pub frontmost_app: Option<String>,
}

/// `users`/`agents` are exactly what scanning `rows` in order records.
pub open spec fn scanned_into(
    rows: Seq<(i32, String, String)>,
    users: Seq<BrowserProc>,
    agents: Seq<BrowserProc>,
) -> bool
    decreases rows.len(),
{
    if rows.len() == 0 {
        users.len() == 0 && agents.len() == 0
    } else {
        let r = rows.last();
        match browser_profile_of(r.1@, r.2@) {
            BrowserProfile::User => users.len() > 0 && proc_is(
                users.last(),
                r.0,
                display_name_of(r.1@, r.2@),
                BrowserProfile::User,
                r.2@,
            ) && scanned_into(rows.drop_last(), users.drop_last(), agents),
            BrowserProfile::Agent => agents.len() > 0 && proc_is(
                agents.last(),
                r.0,
                "Agent Edge"@,
                BrowserProfile::Agent,
                r.2@,
            ) && scanned_into(rows.drop_last(), users, agents.drop_last()),
            _ => scanned_into(rows.drop_last(), users, agents),
        }
    }
}

/// Every scanned user or agent browser's command line can be excerpted.
pub open spec fn scan_rows_ok(rows: Seq<(i32, String, String)>) -> bool {
    forall|i: int| 0 <= i < rows.len() ==> row_cut_ok((#[trigger] rows[i]).1@, rows[i].2@)
}

pub const CDP_NOTE_LISTENING: &'static str = "CDP is abandoned for login-state even if 127.0.0.1:9222 is listening. Do not click Allow. Use extension extract / observe on the USER browser.";
pub const CDP_NOTE_DOWN: &'static str = "No CDP on 9222. Login-state path is USER Edge extension extract / observe. CDP is abandoned; never click Allow.";
pub const HOST_VISION_NOTE: &'static str = "Host multimodal models (e.g. Grok) can use Scene screenshots; vcu init model is optional.";

/// What a report built from `scan` must say.
pub open spec fn report_of(scan: LoginScan, r: LoginBrowserReport) -> bool {
    &&& exists|users: Seq<BrowserProc>|
        scanned_into(scan.rows@, users, r.agent_browsers@) && r.user_browsers@ == ordered_users(
            users,
            opt_string_view(scan.frontmost),
        )
    &&& r.extension_profile@ == extension_profile_of(r.user_browsers@, r.agent_browsers@)
    &&& r.next_action@ == next_action_of(
        r.user_browsers@.len() == 0,
        scan.lens_copied,
        r.extension_profile@,
        scan.lens_dir@,
        false,
    )
    &&& r.preferred_path@ == "desktop_user_window"@
    &&& r.cdp_listening == scan.cdp_listening
    &&& r.cdp_note@ == (if scan.cdp_listening { CDP_NOTE_LISTENING@ } else { CDP_NOTE_DOWN@ })
    &&& r.cdp_handshake@ == (if scan.cdp_listening { "listening_may_block"@ } else { "down"@ })
    &&& r.host_vision@ == HOST_VISION_NOTE@
    &&& !r.automation_infobar
    &&& !r.allow_dialog_visible
    &&& r.never@.len() == 4
    &&& r.never@[0]@ == "click Edge Allow debugging"@
    &&& r.never@[1]@ == "WeChat automation"@
    &&& r.never@[2]@ == "OS cursor warp"@
    &&& r.never@[3]@ == "empty agent profile as login-state"@
    &&& r.lens_copied == scan.lens_copied
    &&& r.lens_dir@ == scan.lens_dir@
    &&& r.never_click_allow
    &&& r.never_os_cursor
    &&& r.never_wechat
    &&& opt_string_view(r.frontmost_app) == opt_string_view(scan.frontmost)
}

/// Chrome/Edge main processes become user or agent entries. Helpers are ignored.
pub fn inspect_login_browsers(scan: LoginScan) -> (r: LoginBrowserReport)
    requires
        scan_rows_ok(scan.rows@),
    ensures
        report_of(scan, r),
{
    let mut user_browsers: Vec<BrowserProc> = Vec::new();
    let mut agent_browsers: Vec<BrowserProc> = Vec::new();
    let mut i: usize = 0;
    while i < scan.rows.len()
        invariant
            i <= scan.rows@.len(),
            scan_rows_ok(scan.rows@),
            scanned_into(scan.rows@.take(i as int), user_browsers@, agent_browsers@),
        decreases scan.rows.len() - i,
    {
        let row = &scan.rows[i];
        assert(row_cut_ok(scan.rows@[i as int].1@, scan.rows@[i as int].2@));
        let ghost old_u = user_browsers@;
        let ghost old_a = agent_browsers@;
        ingest_scanned_browser(
            row.0,
            row.1.as_str(),
            row.2.as_str(),
            &mut user_browsers,
            &mut agent_browsers,
        );
        proof {
            let t = scan.rows@.take(i + 1);
            assert(t.drop_last() =~= scan.rows@.take(i as int));
            assert(t.last() == scan.rows@[i as int]);
            match browser_profile_of(row.1@, row.2@) {
                BrowserProfile::User => {
                    assert(user_browsers@.drop_last() =~= old_u);
                },
                BrowserProfile::Agent => {
                    assert(agent_browsers@.drop_last() =~= old_a);
                },
                _ => {},
            }
        }
        i = i + 1;
    }
    assert(scan.rows@.take(i as int) =~= scan.rows@);
    let ghost scanned_users = user_browsers@;
    let frontmost = match &scan.frontmost {
        Some(f) => Some(f.as_str()),
        None => None,
    };
    let user_browsers = order_user_browsers_frontmost_first(user_browsers, frontmost);
    let extension_profile = classify_extension_profile(user_browsers.as_slice(), agent_browsers.as_slice());
    let cdp_handshake = if !scan.cdp_listening { "down" } else { "listening_may_block" };
    let cdp_note = if scan.cdp_listening { owned(CDP_NOTE_LISTENING) } else { owned(CDP_NOTE_DOWN) };
    let next_action = login_next_action(
        user_browsers.len() == 0,
        scan.lens_copied,
        extension_profile,
        false,
        scan.lens_dir.as_str(),
        false,
    );
    let mut never: Vec<&'static str> = Vec::new();
    never.push("click Edge Allow debugging");
    never.push("WeChat automation");
    never.push("OS cursor warp");
    never.push("empty agent profile as login-state");
    let lens_dir = owned(scan.lens_dir.as_str());
    let frontmost_app = match &scan.frontmost {
        Some(f) => Some(owned(f.as_str())),
        None => None,
    };
    let r = LoginBrowserReport {
        preferred_path: "desktop_user_window",
        user_browsers,
        agent_browsers,
        cdp_listening: scan.cdp_listening,
        cdp_note,
        extension_profile,
        automation_infobar: false,
        allow_dialog_visible: false,
        cdp_handshake,
        host_vision: HOST_VISION_NOTE,
        never,
        lens_copied: scan.lens_copied,
        lens_dir,
        next_action,
        never_click_allow: true,
        never_os_cursor: true,
        never_wechat: true,
        frontmost_app,
    };
    assert(scanned_into(scan.rows@, scanned_users, r.agent_browsers@));
    r
}


/// A tab or desktop window a session can bind to.
#[derive(Debug, Clone)]
pub struct TabInfo {
    pub tab_id: String,
    pub window_id: String,
    pub title: String,
    pub url: String,
    pub agent_owned: bool,
    pub borrowed_by: Option<String>,
    pub login_state: Option<bool>,
    pub browser_profile: Option<String>,
}

/// `i` is the first index of `s` at which `p` holds.
pub open spec fn is_first<T>(s: Seq<T>, p: spec_fn(T) -> bool, i: int) -> bool {
    0 <= i < s.len() && p(s[i]) && forall|j: int| 0 <= j < i ==> !p(#[trigger] s[j])
}

/// The first index of `s` at which `p` holds, if any.
pub open spec fn first_where<T>(s: Seq<T>, p: spec_fn(T) -> bool) -> Option<int> {
    if exists|i: int| is_first(s, p, i) {
        Some(choose|i: int| is_first(s, p, i))
    } else {
        None
    }
}

pub proof fn lemma_first_where<T>(s: Seq<T>, p: spec_fn(T) -> bool, i: int)
    requires
        is_first(s, p, i),
    ensures
        first_where(s, p) == Some(i),
{
    let j = choose|j: int| is_first(s, p, j);
    assert(is_first(s, p, j));
    if j < i {
        assert(!p(s[j]));
    } else if i < j {
        assert(!p(s[i]));
    }
}

pub proof fn lemma_first_where_none<T>(s: Seq<T>, p: spec_fn(T) -> bool)
    requires
        forall|j: int| 0 <= j < s.len() ==> !p(#[trigger] s[j]),
    ensures
        first_where(s, p) is None,
{
}

/// Desktop ids name the same window: equal (ignoring ASCII case), or both `win:` ids
/// ending in the same all-digit pid.
pub open spec fn same_window(listed: Seq<char>, requested: Seq<char>) -> bool {
    let lp = last_piece(listed, ':');
    let rp = last_piece(requested, ':');
    ||| listed == requested
    ||| eq_ignore_case(listed, requested)
    ||| begins(lower(listed), "win:"@) && begins(lower(requested), "win:"@) && lp == rp && lp.len() > 0
        && all_digits(lp)
}

fn all_digits_vec(v: &Vec<char>) -> (r: bool)
    ensures
        r == all_digits(v@),
{
    let mut i: usize = 0;
    while i < v.len()
        invariant
            i <= v.len(),
            forall|k: int| 0 <= k < i ==> is_digit(#[trigger] v@[k]),
        decreases v.len() - i,
    {
        if !('0' <= v[i] && v[i] <= '9') {
            return false;
        }
        i = i + 1;
    }
    true
}

/// Desktop session must not fall back to another window when the requested id is missing.
fn win_ids_same_window(listed: &str, requested: &str) -> (r: bool)
    ensures
        r == same_window(listed@, requested@),
{
    let l = chars_of(listed);
    let q = chars_of(requested);
    if same_vec(&l, &q) || same_ignore_case(&l, &q) {
        return true;
    }
    let lp = last_piece_vec(&l, ':');
    let rp = last_piece_vec(&q, ':');
    begins_str(&lower_vec(&l), "win:") && begins_str(&lower_vec(&q), "win:") && same_vec(&lp, &rp)
        && lp.len() > 0 && all_digits_vec(&lp)
}

/// The packaged-app family a requested id belongs to (Store Notepad).
pub open spec fn packaged_family_of(requested: Seq<char>) -> Option<Seq<char>> {
    if begins(lower(requested), "win:notepad:"@) {
        Some("notepad"@)
    } else {
        None
    }
}

fn packaged_family(requested: &str) -> (r: Option<&'static str>)
    ensures
        opt_view(r) == packaged_family_of(requested@),
{
    let req = lower_of(requested);
    if begins_str(&req, "win:notepad:") {
        Some("notepad")
    } else {
        None
    }
}

/// A window of the given packaged family, by id or title.
pub open spec fn family_window(family: Seq<char>) -> spec_fn(TabInfo) -> bool {
    |t: TabInfo|
        seq_has(lower(t.tab_id@), family) || seq_has(lower(t.title@), family) || seq_has(
            lower(t.title@),
            "记事本"@,
        )
}

/// The only window of the requested id's packaged family, when there is exactly one.
pub open spec fn unique_packaged_of(tabs: Seq<TabInfo>, requested: Seq<char>) -> Option<Seq<char>> {
    match packaged_family_of(requested) {
        Some(f) => {
            let m = tabs.filter(family_window(f));
            if m.len() == 1 {
                Some(m[0].tab_id@)
            } else {
                None
            }
        },
        None => None,
    }
}

fn unique_packaged_window(tabs: &[TabInfo], requested: &str) -> (r: Option<String>)
    ensures
        opt_string_view(r) == unique_packaged_of(tabs@, requested@),
{
    let family = match packaged_family(requested) {
        Some(f) => f,
        None => return None,
    };
    let ghost fam = family@;
    let mut count: usize = 0;
    let mut found: Option<usize> = None;
    let mut i: usize = 0;
    assert(tabs@.take(0).filter(family_window(fam)) =~= Seq::<TabInfo>::empty()) by {
        reveal_with_fuel(Seq::<_>::filter, 1);
    }
    while i < tabs.len()
        invariant
            i <= tabs@.len(),
            fam == family@,
            count as int == tabs@.take(i as int).filter(family_window(fam)).len(),
            count <= i,
            count >= 1 ==> (found matches Some(k) && k < tabs@.len() && tabs@.take(i as int).filter(
                family_window(fam),
            )[0] == tabs@[k as int]),
        decreases tabs.len() - i,
    {
        let t = &tabs[i];
        let id = lower_of(t.tab_id.as_str());
        let title = lower_of(t.title.as_str());
        let hit = has_str(&id, family) || has_str(&title, family) || has_str(&title, "记事本");
        proof {
            let a = tabs@.take(i + 1);
            let b = tabs@.take(i as int);
            assert(a.drop_last() == b);
            assert(a.last() == tabs@[i as int]);
            assert(a.filter(family_window(fam)) == if family_window(fam)(tabs@[i as int]) {
                b.filter(family_window(fam)).push(tabs@[i as int])
            } else {
                b.filter(family_window(fam))
            }) by {
                reveal_with_fuel(Seq::<_>::filter, 1);
            }
        }
        if hit {
            if count == 0 {
                found = Some(i);
            }
            count = count + 1;
        }
        i = i + 1;
    }
    assert(tabs@.take(i as int) =~= tabs@);
    if count == 1 {
        match found {
            Some(k) => Some(owned(tabs[k].tab_id.as_str())),
            None => None,
        }
    } else {
        None
    }
}

pub const NO_WINDOW_HEAD: &'static str = "desktop window '";
pub const NO_WINDOW_TAIL: &'static str = "' has no visible window; refusing to bind another app";

pub open spec fn same_window_as(requested: Seq<char>) -> spec_fn(TabInfo) -> bool {
    |t: TabInfo| same_window(t.tab_id@, requested)
}

/// The window a desktop request binds to: none without a (non-blank) id; else the first
/// listed window with the same id, else the unique window of its packaged family; else
/// a refusal naming the id.
pub open spec fn desktop_window_of(tabs: Seq<TabInfo>, app_id: Option<Seq<char>>) -> Result<
    Option<Seq<char>>,
    (ErrorCode, Seq<char>),
> {
    match nonblank(app_id) {
        None => Ok(None),
        Some(req) => match first_where(tabs, same_window_as(req)) {
            Some(i) => Ok(Some(tabs[i].tab_id@)),
            None => match unique_packaged_of(tabs, req) {
                Some(id) => Ok(Some(id)),
                None => Err((ErrorCode::TabNotFound, NO_WINDOW_HEAD@ + req + NO_WINDOW_TAIL@)),
            },
        },
    }
}

pub fn require_desktop_window(tabs: &[TabInfo], app_id: Option<&str>) -> (r: Result<Option<String>, VcuError>)
    ensures
        match (r, desktop_window_of(tabs@, opt_view(app_id))) {
            (Ok(got), Ok(want)) => opt_string_view(got) == want,
            (Err(e), Err((code, msg))) => e.code == code && e.message@ == msg,
            _ => false,
        },
{
    let requested = match nonblank_exec(app_id) {
        Some(q) => q,
        None => return Ok(None),
    };
    let ghost req = requested@;
    let mut i: usize = 0;
    while i < tabs.len()
        invariant
            i <= tabs@.len(),
            req == requested@,
            nonblank(opt_view(app_id)) == Some(req),
            forall|j: int| 0 <= j < i ==> !same_window_as(req)(#[trigger] tabs@[j]),
        decreases tabs.len() - i,
    {
        if win_ids_same_window(tabs[i].tab_id.as_str(), requested.as_str()) {
            proof {
                lemma_first_where(tabs@, same_window_as(req), i as int);
            }
            return Ok(Some(owned(tabs[i].tab_id.as_str())));
        }
        i = i + 1;
    }
    proof {
        lemma_first_where_none(tabs@, same_window_as(req));
    }
    if let Some(resolved) = unique_packaged_window(tabs, requested.as_str()) {
        return Ok(Some(resolved));
    }
    let msg = cat(cat(owned(NO_WINDOW_HEAD), requested.as_str()), NO_WINDOW_TAIL);
    Err(VcuError::coded(ErrorCode::TabNotFound, msg))
}

/// A user-profile tab of the requested browser (`edge`, `chrome` or `auto`).
pub open spec fn wanted_login_tab(browser: Seq<char>) -> spec_fn(TabInfo) -> bool {
    |t: TabInfo|
        {
            let b = lower(browser);
            let want_edge = b == "edge"@ || b == "auto"@;
            let want_chrome = b == "chrome"@ || b == "auto"@;
            let blob = lower(t.title@ + seq![' '] + t.url@);
            t.agent_owned && opt_string_view(t.browser_profile) == Some("user"@) && ((want_edge
                && seq_has(blob, "edge"@)) || (want_chrome && seq_has(blob, "chrome"@)) || b
                == "auto"@)
        }
}

pub open spec fn owned_not_agent() -> spec_fn(TabInfo) -> bool {
    |t: TabInfo| t.agent_owned && opt_string_view(t.browser_profile) != Some("agent"@)
}

pub open spec fn id_is(id: Seq<char>) -> spec_fn(TabInfo) -> bool {
    |t: TabInfo| t.tab_id@ == id
}

/// The tab a login-state action uses: an explicit listed id; else the first owned
/// user-profile tab of the wanted browser; else the first owned tab whose profile is not
/// the agent profile; never a tab of the empty agent profile.
pub open spec fn login_tab_of(tabs: Seq<TabInfo>, browser: Seq<char>, app_id: Option<Seq<char>>) -> Option<
    Seq<char>,
> {
    if app_id matches Some(id) && first_where(tabs, id_is(id)) is Some {
        app_id
    } else if first_where(tabs, wanted_login_tab(browser)) is Some {
        Some(tabs[first_where(tabs, wanted_login_tab(browser))->0].tab_id@)
    } else if first_where(tabs, owned_not_agent()) is Some {
        Some(tabs[first_where(tabs, owned_not_agent())->0].tab_id@)
    } else {
        None
    }
}

/// A login-state action never falls back to a tab of the empty agent profile: unless the
/// caller named the tab outright, the tab picked is an owned tab whose profile is not
/// the agent profile.
pub proof fn lemma_login_tab_never_agent(tabs: Seq<TabInfo>, browser: Seq<char>, app_id: Option<Seq<char>>)
    ensures
        login_tab_of(tabs, browser, app_id) matches Some(t) ==> (app_id == Some(t) || exists|i: int|
            0 <= i < tabs.len() && (#[trigger] tabs[i]).tab_id@ == t && tabs[i].agent_owned && opt_string_view(
                tabs[i].browser_profile,
            ) != Some("agent"@)),
{
    reveal_strlit("user");
    reveal_strlit("agent");
    if !(app_id matches Some(id) && first_where(tabs, id_is(id)) is Some) {
        if first_where(tabs, wanted_login_tab(browser)) is Some {
            let i = first_where(tabs, wanted_login_tab(browser))->0;
            lemma_first_where_some(tabs, wanted_login_tab(browser));
            assert(wanted_login_tab(browser)(tabs[i]));
            assert("user"@ != "agent"@) by {
                assert("user"@.len() != "agent"@.len());
            }
            assert(opt_string_view(tabs[i].browser_profile) != Some("agent"@));
            assert(tabs[i].tab_id@ == login_tab_of(tabs, browser, app_id)->0);
        } else if first_where(tabs, owned_not_agent()) is Some {
            let i = first_where(tabs, owned_not_agent())->0;
            lemma_first_where_some(tabs, owned_not_agent());
            assert(owned_not_agent()(tabs[i]));
            assert(tabs[i].tab_id@ == login_tab_of(tabs, browser, app_id)->0);
        }
    }
}

fn profile_is(p: &Option<String>, want: &str) -> (r: bool)
    ensures
        r == (opt_string_view(*p) == Some(want@)),
{
    match p {
        Some(s) => {
            let v = chars_of(s.as_str());
            same_str(&v, want)
        },
        None => false,
    }
}

/// Index of the first tab satisfying the `which`-th selection rule.
fn first_tab_where(tabs: &[TabInfo], which: u8, browser: &Vec<char>, id: &Vec<char>) -> (r: Option<usize>)
    requires
        which <= 2,
    ensures
        ({
            let p = if which == 0 {
                id_is(id@)
            } else if which == 1 {
                wanted_login_tab(browser@)
            } else {
                owned_not_agent()
            };
            match r {
                Some(i) => i < tabs@.len() && first_where(tabs@, p) == Some(i as int),
                None => first_where(tabs@, p) is None,
            }
        }),
{
    let ghost p = if which == 0 {
        id_is(id@)
    } else if which == 1 {
        wanted_login_tab(browser@)
    } else {
        owned_not_agent()
    };
    let b = lower_vec(browser);
    let want_edge = same_str(&b, "edge") || same_str(&b, "auto");
    let want_chrome = same_str(&b, "chrome") || same_str(&b, "auto");
    let auto = same_str(&b, "auto");
    let mut i: usize = 0;
    while i < tabs.len()
        invariant
            i <= tabs@.len(),
            which <= 2,
            p == (if which == 0 {
                id_is(id@)
            } else if which == 1 {
                wanted_login_tab(browser@)
            } else {
                owned_not_agent()
            }),
            b@ == lower(browser@),
            want_edge == (b@ == "edge"@ || b@ == "auto"@),
            want_chrome == (b@ == "chrome"@ || b@ == "auto"@),
            auto == (b@ == "auto"@),
            forall|j: int| 0 <= j < i ==> !p(#[trigger] tabs@[j]),
        decreases tabs.len() - i,
    {
        let t = &tabs[i];
        let hit = if which == 0 {
            let tid = chars_of(t.tab_id.as_str());
            same_vec(&tid, id)
        } else if which == 1 {
            let mut blob = chars_of(t.title.as_str());
            blob.push(' ');
            let mut u = chars_of(t.url.as_str());
            blob.append(&mut u);
            assert(blob@ =~= t.title@ + seq![' '] + t.url@);
            let lb = lower_vec(&blob);
            t.agent_owned && profile_is(&t.browser_profile, "user") && ((want_edge && has_str(
                &lb,
                "edge",
            )) || (want_chrome && has_str(&lb, "chrome")) || auto)
        } else {
            t.agent_owned && !profile_is(&t.browser_profile, "agent")
        };
        if hit {
            proof {
                lemma_first_where(tabs@, p, i as int);
            }
            return Some(i);
        }
        i = i + 1;
    }
    proof {
        lemma_first_where_none(tabs@, p);
    }
    None
}

/// Prefer an explicit app id, then a user-profile browser, then any allowed non-agent tab.
pub fn pick_login_tab(tabs: &[TabInfo], browser: &str, app_id: Option<&str>) -> (r: Option<String>)
    ensures
        opt_string_view(r) == login_tab_of(tabs@, browser@, opt_view(app_id)),
{
    let bv = chars_of(browser);
    if let Some(id) = app_id {
        let idv = chars_of(id);
        if first_tab_where(tabs, 0, &bv, &idv).is_some() {
            return Some(owned(id));
        }
    }
    let none: Vec<char> = Vec::new();
    let idv = match app_id {
        Some(id) => chars_of(id),
        None => Vec::new(),
    };
    if let Some(i) = first_tab_where(tabs, 1, &bv, &idv) {
        return Some(owned(tabs[i].tab_id.as_str()));
    }
    if let Some(i) = first_tab_where(tabs, 2, &bv, &none) {
        return Some(owned(tabs[i].tab_id.as_str()));
    }
    None
}

// ---------------------------------------------------------------------------
// Frontmost browser
// ---------------------------------------------------------------------------

/// A test or caller may pin what "the frontmost user browser" is: `Some(v)` pins it to
/// `v` (itself possibly none); `None` leaves it to the probe.
#[derive(Debug, Clone)]
pub struct FrontmostOverride {
    pub pinned: Option<Option<String>>,
}

pub open spec fn pinned_view(o: FrontmostOverride) -> Option<Option<Seq<char>>> {
    match o.pinned {
        Some(v) => Some(opt_string_view(v)),
        None => None,
    }
}

impl FrontmostOverride {
    pub fn new() -> (r: FrontmostOverride)
        ensures
            r.pinned is None,
    {
        FrontmostOverride { pinned: None }
    }
}

/// Pins the frontmost user browser to `name`.
pub fn set_frontmost_user_browser_override(slot: &mut FrontmostOverride, name: Option<&str>)
    ensures
        pinned_view(*final(slot)) == Some(opt_view(name)),
{
    slot.pinned = Some(match name {
        Some(n) => Some(owned(n)),
        None => None,
    });
}

/// Leaves the frontmost user browser to the probe again.
pub fn clear_frontmost_user_browser_override(slot: &mut FrontmostOverride)
    ensures
        pinned_view(*final(slot)) is None,
{
    slot.pinned = None;
}

/// The user browser an application name denotes when it is frontmost: Edge, or Chrome
/// (but not Edge), by ASCII-case-insensitive containment; none for a blank name.
pub open spec fn frontmost_browser_of(app_name: Seq<char>) -> Option<Seq<char>> {
    let t = trim(app_name);
    let l = lower(t);
    if t.len() == 0 {
        None
    } else if seq_has(l, "edge"@) {
        Some("Microsoft Edge"@)
    } else if seq_has(l, "chrome"@) {
        Some("Chrome"@)
    } else {
        None
    }
}

pub fn frontmost_browser_from_app_name(app_name: &str) -> (r: Option<&'static str>)
    ensures
        opt_view(r) == frontmost_browser_of(app_name@),
{
    let t = trimmed_of(app_name);
    if t.len() == 0 {
        return None;
    }
    let l = lower_vec(&t);
    if has_str(&l, "edge") {
        Some("Microsoft Edge")
    } else if has_str(&l, "chrome") {
        Some("Chrome")
    } else {
        None
    }
}

/// The frontmost user browser: the pinned value when one is pinned, else what the
/// probe (the frontmost application's name, when it could be read) says.
pub open spec fn frontmost_of(o: Option<Option<Seq<char>>>, probed: Option<Seq<char>>) -> Option<Seq<char>> {
    match o {
        Some(v) => v,
        None => match probed {
            Some(n) => frontmost_browser_of(n),
            None => None,
        },
    }
}

pub fn frontmost_user_browser_name(slot: &FrontmostOverride, probed: Option<&str>) -> (r: Option<String>)
    ensures
        opt_string_view(r) == frontmost_of(pinned_view(*slot), opt_view(probed)),
{
    match &slot.pinned {
        Some(v) => match v {
            Some(n) => Some(owned(n.as_str())),
            None => None,
        },
        None => match probed {
            Some(n) => match frontmost_browser_from_app_name(n) {
                Some(b) => Some(owned(b)),
                None => None,
            },
            None => None,
        },
    }
}

/// A pinned frontmost browser is what every later read gives, whatever the probe says;
/// clearing the pin gives the probe's answer back.
pub proof fn lemma_frontmost_override(name: Option<Seq<char>>, probed: Option<Seq<char>>)
    ensures
        frontmost_of(Some(name), probed) == name,
        frontmost_of(None, probed) == (match probed {
            Some(n) => frontmost_browser_of(n),
            None => None,
        }),
{
}

// ---------------------------------------------------------------------------
// Laws
// ---------------------------------------------------------------------------

/// A login-state key is only ever a confirmed Return pressed through the Send ref.
pub proof fn lemma_login_key_only_confirmed_send(key: Seq<char>, confirm_send: bool, has_send_ref: bool)
    ensures
        login_key_plan(key, confirm_send, has_send_ref) is Ok ==> confirm_send && has_send_ref
            && login_key_plan(key, confirm_send, has_send_ref) == Ok::<Seq<char>, (ErrorCode, Seq<char>)>(
            "ax_press_send"@,
        ),
{
}

/// A desktop request bound to a window names that window: the window bound is listed
/// under an equivalent id, or is the one window of the requested id's packaged family.
pub proof fn lemma_desktop_window_matches(tabs: Seq<TabInfo>, app_id: Option<Seq<char>>)
    ensures
        desktop_window_of(tabs, app_id) matches Ok(Some(w)) ==> (exists|i: int|
            0 <= i < tabs.len() && (#[trigger] tabs[i]).tab_id@ == w && (same_window(w, nonblank(app_id)->0)
                || unique_packaged_of(tabs, nonblank(app_id)->0) == Some(w))),
{
    if let Some(req) = nonblank(app_id) {
        lemma_first_where_some(tabs, same_window_as(req));
        match first_where(tabs, same_window_as(req)) {
            Some(i) => {
                assert(tabs[i].tab_id@ == tabs[i].tab_id@);
            },
            None => {
                if let Some(f) = packaged_family_of(req) {
                    let m = tabs.filter(family_window(f));
                    if m.len() == 1 {
                        assert(m.contains(m[0]));
                        tabs.lemma_filter_contains_rev(family_window(f), m[0]);
                        let j = choose|j: int| 0 <= j < tabs.len() && tabs[j] == m[0];
                        assert(tabs[j].tab_id@ == m[0].tab_id@);
                    }
                }
            },
        }
    }
}

/// What `first_where` finds is the first index at which the predicate holds.
pub proof fn lemma_first_where_some<T>(s: Seq<T>, p: spec_fn(T) -> bool)
    ensures
        first_where(s, p) matches Some(i) ==> is_first(s, p, i),
{
    if exists|i: int| is_first(s, p, i) {
        let i = choose|i: int| is_first(s, p, i);
        assert(is_first(s, p, i));
    }
}

/// Splitting a sequence by a predicate and its negation keeps every item exactly once.
pub proof fn lemma_partition_keeps_items<A>(s: Seq<A>, p: spec_fn(A) -> bool, q: spec_fn(A) -> bool)
    requires
        forall|x: A| #[trigger] q(x) == !p(x),
    ensures
        (s.filter(p) + s.filter(q)).to_multiset() =~= s.to_multiset(),
    decreases s.len(),
{
    broadcast use vstd::multiset::group_multiset_axioms;

    if s.len() == 0 {
        assert(s.filter(p) =~= Seq::<A>::empty()) by {
            reveal(Seq::filter);
        }
        assert(s.filter(q) =~= Seq::<A>::empty()) by {
            reveal(Seq::filter);
        }
        assert(s.filter(p) + s.filter(q) =~= Seq::<A>::empty());
        assert(s =~= Seq::<A>::empty());
    } else {
        let init = s.drop_last();
        let x = s.last();
        lemma_partition_keeps_items(init, p, q);
        assert(s =~= init.push(x));
        init.lemma_filter_push(x, p);
        init.lemma_filter_push(x, q);
        let a = init.filter(p);
        let b = init.filter(q);
        vstd::seq_lib::lemma_multiset_commutative(a, b);
        vstd::seq_lib::to_multiset_build(init, x);
        if p(x) {
            vstd::seq_lib::lemma_multiset_commutative(a.push(x), b);
            vstd::seq_lib::to_multiset_build(a, x);
        } else {
            vstd::seq_lib::lemma_multiset_commutative(a, b.push(x));
            vstd::seq_lib::to_multiset_build(b, x);
        }
    }
}

/// Ordering user browsers frontmost-first keeps every browser, exactly once, and keeps
/// the scan order within the frontmost and the other browsers.
pub proof fn lemma_frontmost_order_keeps_browsers(users: Seq<BrowserProc>, frontmost: Option<Seq<char>>)
    ensures
        ordered_users(users, frontmost).to_multiset() =~= users.to_multiset(),
        (frontmost matches Some(f) && trim(f).len() > 0) ==> ordered_users(users, frontmost) == users.filter(
            is_front_pred(trim(frontmost->0)),
        ) + users.filter(not_front_pred(trim(frontmost->0))),
{
    if let Some(f) = frontmost {
        if trim(f).len() > 0 {
            lemma_partition_keeps_items(users, is_front_pred(trim(f)), not_front_pred(trim(f)));
        }
    }
}

// ---------------------------------------------------------------------------
// Lens tabs in a desktop scene
// ---------------------------------------------------------------------------

/// A tab the lens lists, as a scene merge reads it (`active` is active, selected or
/// focused; text fields are present only when they are strings).
#[derive(Debug, Clone)]
pub struct LensListing {
    pub browser: Option<String>,
    pub url: Option<String>,
    pub tab_id: Option<String>,
    pub title: Option<String>,
    pub active: bool,
}

/// What an AX scene already holds.
#[derive(Debug, Clone)]
pub struct SceneHead {
    /// The scene has no tabs (or no tab list).
    pub tabs_empty: bool,
    /// The scene already names where its tabs came from.
    pub tabs_source_set: bool,
    pub page_url: Option<String>,
    pub tab_id: Option<String>,
    pub page_title: Option<String>,
}

/// What merging lens tabs into a scene sets (the scene's source becomes `ax_scene`):
/// the lens tabs that replace an empty tab list, the tab-list source, the lens tab whose
/// URL fills an empty URL, and the lens tab whose id and title fill the empty ones.
#[derive(Debug, Clone)]
pub struct SceneMerge {
    pub tabs: Option<Vec<usize>>,
    pub tabs_source: Option<&'static str>,
    pub page_url_from: Option<usize>,
    pub tab_id_from: Option<usize>,
    pub page_title_from: Option<usize>,
}

pub open spec fn blank_text(s: Option<String>) -> bool {
    match s {
        Some(t) => t@.len() == 0,
        None => true,
    }
}

/// The lens tab belongs to the app's browser: by its own (lower-cased, non-empty)
/// browser name, else when the lens polls only in that browser.
pub open spec fn belongs_to(kind: Seq<char>, only_kind: bool) -> spec_fn(LensListing) -> bool {
    |t: LensListing|
        match t.browser {
            Some(b) => if lower(b@).len() > 0 {
                lower(b@) == kind
            } else {
                only_kind
            },
            None => only_kind,
        }
}

pub open spec fn http_tab(t: LensListing) -> bool {
    t.url matches Some(u) && (begins(u@, "http://"@) || begins(u@, "https://"@))
}

pub open spec fn belongs_http(kind: Seq<char>, only_kind: bool, need_active: bool) -> spec_fn(LensListing) -> bool {
    |t: LensListing| belongs_to(kind, only_kind)(t) && http_tab(t) && (need_active ==> t.active)
}

/// The lens tab that fills a scene: the first active web tab of the browser, else its
/// first web tab.
pub open spec fn focus_tab_of(tabs: Seq<LensListing>, kind: Seq<char>, only_kind: bool) -> Option<int> {
    if first_where(tabs, belongs_http(kind, only_kind, true)) is Some {
        first_where(tabs, belongs_http(kind, only_kind, true))
    } else {
        first_where(tabs, belongs_http(kind, only_kind, false))
    }
}

pub open spec fn belongs_active(kind: Seq<char>, only_kind: bool) -> spec_fn(LensListing) -> bool {
    |t: LensListing| belongs_to(kind, only_kind)(t) && t.active
}

/// The lens tab whose URL fills a scene: the browser's first active tab when it is a
/// web tab, else its first web tab.
pub open spec fn url_tab_of(tabs: Seq<LensListing>, kind: Seq<char>, only_kind: bool) -> Option<int> {
    match first_where(tabs, belongs_active(kind, only_kind)) {
        Some(a) => if http_tab(tabs[a]) {
            Some(a)
        } else {
            first_where(tabs, belongs_http(kind, only_kind, false))
        },
        None => first_where(tabs, belongs_http(kind, only_kind, false)),
    }
}

pub open spec fn only_kind_of(browsers: Seq<Option<String>>, kind: Seq<char>) -> bool {
    browsers.len() == 1 && (browsers[0] matches Some(b) && b@ == kind)
}

/// Merging lens tabs into the AX scene of `app_id`: nothing for a non-browser app or
/// when no lens tab belongs to its browser; otherwise empty AX fields are filled from
/// the lens and filled ones are kept.
pub open spec fn merge_ok(
    head: SceneHead,
    app_id: Seq<char>,
    tabs: Seq<LensListing>,
    browsers: Seq<Option<String>>,
    m: Option<SceneMerge>,
) -> bool {
    match browser_kind_of(app_id) {
        None => m is None,
        Some(kind) => {
            let only = only_kind_of(browsers, kind);
            let filtered = crate::browser::hit_indices(tabs, belongs_to(kind, only));
            if filtered.len() == 0 {
                m is None
            } else {
                let pick = focus_tab_of(tabs, kind, only);
                m matches Some(r) && {
                    &&& (if head.tabs_empty {
                        (r.tabs matches Some(v) && crate::browser::usize_ints(v@) == filtered) && (r.tabs_source
                            matches Some(src) && src@ == "extension_tabs"@)
                    } else if !head.tabs_source_set {
                        r.tabs is None && (r.tabs_source matches Some(src) && src@ == "ax_scene"@)
                    } else {
                        r.tabs is None && r.tabs_source is None
                    })
                    &&& opt_usize_int(r.page_url_from) == (if blank_text(head.page_url) {
                        url_tab_of(tabs, kind, only)
                    } else {
                        None
                    })
                    &&& opt_usize_int(r.tab_id_from) == (if pick is Some && blank_text(head.tab_id)
                        && tabs[pick->0].tab_id is Some {
                        pick
                    } else {
                        None
                    })
                    &&& opt_usize_int(r.page_title_from) == (if pick is Some && blank_text(head.page_title)
                        && !blank_text(tabs[pick->0].title) {
                        pick
                    } else {
                        None
                    })
                }
            }
        },
    }
}

pub open spec fn opt_usize_int(o: Option<usize>) -> Option<int> {
    match o {
        Some(i) => Some(i as int),
        None => None,
    }
}

fn is_blank(s: &Option<String>) -> (r: bool)
    ensures
        r == blank_text(*s),
{
    match s {
        Some(t) => t.as_str().unicode_len() == 0,
        None => true,
    }
}

fn listing_belongs(t: &LensListing, kind: &str, only_kind: bool) -> (r: bool)
    ensures
        r == belongs_to(kind@, only_kind)(*t),
{
    match &t.browser {
        Some(b) => {
            let l = lower_of(b.as_str());
            if l.len() > 0 {
                same_str(&l, kind)
            } else {
                only_kind
            }
        },
        None => only_kind,
    }
}

fn is_http_tab(t: &LensListing) -> (r: bool)
    ensures
        r == http_tab(*t),
{
    match &t.url {
        Some(u) => {
            let v = chars_of(u.as_str());
            begins_str(&v, "http://") || begins_str(&v, "https://")
        },
        None => false,
    }
}

fn first_http_listing(tabs: &[LensListing], kind: &str, only_kind: bool, need_active: bool) -> (r: Option<usize>)
    ensures
        r matches Some(i) ==> i < tabs@.len(),
        opt_usize_int(r) == first_where(tabs@, belongs_http(kind@, only_kind, need_active)),
{
    let ghost p = belongs_http(kind@, only_kind, need_active);
    let mut i: usize = 0;
    while i < tabs.len()
        invariant
            i <= tabs@.len(),
            p == belongs_http(kind@, only_kind, need_active),
            forall|j: int| 0 <= j < i ==> !p(#[trigger] tabs@[j]),
        decreases tabs.len() - i,
    {
        let t = &tabs[i];
        if listing_belongs(t, kind, only_kind) && is_http_tab(t) && (!need_active || t.active) {
            proof {
                lemma_first_where(tabs@, p, i as int);
            }
            return Some(i);
        }
        i = i + 1;
    }
    proof {
        lemma_first_where_none(tabs@, p);
    }
    None
}

fn first_active_listing(tabs: &[LensListing], kind: &str, only_kind: bool) -> (r: Option<usize>)
    ensures
        r matches Some(i) ==> i < tabs@.len(),
        opt_usize_int(r) == first_where(tabs@, belongs_active(kind@, only_kind)),
{
    let ghost p = belongs_active(kind@, only_kind);
    let mut i: usize = 0;
    while i < tabs.len()
        invariant
            i <= tabs@.len(),
            p == belongs_active(kind@, only_kind),
            forall|j: int| 0 <= j < i ==> !p(#[trigger] tabs@[j]),
        decreases tabs.len() - i,
    {
        if listing_belongs(&tabs[i], kind, only_kind) && tabs[i].active {
            proof {
                lemma_first_where(tabs@, p, i as int);
            }
            return Some(i);
        }
        i = i + 1;
    }
    proof {
        lemma_first_where_none(tabs@, p);
    }
    None
}

/// Fills a browser's AX scene from the lens tabs of that browser (see `merge_ok`);
/// `browsers` lists the browsers the lens polls in.
pub fn merge_extension_tabs_into_scene(
    head: &SceneHead,
    app_id: &str,
    tabs: &[LensListing],
    browsers: &[Option<String>],
) -> (r: Option<SceneMerge>)
    ensures
        merge_ok(*head, app_id@, tabs@, browsers@, r),
{
    let kind = match browser_kind_from_app_id(app_id) {
        Some(k) => k,
        None => return None,
    };
    let only = browsers.len() == 1 && match &browsers[0] {
        Some(b) => crate::text::str_eq(b.as_str(), kind),
        None => false,
    };
    let ghost belongs = belongs_to(kind@, only);
    let mut filtered: Vec<usize> = Vec::new();
    let mut i: usize = 0;
    while i < tabs.len()
        invariant
            i <= tabs@.len(),
            belongs == belongs_to(kind@, only),
            crate::browser::usize_ints(filtered@) == crate::browser::hit_indices(tabs@.take(i as int), belongs),
        decreases tabs.len() - i,
    {
        let ghost before = filtered@;
        proof {
            let t = tabs@.take(i + 1);
            assert(t.drop_last() =~= tabs@.take(i as int));
            assert(t.last() == tabs@[i as int]);
        }
        if listing_belongs(&tabs[i], kind, only) {
            filtered.push(i);
            assert(crate::browser::usize_ints(filtered@) =~= crate::browser::usize_ints(before).push(i as int));
        }
        i = i + 1;
    }
    assert(tabs@.take(i as int) =~= tabs@);
    if filtered.len() == 0 {
        return None;
    }
    let pick = match first_http_listing(tabs, kind, only, true) {
        Some(p) => Some(p),
        None => first_http_listing(tabs, kind, only, false),
    };
    let (list, source): (Option<Vec<usize>>, Option<&'static str>) = if head.tabs_empty {
        (Some(filtered), Some("extension_tabs"))
    } else if !head.tabs_source_set {
        (None, Some("ax_scene"))
    } else {
        (None, None)
    };
    let url_tab = match first_active_listing(tabs, kind, only) {
        Some(a) => if is_http_tab(&tabs[a]) {
            Some(a)
        } else {
            first_http_listing(tabs, kind, only, false)
        },
        None => first_http_listing(tabs, kind, only, false),
    };
    let page_url_from = if is_blank(&head.page_url) { url_tab } else { None };
    let tab_id_from = match pick {
        Some(p) => if is_blank(&head.tab_id) && tabs[p].tab_id.is_some() { Some(p) } else { None },
        None => None,
    };
    let page_title_from = match pick {
        Some(p) => if is_blank(&head.page_title) && !is_blank(&tabs[p].title) { Some(p) } else { None },
        None => None,
    };
    Some(SceneMerge { tabs: list, tabs_source: source, page_url_from, tab_id_from, page_title_from })
}

/// Lens tabs attached to a desktop scene as its browser tabs, leaving the AX targets
/// and refs alone: the merge of an empty tab list carrying the scene's URL and title.
pub fn attach_extension_tabs_as_browser_tabs(
    page_url: Option<&str>,
    page_title: Option<&str>,
    app_id: &str,
    tabs: &[LensListing],
    browsers: &[Option<String>],
) -> (r: Option<SceneMerge>)
    ensures
        exists|head: SceneHead|
            head.tabs_empty && !head.tabs_source_set && opt_string_view(head.page_url) == opt_view(page_url)
                && head.tab_id is None && opt_string_view(head.page_title) == opt_view(page_title) && merge_ok(
                head,
                app_id@,
                tabs@,
                browsers@,
                r,
            ),
{
    let head = SceneHead {
        tabs_empty: true,
        tabs_source_set: false,
        page_url: match page_url {
            Some(u) => Some(owned(u)),
            None => None,
        },
        tab_id: None,
        page_title: match page_title {
            Some(t) => Some(owned(t)),
            None => None,
        },
    };
    merge_extension_tabs_into_scene(&head, app_id, tabs, browsers)
}

/// A snapshot carries a screenshot: a non-empty screenshot path, or a `.png` among the
/// paths its handoff asks the host to view.
pub fn snapshot_has_png(screenshot_path: Option<&str>, must_view: Option<&[Option<String>]>) -> (r: bool)
    ensures
        r == ((screenshot_path matches Some(p) && p@.len() > 0) || (must_view matches Some(m) && exists|i: int|
            0 <= i < m@.len() && (#[trigger] m@[i] matches Some(x) && crate::text::finishes(x@, ".png"@)))),
{
    if let Some(p) = screenshot_path {
        if p.unicode_len() > 0 {
            return true;
        }
    }
    let m = match must_view {
        Some(m) => m,
        None => return false,
    };
    let mut i: usize = 0;
    while i < m.len()
        invariant
            i <= m@.len(),
            must_view == Some(m),
            !(screenshot_path matches Some(p) && p@.len() > 0),
            forall|j: int| 0 <= j < i ==> !(#[trigger] m@[j] matches Some(x) && crate::text::finishes(x@, ".png"@)),
        decreases m.len() - i,
    {
        if let Some(x) = &m[i] {
            if crate::text::finishes_str(&chars_of(x.as_str()), ".png") {
                return true;
            }
        }
        i = i + 1;
    }
    false
}

} // verus!
