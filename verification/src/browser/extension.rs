//! The command bridge to the browser extension. The daemon queues commands; the
//! extension long-polls for them, runs them in the user's browser and submits each
//! result, which answers the caller waiting on that command id. The clock, the
//! sleeping between polls and the reply channels belong to the host: every operation
//! here takes the current time in milliseconds and says what to hand to whom.
use vstd::prelude::*;
use crate::error::{ErrorCode, VcuError};
use crate::login_state::{first_where, is_first, lemma_first_where, lemma_first_where_none};
use crate::text::{owned, str_eq, cat};
use crate::browser::{base64_decode, base64_standard_decoded, ActionRequest, DomRef, SnapshotData, SnapshotMode};
use crate::tab_params::{get, get_field, JsonNumber, JsonValue};

verus! {

broadcast use vstd::string::group_string_axioms;

/// A queued command: the JSON text of its parameters, the lease a poll gave it, and how
/// often a retryable failure sent it back to the queue.
#[derive(Debug)]
pub struct PendingCmd {
    pub id: String,
    pub method: String,
    pub params: String,
    pub leased_until: Option<u64>,
    pub retries: u8,
}

/// A command handed to the extension.
#[derive(Debug, Clone)]
pub struct ExtensionCommand {
    pub id: String,
    pub method: String,
    pub params: String,
}

/// The bridge's state.
#[derive(Debug)]
pub struct ExtensionBridge {
    connected: bool,
    last_seen_ms: u64,
    last_poll_ms: u64,
    pending: Vec<PendingCmd>,
    waiters: Vec<String>,
    likely_user_profile: bool,
    lease_ms: u64,
}

/// The bridge as values: the queue in arrival order and the ids callers wait on.
pub struct BridgeView {
    pub connected: bool,
    pub last_seen_ms: u64,
    pub last_poll_ms: u64,
    pub pending: Seq<PendingCmd>,
    pub waiters: Seq<Seq<char>>,
    pub likely_user_profile: bool,
    pub lease_ms: u64,
}

impl View for ExtensionBridge {
    type V = BridgeView;

    closed spec fn view(&self) -> BridgeView {
        BridgeView {
            connected: self.connected,
            last_seen_ms: self.last_seen_ms,
            last_poll_ms: self.last_poll_ms,
            pending: self.pending@,
            waiters: self.waiters@.map_values(|w: String| w@),
            likely_user_profile: self.likely_user_profile,
            lease_ms: self.lease_ms,
        }
    }
}

/// Reads may be replayed after a lost reply; a click, type or open may not (a second
/// run could repeat a side effect the user sees).
pub open spec fn replayable(method: Seq<char>) -> bool {
    method == "ping"@ || method == "list_tabs"@ || method == "extract"@ || method == "snapshot"@ || method
        == "screenshot"@
}

/// A command a poll may hand out: never leased, or a read whose lease has run out.
pub open spec fn eligible(c: PendingCmd, now: u64) -> bool {
    match c.leased_until {
        None => true,
        Some(t) => t <= now && replayable(c.method@),
    }
}

pub open spec fn sat_add(a: u64, b: u64) -> u64 {
    if a + b > u64::MAX { u64::MAX } else { (a + b) as u64 }
}

pub open spec fn sat_sub(a: u64, b: u64) -> u64 {
    if a < b { 0 } else { (a - b) as u64 }
}

pub open spec fn has_id(s: Seq<Seq<char>>, id: Seq<char>) -> bool {
    exists|i: int| 0 <= i < s.len() && s[i] == id
}

pub open spec fn no_dups(s: Seq<Seq<char>>) -> bool {
    forall|i: int, j: int| 0 <= i < j < s.len() ==> s[i] != s[j]
}

/// `s` without the entries equal to `id`, the rest in order.
pub open spec fn without(s: Seq<Seq<char>>, id: Seq<char>) -> Seq<Seq<char>>
    decreases s.len(),
{
    if s.len() == 0 {
        s
    } else {
        let r = without(s.drop_last(), id);
        if s.last() == id { r } else { r.push(s.last()) }
    }
}

/// The well-formed bridges: a lease of at least 1 ms, each waiter once, and no command
/// retried more than eight times.
pub open spec fn bridge_wf(v: BridgeView) -> bool {
    &&& v.lease_ms >= 1
    &&& no_dups(v.waiters)
    &&& forall|i: int| 0 <= i < v.pending.len() ==> (#[trigger] v.pending[i]).retries <= MAX_RETRIES
}

pub const MAX_RETRIES: u8 = 8;
pub const DEFAULT_LEASE_MS: u64 = 1_500;
pub const CONNECTED_WINDOW_MS: u64 = 120_000;
pub const POLLING_WINDOW_MS: u64 = 15_000;
pub const NOT_PAIRED: &'static str = "no browser extension is paired with this daemon";

/// `b` is `a` with the poll clocks at `now`.
pub open spec fn polled_at(a: BridgeView, b: BridgeView, now: u64) -> bool {
    &&& b.connected == a.connected
    &&& b.last_seen_ms == now
    &&& b.last_poll_ms == now
    &&& b.waiters == a.waiters
    &&& b.likely_user_profile == a.likely_user_profile
    &&& b.lease_ms == a.lease_ms
}

/// `b` is `a` with command `i` changed to `c` (and nothing else).
pub open spec fn pending_set(a: Seq<PendingCmd>, b: Seq<PendingCmd>, i: int, lease: Option<u64>, retries: u8) -> bool {
    &&& b.len() == a.len()
    &&& 0 <= i < a.len()
    &&& forall|k: int| 0 <= k < a.len() && k != i ==> b[k] == a[k]
    &&& b[i].id == a[i].id
    &&& b[i].method == a[i].method
    &&& b[i].params == a[i].params
    &&& b[i].leased_until == lease
    &&& b[i].retries == retries
}

/// Only the queue and the waiters differ between `a` and `b`.
pub open spec fn same_clocks(a: BridgeView, b: BridgeView) -> bool {
    &&& b.connected == a.connected
    &&& b.last_seen_ms == a.last_seen_ms
    &&& b.last_poll_ms == a.last_poll_ms
    &&& b.likely_user_profile == a.likely_user_profile
    &&& b.lease_ms == a.lease_ms
}

fn clone_cmd(c: &PendingCmd) -> (r: PendingCmd)
    ensures
        r == *c,
{
    PendingCmd {
        id: c.id.clone(),
        method: c.method.clone(),
        params: c.params.clone(),
        leased_until: c.leased_until,
        retries: c.retries,
    }
}

fn is_replayable(method: &str) -> (r: bool)
    ensures
        r == replayable(method@),
{
    str_eq(method, "ping") || str_eq(method, "list_tabs") || str_eq(method, "extract") || str_eq(method, "snapshot")
        || str_eq(method, "screenshot")
}

impl ExtensionBridge {
    /// A bridge with nothing paired, nothing queued and a 1.5 s lease.
    pub fn new() -> (b: ExtensionBridge)
        ensures
            bridge_wf(b@),
            !b@.connected && b@.last_seen_ms == 0 && b@.last_poll_ms == 0,
            b@.pending.len() == 0 && b@.waiters.len() == 0,
            !b@.likely_user_profile,
            b@.lease_ms == DEFAULT_LEASE_MS,
    {
        Self::with_lease_ms(DEFAULT_LEASE_MS)
    }

    /// A bridge whose polls lease a command for `lease_ms` (at least 1 ms).
    pub fn with_lease_ms(lease_ms: u64) -> (b: ExtensionBridge)
        ensures
            bridge_wf(b@),
            !b@.connected && b@.last_seen_ms == 0 && b@.last_poll_ms == 0,
            b@.pending.len() == 0 && b@.waiters.len() == 0,
            !b@.likely_user_profile,
            b@.lease_ms == (if lease_ms < 1 { 1 } else { lease_ms }),
    {
        let b = ExtensionBridge {
            connected: false,
            last_seen_ms: 0,
            last_poll_ms: 0,
            pending: Vec::new(),
            waiters: Vec::new(),
            likely_user_profile: false,
            lease_ms: if lease_ms < 1 { 1 } else { lease_ms },
        };
        assert(b@.waiters =~= Seq::<Seq<char>>::empty());
        b
    }

    /// The extension said hello: it is paired and was seen at `now`; a hello from the
    /// user's profile is remembered.
    pub fn mark_hello(&mut self, now: u64, likely_user_profile: bool)
        requires
            bridge_wf(old(self)@),
        ensures
            bridge_wf(final(self)@),
            final(self)@.connected,
            final(self)@.last_seen_ms == now,
            final(self)@.likely_user_profile == (old(self)@.likely_user_profile || likely_user_profile),
            final(self)@.last_poll_ms == old(self)@.last_poll_ms,
            final(self)@.pending == old(self)@.pending,
            final(self)@.waiters == old(self)@.waiters,
            final(self)@.lease_ms == old(self)@.lease_ms,
    {
        self.connected = true;
        self.last_seen_ms = now;
        if likely_user_profile {
            self.likely_user_profile = true;
        }
    }

    pub fn likely_user_profile(&self) -> (r: bool)
        ensures
            r == self@.likely_user_profile,
    {
        self.likely_user_profile
    }

    /// Paired and seen within the last two minutes.
    pub fn is_connected(&self, now: u64) -> (r: bool)
        ensures
            r == (self@.connected && sat_sub(now, self@.last_seen_ms) < CONNECTED_WINDOW_MS),
    {
        self.connected && now.saturating_sub(self.last_seen_ms) < CONNECTED_WINDOW_MS
    }

    /// Paired and polled within the last fifteen seconds.
    pub fn is_polling(&self, now: u64) -> (r: bool)
        ensures
            r == (self@.connected && sat_sub(now, self@.last_poll_ms) < POLLING_WINDOW_MS),
    {
        self.connected && now.saturating_sub(self.last_poll_ms) < POLLING_WINDOW_MS
    }

    pub fn pending_len(&self) -> (r: usize)
        ensures
            r == self@.pending.len(),
    {
        self.pending.len()
    }

    pub fn waiter_len(&self) -> (r: usize)
        ensures
            r == self@.waiters.len(),
    {
        self.waiters.len()
    }

    /// How long ago the last poll was; `None` before the first.
    pub fn last_poll_age_ms(&self, now: u64) -> (r: Option<u64>)
        ensures
            r == (if self@.last_poll_ms == 0 { None } else { Some(sat_sub(now, self@.last_poll_ms)) }),
    {
        if self.last_poll_ms == 0 {
            None
        } else {
            Some(now.saturating_sub(self.last_poll_ms))
        }
    }

    /// One poll at `now`: the first command in the queue that may be handed out (see
    /// `eligible`), leased until `now + lease`; `None` when there is none, and the host
    /// polls again after a short sleep until its wait runs out.
    pub fn poll_once(&mut self, now: u64) -> (r: Option<ExtensionCommand>)
        requires
            bridge_wf(old(self)@),
        ensures
            bridge_wf(final(self)@),
            polled_at(old(self)@, final(self)@, now),
            match first_where(old(self)@.pending, |c: PendingCmd| eligible(c, now)) {
                None => r is None && final(self)@.pending == old(self)@.pending,
                Some(i) => (r matches Some(c) && c.id == old(self)@.pending[i].id && c.method == old(self)@.pending[i].method
                    && c.params == old(self)@.pending[i].params) && pending_set(
                    old(self)@.pending,
                    final(self)@.pending,
                    i,
                    Some(sat_add(now, old(self)@.lease_ms)),
                    old(self)@.pending[i].retries,
                ),
            },
    {
        self.last_seen_ms = now;
        self.last_poll_ms = now;
        let ghost p = self.pending@;
        let ghost v0 = self@;
        assert(bridge_wf(v0));
        let mut i: usize = 0;
        while i < self.pending.len()
            invariant
                self.pending@ == p,
                self@ == v0,
                v0.pending == p,
                old(self)@.pending == p,
                bridge_wf(v0),
                polled_at(old(self)@, v0, now),
                i <= p.len(),
                forall|k: int| 0 <= k < i ==> !eligible(#[trigger] p[k], now),
            decreases self.pending.len() - i,
        {
            let c = &self.pending[i];
            let ok = match c.leased_until {
                None => true,
                Some(t) => t <= now && is_replayable(c.method.as_str()),
            };
            if ok {
                proof {
                    lemma_first_where(p, |c: PendingCmd| eligible(c, now), i as int);
                }
                let mut cmd = clone_cmd(c);
                let out = ExtensionCommand { id: cmd.id.clone(), method: cmd.method.clone(), params: cmd.params.clone() };
                cmd.leased_until = Some(now.saturating_add(self.lease_ms));
                let ghost leased = cmd;
                self.pending.set(i, cmd);
                assert(self.pending@ == p.update(i as int, leased));
                assert(out.id == p[i as int].id && out.method == p[i as int].method && out.params == p[i as int].params);
                assert(pending_set(p, self@.pending, i as int, Some(sat_add(now, v0.lease_ms)), p[i as int].retries));
                return Some(out);
            }
            i = i + 1;
        }
        proof {
            lemma_first_where_none(p, |c: PendingCmd| eligible(c, now));
        }
        None
    }
}

pub open spec fn strings_v(v: Seq<String>) -> Seq<Seq<char>> {
    v.map_values(|w: String| w@)
}

/// Removing an id keeps the other waiters each once, and that id is gone.
pub proof fn lemma_without(s: Seq<Seq<char>>, id: Seq<char>)
    requires
        no_dups(s),
    ensures
        no_dups(without(s, id)),
        !has_id(without(s, id), id),
        forall|x: Seq<char>| x != id ==> (has_id(without(s, id), x) == has_id(s, x)),
    decreases s.len(),
{
    let f = without(s, id);
    if s.len() > 0 {
        let t = s.drop_last();
        let g = without(t, id);
        assert(no_dups(t));
        lemma_without(t, id);
        assert forall|x: Seq<char>| x != id implies has_id(f, x) == has_id(s, x) by {
            if has_id(s, x) {
                let k = choose|k: int| 0 <= k < s.len() && s[k] == x;
                if k < s.len() - 1 {
                    assert(t[k] == x);
                    assert(has_id(t, x));
                    assert(has_id(g, x));
                    let m = choose|m: int| 0 <= m < g.len() && g[m] == x;
                    if s.last() != id {
                        assert(f[m] == x);
                    }
                } else {
                    assert(f[f.len() - 1] == x);
                }
            }
            if has_id(f, x) {
                let k = choose|k: int| 0 <= k < f.len() && f[k] == x;
                if k < g.len() {
                    assert(g[k] == x);
                    assert(has_id(g, x));
                    assert(has_id(t, x));
                    let m = choose|m: int| 0 <= m < t.len() && t[m] == x;
                    assert(s[m] == x);
                } else {
                    assert(s[s.len() - 1] == x);
                }
            }
        }
        if s.last() != id {
            assert forall|i: int, j: int| 0 <= i < j < f.len() implies f[i] != f[j] by {
                assert(f[i] == g[i]);
                if j < f.len() - 1 {
                    assert(f[j] == g[j]);
                } else if f[i] == f[j] {
                    assert(g[i] == s.last());
                    assert(has_id(g, s.last()));
                    assert(has_id(t, s.last()));
                    let m = choose|m: int| 0 <= m < t.len() && t[m] == s.last();
                    assert(s[m] == s[s.len() - 1]);
                }
            }
            assert(!has_id(f, id)) by {
                if has_id(f, id) {
                    let k = choose|k: int| 0 <= k < f.len() && f[k] == id;
                    if k < g.len() {
                        assert(g[k] == id);
                    }
                }
            }
        }
    }
}

fn find_cmd(p: &Vec<PendingCmd>, id: &str) -> (r: Option<usize>)
    ensures
        match (r, first_where(p@, |c: PendingCmd| c.id@ == id@)) {
            (Some(i), Some(j)) => i == j && i < p@.len(),
            (None, None) => true,
            _ => false,
        },
{
    let mut i: usize = 0;
    while i < p.len()
        invariant
            i <= p@.len(),
            forall|k: int| 0 <= k < i ==> (#[trigger] p@[k]).id@ != id@,
        decreases p.len() - i,
    {
        if str_eq(p[i].id.as_str(), id) {
            proof {
                lemma_first_where(p@, |c: PendingCmd| c.id@ == id@, i as int);
            }
            return Some(i);
        }
        i = i + 1;
    }
    proof {
        lemma_first_where_none(p@, |c: PendingCmd| c.id@ == id@);
    }
    None
}

fn remove_waiter(w: &Vec<String>, id: &str) -> (r: (Vec<String>, bool))
    ensures
        strings_v(r.0@) == without(strings_v(w@), id@),
        r.1 == has_id(strings_v(w@), id@),
{
    let mut out: Vec<String> = Vec::new();
    let mut found = false;
    let mut i: usize = 0;
    while i < w.len()
        invariant
            i <= w@.len(),
            strings_v(out@) == without(strings_v(w@).take(i as int), id@),
            found == has_id(strings_v(w@).take(i as int), id@),
        decreases w.len() - i,
    {
        let ghost before = strings_v(w@).take(i as int);
        assert(strings_v(w@).take(i + 1) =~= before.push(w@[i as int]@));
        assert(strings_v(w@).take(i + 1).drop_last() =~= before);
        if str_eq(w[i].as_str(), id) {
            found = true;
            assert(has_id(strings_v(w@).take(i + 1), id@)) by {
                assert(strings_v(w@).take(i + 1)[i as int] == id@);
            }
        } else {
            out.push(w[i].clone());
            assert(strings_v(out@) =~= without(strings_v(w@).take(i as int), id@).push(w@[i as int]@));
            assert(has_id(strings_v(w@).take(i + 1), id@) == has_id(before, id@)) by {
                let t1 = strings_v(w@).take(i + 1);
                if has_id(t1, id@) {
                    let k = choose|k: int| 0 <= k < t1.len() && t1[k] == id@;
                    assert(k < i);
                    assert(before[k] == id@);
                }
                if has_id(before, id@) {
                    let k = choose|k: int| 0 <= k < before.len() && before[k] == id@;
                    assert(t1[k] == id@);
                }
            }
        }
        i = i + 1;
    }
    assert(strings_v(w@).take(i as int) =~= strings_v(w@));
    (out, found)
}

fn remove_cmds(p: &Vec<PendingCmd>, id: &str) -> (r: Vec<PendingCmd>)
    ensures
        r@ == p@.filter(|c: PendingCmd| c.id@ != id@),
{
    let mut out: Vec<PendingCmd> = Vec::new();
    let mut i: usize = 0;
    while i < p.len()
        invariant
            i <= p@.len(),
            out@ == p@.take(i as int).filter(|c: PendingCmd| c.id@ != id@),
        decreases p.len() - i,
    {
        proof {
            assert(p@.take(i + 1) =~= p@.take(i as int).push(p@[i as int]));
            p@.take(i as int).lemma_filter_push(p@[i as int], |c: PendingCmd| c.id@ != id@);
        }
        if !str_eq(p[i].id.as_str(), id) {
            out.push(clone_cmd(&p[i]));
        }
        i = i + 1;
    }
    assert(p@.take(i as int) =~= p@);
    out
}

/// How a call ended on the host side: a reply (its `ok` flag and JSON text), the
/// extension dropping the command, or the caller's time running out.
#[derive(Debug, Clone)]
pub enum CallEnd {
    Replied { ok: bool, body: String },
    Dropped,
    TimedOut,
}

pub const DROPPED: &'static str = "extension dropped command";
pub const TIMED_OUT: &'static str = "extension command timeout";

/// What a call returns: the reply when it says `ok`; else a failure named by the method
/// with the reply as detail; a dropped command means the extension went away.
pub fn call_result(method: &str, end: CallEnd) -> (r: Result<String, VcuError>)
    ensures
        match end {
            CallEnd::Replied { ok: true, body } => r matches Ok(b) && b@ == body@,
            CallEnd::Replied { ok: false, body } => r matches Err(e) && e.code == ErrorCode::ActionFailed && e.message@
                == method@ && (e.detail matches Some(d) && d@ == body@),
            CallEnd::Dropped => r matches Err(e) && e.code == ErrorCode::ExtensionDisconnected && e.message@ == DROPPED@,
            CallEnd::TimedOut => r matches Err(e) && e.code == ErrorCode::ActionFailed && e.message@ == TIMED_OUT@,
        },
{
    match end {
        CallEnd::Replied { ok, body } => {
            if ok {
                Ok(body)
            } else {
                Err(VcuError::with_detail(ErrorCode::ActionFailed, owned(method), body))
            }
        },
        CallEnd::Dropped => Err(VcuError::coded(ErrorCode::ExtensionDisconnected, owned(DROPPED))),
        CallEnd::TimedOut => Err(VcuError::coded(ErrorCode::ActionFailed, owned(TIMED_OUT))),
    }
}

impl ExtensionBridge {
    /// Queues a call at `now` under the fresh id `id`, and registers its waiter; refused
    /// when no extension is paired (see `is_connected`).
    pub fn enqueue(&mut self, now: u64, id: &str, method: &str, params: &str) -> (r: Result<(), VcuError>)
        requires
            bridge_wf(old(self)@),
        ensures
            bridge_wf(final(self)@),
            same_clocks(old(self)@, final(self)@),
            r is Ok <==> (old(self)@.connected && sat_sub(now, old(self)@.last_seen_ms) < CONNECTED_WINDOW_MS),
            r matches Err(e) ==> e.code == ErrorCode::ExtensionDisconnected && e.message@ == NOT_PAIRED@
                && final(self)@.pending == old(self)@.pending && final(self)@.waiters == old(self)@.waiters,
            r is Ok ==> final(self)@.pending.len() == old(self)@.pending.len() + 1
                && final(self)@.pending.drop_last() == old(self)@.pending
                && final(self)@.pending.last().id@ == id@ && final(self)@.pending.last().method@ == method@
                && final(self)@.pending.last().params@ == params@ && final(self)@.pending.last().leased_until is None
                && final(self)@.pending.last().retries == 0
                && has_id(final(self)@.waiters, id@)
                && forall|x: Seq<char>| x != id@ ==> has_id(final(self)@.waiters, x) == has_id(old(self)@.waiters, x),
    {
        if !self.is_connected(now) {
            return Err(VcuError::coded(ErrorCode::ExtensionDisconnected, owned(NOT_PAIRED)));
        }
        let ghost w0 = self@.waiters;
        let mut listed = false;
        let mut i: usize = 0;
        while i < self.waiters.len()
            invariant
                i <= self.waiters@.len(),
                strings_v(self.waiters@) == w0,
                listed == has_id(w0.take(i as int), id@),
            decreases self.waiters.len() - i,
        {
            if str_eq(self.waiters[i].as_str(), id) {
                listed = true;
                assert(w0.take(i + 1)[i as int] == id@);
            } else {
                assert(has_id(w0.take(i + 1), id@) == has_id(w0.take(i as int), id@)) by {
                    let t1 = w0.take(i + 1);
                    let t0 = w0.take(i as int);
                    if has_id(t1, id@) {
                        let k = choose|k: int| 0 <= k < t1.len() && t1[k] == id@;
                        assert(k < i);
                        assert(t0[k] == id@);
                    }
                    if has_id(t0, id@) {
                        let k = choose|k: int| 0 <= k < t0.len() && t0[k] == id@;
                        assert(t1[k] == id@);
                    }
                }
            }
            i = i + 1;
        }
        assert(w0.take(i as int) =~= w0);
        if !listed {
            self.waiters.push(owned(id));
            assert(strings_v(self.waiters@) =~= w0.push(id@));
            assert(has_id(self@.waiters, id@)) by {
                assert(self@.waiters[w0.len() as int] == id@);
            }
            assert forall|x: Seq<char>| x != id@ implies has_id(self@.waiters, x) == has_id(w0, x) by {
                if has_id(self@.waiters, x) {
                    let k = choose|k: int| 0 <= k < self@.waiters.len() && self@.waiters[k] == x;
                    assert(k < w0.len());
                    assert(w0[k] == x);
                }
                if has_id(w0, x) {
                    let k = choose|k: int| 0 <= k < w0.len() && w0[k] == x;
                    assert(self@.waiters[k] == x);
                }
            }
        }
        let ghost p0 = self.pending@;
        self.pending.push(PendingCmd { id: owned(id), method: owned(method), params: owned(params), leased_until: None, retries: 0 });
        assert(self.pending@.drop_last() =~= p0);
        Ok(())
    }

    /// The result for command `id` arrived. A retryable failure sends the command back
    /// to the queue, unleased, up to eight times; otherwise the command leaves the queue
    /// and `true` says its waiter (if one is registered) gets the result.
    pub fn submit_result(&mut self, id: &str, retryable: bool) -> (delivered: bool)
        requires
            bridge_wf(old(self)@),
        ensures
            bridge_wf(final(self)@),
            same_clocks(old(self)@, final(self)@),
            ({
                let j = first_where(old(self)@.pending, |c: PendingCmd| c.id@ == id@);
                if retryable && j is Some && old(self)@.pending[j->0].retries < MAX_RETRIES {
                    !delivered && final(self)@.waiters == old(self)@.waiters && pending_set(
                        old(self)@.pending,
                        final(self)@.pending,
                        j->0,
                        None,
                        (old(self)@.pending[j->0].retries + 1) as u8,
                    )
                } else {
                    &&& final(self)@.pending == old(self)@.pending.filter(|c: PendingCmd| c.id@ != id@)
                    &&& final(self)@.waiters == without(old(self)@.waiters, id@)
                    &&& delivered == has_id(old(self)@.waiters, id@)
                }
            }),
    {
        if retryable {
            if let Some(i) = find_cmd(&self.pending, id) {
                if self.pending[i].retries < MAX_RETRIES {
                    let mut cmd = clone_cmd(&self.pending[i]);
                    cmd.retries = cmd.retries + 1;
                    cmd.leased_until = None;
                    let ghost p0 = self.pending@;
                    let ghost c = cmd;
                    self.pending.set(i, cmd);
                    assert(self.pending@ == p0.update(i as int, c));
                    assert(self@.waiters == old(self)@.waiters);
                    return false;
                }
            }
        }
        let ghost v0 = self@;
        proof {
            lemma_without(v0.waiters, id@);
        }
        let pending = remove_cmds(&self.pending, id);
        let (waiters, found) = remove_waiter(&self.waiters, id);
        self.pending = pending;
        self.waiters = waiters;
        proof {
            broadcast use vstd::seq_lib::group_filter_ensures;
            assert forall|i: int| 0 <= i < self@.pending.len() implies (#[trigger] self@.pending[i]).retries <= MAX_RETRIES by {
                let q = self@.pending[i];
                assert(v0.pending.filter(|c: PendingCmd| c.id@ != id@).contains(q));
                v0.pending.lemma_filter_contains_rev(|c: PendingCmd| c.id@ != id@, q);
            }
        }
        found
    }

    /// The caller for `id` stopped waiting: its waiter and command are gone.
    pub fn expire(&mut self, id: &str)
        requires
            bridge_wf(old(self)@),
        ensures
            bridge_wf(final(self)@),
            same_clocks(old(self)@, final(self)@),
            final(self)@.pending == old(self)@.pending.filter(|c: PendingCmd| c.id@ != id@),
            final(self)@.waiters == without(old(self)@.waiters, id@),
    {
        let ghost v0 = self@;
        proof {
            lemma_without(v0.waiters, id@);
        }
        let pending = remove_cmds(&self.pending, id);
        let (waiters, _) = remove_waiter(&self.waiters, id);
        self.pending = pending;
        self.waiters = waiters;
        proof {
            broadcast use vstd::seq_lib::group_filter_ensures;
            assert forall|i: int| 0 <= i < self@.pending.len() implies (#[trigger] self@.pending[i]).retries <= MAX_RETRIES by {
                let q = self@.pending[i];
                assert(v0.pending.filter(|c: PendingCmd| c.id@ != id@).contains(q));
                v0.pending.lemma_filter_contains_rev(|c: PendingCmd| c.id@ != id@, q);
            }
        }
    }
}

/// A click, type or open that a poll handed out is never handed out again, whatever the
/// time: only a retryable result puts it back in the queue.
pub proof fn lemma_leased_mutation_not_replayed(c: PendingCmd, now: u64)
    requires
        c.leased_until is Some,
        !replayable(c.method@),
    ensures
        !eligible(c, now),
{
}

/// After a result that is not retried, neither the command nor a waiter for it is left.
pub proof fn lemma_result_settles(old: BridgeView, new: BridgeView, id: Seq<char>)
    requires
        bridge_wf(old),
        new.pending == old.pending.filter(|c: PendingCmd| c.id@ != id),
        new.waiters == without(old.waiters, id),
    ensures
        forall|i: int| 0 <= i < new.pending.len() ==> (#[trigger] new.pending[i]).id@ != id,
        !has_id(new.waiters, id),
{
    broadcast use vstd::seq_lib::group_filter_ensures;
    lemma_without(old.waiters, id);
    assert forall|i: int| 0 <= i < new.pending.len() implies (#[trigger] new.pending[i]).id@ != id by {
        let pred = |c: PendingCmd| c.id@ != id;
        assert(pred(old.pending.filter(pred)[i]));
    }
}

/// A call queued while nothing else can be handed out is what the next poll hands out.
pub proof fn lemma_queued_call_polled_next(old: Seq<PendingCmd>, c: PendingCmd, now: u64)
    requires
        forall|k: int| 0 <= k < old.len() ==> !eligible(#[trigger] old[k], now),
        c.leased_until is None,
    ensures
        first_where(old.push(c), |x: PendingCmd| eligible(x, now)) == Some(old.len() as int),
{
    let s = old.push(c);
    assert forall|k: int| 0 <= k < old.len() implies !eligible(#[trigger] s[k], now) by {
        assert(s[k] == old[k]);
    }
    lemma_first_where(s, |x: PendingCmd| eligible(x, now), old.len() as int);
}

// ---------------------------------------------------------------------------
// The extension backend: what each operation asks the bridge, and what the reply means
// ---------------------------------------------------------------------------

/// A bridge call: the method and its parameters.
#[derive(Debug)]
pub struct BridgeCall {
    pub method: &'static str,
    pub params: JsonValue,
}

pub open spec fn keys_of(v: JsonValue) -> Seq<Seq<char>> {
    match v {
        JsonValue::Object(f) => f@.map_values(|e: (String, JsonValue)| e.0@),
        _ => Seq::empty(),
    }
}

pub open spec fn str_at(v: JsonValue, key: Seq<char>, val: Seq<char>) -> bool {
    get(v, key) matches Some(JsonValue::Str(s)) && s@ == val
}

pub open spec fn opt_str_at(v: JsonValue, key: Seq<char>, val: Option<Seq<char>>) -> bool {
    match val {
        Some(x) => str_at(v, key, x),
        None => get(v, key) == Some(JsonValue::Null),
    }
}

pub open spec fn opt_string_v(s: Option<String>) -> Option<Seq<char>> {
    match s {
        Some(t) => Some(t@),
        None => None,
    }
}

pub const EXT_CLICK_NEEDS_REF: &'static str = "click requires target.ref";
pub const EXT_TYPE_NEEDS_TEXT: &'static str = "type requires args.text";
pub const EXT_NAVIGATE_NEEDS_URL: &'static str = "navigate requires args.url";
pub const EXT_HOVER_NEEDS_REF: &'static str = "hover requires target.ref";
pub const EXT_KEY_NEEDS_KEY: &'static str = "keypress requires args.key";
pub const EXT_OS_CURSOR_DENIED: &'static str = "OS cursor actions are denied by browser session policy";
pub const EXT_NOT_IMPLEMENTED_HEAD: &'static str = "extension action not implemented: ";

pub open spec fn refused_with(r: Result<BridgeCall, VcuError>, code: ErrorCode, msg: Seq<char>) -> bool {
    r matches Err(e) && e.code == code && e.message@ == msg
}

pub open spec fn call_is(r: Result<BridgeCall, VcuError>, method: Seq<char>, keys: Seq<Seq<char>>) -> bool {
    r matches Ok(c) && c.method@ == method && keys_of(c.params) == keys
}

/// The bridge call a page action becomes in tab `tab`: every action goes through the
/// page DOM (OS-cursor actions are denied), `scroll` defaults to 400 px and `wait` to
/// 100 ms.
pub open spec fn action_call_ok(tab: Seq<char>, a: ActionRequest, r: Result<BridgeCall, VcuError>) -> bool {
    let k = a.kind@;
    if k == "os_cursor_move"@ || k == "os_click"@ {
        refused_with(r, ErrorCode::OsCursorDenied, EXT_OS_CURSOR_DENIED@)
    } else if k == "click"@ {
        match a.target_ref {
            None => refused_with(r, ErrorCode::InvalidInput, EXT_CLICK_NEEDS_REF@),
            Some(t) => call_is(r, "click"@, seq!["tab_id"@, "ref"@]) && (r matches Ok(c) && str_at(c.params, "tab_id"@, tab)
                && str_at(c.params, "ref"@, t@)),
        }
    } else if k == "type"@ {
        match a.text {
            None => refused_with(r, ErrorCode::InvalidInput, EXT_TYPE_NEEDS_TEXT@),
            Some(t) => call_is(r, "type"@, seq!["tab_id"@, "text"@, "ref"@]) && (r matches Ok(c) && str_at(
                c.params,
                "tab_id"@,
                tab,
            ) && str_at(c.params, "text"@, t@) && opt_str_at(c.params, "ref"@, opt_string_v(a.target_ref))),
        }
    } else if k == "navigate"@ {
        match a.url {
            None => refused_with(r, ErrorCode::InvalidInput, EXT_NAVIGATE_NEEDS_URL@),
            Some(u) => call_is(r, "navigate"@, seq!["tab_id"@, "url"@]) && (r matches Ok(c) && str_at(c.params, "tab_id"@, tab)
                && str_at(c.params, "url"@, u@)),
        }
    } else if k == "scroll"@ {
        let dy: i64 = match a.dy {
            Some(v) => v,
            None => 400,
        };
        call_is(r, "scroll"@, seq!["tab_id"@, "dy"@]) && (r matches Ok(c) && str_at(c.params, "tab_id"@, tab) && get(
            c.params,
            "dy"@,
        ) == Some(int_json(dy)))
    } else if k == "wait"@ {
        let ms: u64 = match a.ms {
            Some(v) => v,
            None => 100,
        };
        call_is(r, "wait"@, seq!["tab_id"@, "ms"@]) && (r matches Ok(c) && str_at(c.params, "tab_id"@, tab) && get(
            c.params,
            "ms"@,
        ) == Some(JsonValue::Number(JsonNumber::PosInt(ms))))
    } else if k == "hover"@ {
        match a.target_ref {
            None => refused_with(r, ErrorCode::InvalidInput, EXT_HOVER_NEEDS_REF@),
            Some(t) => call_is(r, "hover"@, seq!["tab_id"@, "ref"@]) && (r matches Ok(c) && str_at(c.params, "tab_id"@, tab)
                && str_at(c.params, "ref"@, t@)),
        }
    } else if k == "keypress"@ {
        match a.key {
            None => refused_with(r, ErrorCode::InvalidInput, EXT_KEY_NEEDS_KEY@),
            Some(key) => call_is(r, "keypress"@, seq!["tab_id"@, "key"@]) && (r matches Ok(c) && str_at(
                c.params,
                "tab_id"@,
                tab,
            ) && str_at(c.params, "key"@, key@)),
        }
    } else {
        refused_with(r, ErrorCode::NotImplemented, EXT_NOT_IMPLEMENTED_HEAD@ + k)
    }
}

/// The extension backend never moves the OS cursor, and every action it does send is
/// the action itself (the call's method is the action's kind), aimed at the given tab.
pub proof fn lemma_extension_actions_stay_in_page(tab: Seq<char>, a: ActionRequest, r: Result<BridgeCall, VcuError>)
    requires
        action_call_ok(tab, a, r),
    ensures
        (a.kind@ == "os_cursor_move"@ || a.kind@ == "os_click"@) ==> (r matches Err(e) && e.code
            == ErrorCode::OsCursorDenied),
        r matches Ok(c) ==> c.method@ == a.kind@ && str_at(c.params, "tab_id"@, tab),
{
}

/// An integer as JSON: non-negative ones as such, negative ones as negative.
pub open spec fn int_json(n: i64) -> JsonValue {
    if n >= 0 {
        JsonValue::Number(JsonNumber::PosInt(n as u64))
    } else {
        JsonValue::Number(JsonNumber::NegInt(n))
    }
}

pub(crate) fn jstr(s: &str) -> (v: JsonValue)
    ensures
        v matches JsonValue::Str(t) && t@ == s@,
{
    JsonValue::Str(owned(s))
}

pub(crate) fn obj2(k1: &str, v1: JsonValue, k2: &str, v2: JsonValue) -> (o: JsonValue)
    ensures
        keys_of(o) == seq![k1@, k2@],
        o matches JsonValue::Object(f) && f@.len() == 2 && f@[0].1 == v1 && f@[1].1 == v2,
{
    let mut f: Vec<(String, JsonValue)> = Vec::new();
    f.push((owned(k1), v1));
    f.push((owned(k2), v2));
    let o = JsonValue::Object(f);
    assert(keys_of(o) =~= seq![k1@, k2@]);
    o
}

pub(crate) fn obj3(k1: &str, v1: JsonValue, k2: &str, v2: JsonValue, k3: &str, v3: JsonValue) -> (o: JsonValue)
    ensures
        keys_of(o) == seq![k1@, k2@, k3@],
        o matches JsonValue::Object(f) && f@.len() == 3 && f@[0].1 == v1 && f@[1].1 == v2 && f@[2].1 == v3,
{
    let mut f: Vec<(String, JsonValue)> = Vec::new();
    f.push((owned(k1), v1));
    f.push((owned(k2), v2));
    f.push((owned(k3), v3));
    let o = JsonValue::Object(f);
    assert(keys_of(o) =~= seq![k1@, k2@, k3@]);
    o
}

pub(crate) proof fn lemma_get_first(o: JsonValue, k: int)
    requires
        o matches JsonValue::Object(f) && 0 <= k < f@.len() && forall|j: int| 0 <= j < k ==> f@[j].0@ != f@[k].0@,
    ensures
        o matches JsonValue::Object(f) && get(o, f@[k].0@) == Some(f@[k].1),
{
    if let JsonValue::Object(f) = o {
        lemma_first_where(f@, |e: (String, JsonValue)| e.0@ == f@[k].0@, k);
    }
}

pub(crate) proof fn lemma_get2(o: JsonValue, k1: Seq<char>, k2: Seq<char>)
    requires
        keys_of(o) == seq![k1, k2],
        k1 != k2,
    ensures
        o matches JsonValue::Object(f) && get(o, k1) == Some(f@[0].1) && get(o, k2) == Some(f@[1].1),
{
    assert(keys_of(o).len() == 2);
    if let JsonValue::Object(f) = o {
        assert(keys_of(o).len() == f@.len());
        assert(f@[0].0@ == keys_of(o)[0]);
        assert(f@[1].0@ == keys_of(o)[1]);
        lemma_get_first(o, 0);
        lemma_get_first(o, 1);
    }
}

pub(crate) proof fn lemma_get3(o: JsonValue, k1: Seq<char>, k2: Seq<char>, k3: Seq<char>)
    requires
        keys_of(o) == seq![k1, k2, k3],
        k1 != k2 && k1 != k3 && k2 != k3,
    ensures
        o matches JsonValue::Object(f) && get(o, k1) == Some(f@[0].1) && get(o, k2) == Some(f@[1].1) && get(o, k3)
            == Some(f@[2].1),
{
    assert(keys_of(o).len() == 3);
    if let JsonValue::Object(f) = o {
        assert(keys_of(o).len() == f@.len());
        assert(f@[0].0@ == keys_of(o)[0]);
        assert(f@[1].0@ == keys_of(o)[1]);
        assert(f@[2].0@ == keys_of(o)[2]);
        lemma_get_first(o, 0);
        lemma_get_first(o, 1);
        lemma_get_first(o, 2);
    }
}

fn int_json_exec(n: i64) -> (v: JsonValue)
    ensures
        v == int_json(n),
{
    if n >= 0 {
        JsonValue::Number(JsonNumber::PosInt(n as u64))
    } else {
        JsonValue::Number(JsonNumber::NegInt(n))
    }
}

fn tab_and(tab: &str, key: &'static str, v: JsonValue, method: &'static str) -> (c: BridgeCall)
    requires
        key@.len() != 6,
    ensures
        c.method == method,
        keys_of(c.params) == seq!["tab_id"@, key@],
        str_at(c.params, "tab_id"@, tab@),
        get(c.params, key@) == Some(v),
{
    let o = obj2("tab_id", jstr(tab), key, v);
    proof {
        reveal_strlit("tab_id");
        lemma_get2(o, "tab_id"@, key@);
    }
    BridgeCall { method, params: o }
}

/// The bridge call for a page action in tab `tab` (see `action_call_ok`).
pub fn action_call(tab: &str, action: &ActionRequest) -> (r: Result<BridgeCall, VcuError>)
    ensures
        action_call_ok(tab@, *action, r),
{
    proof {
        reveal_strlit("tab_id");
        reveal_strlit("ref");
        reveal_strlit("text");
        reveal_strlit("url");
        reveal_strlit("dy");
        reveal_strlit("ms");
        reveal_strlit("key");
    }
    let k = action.kind.as_str();
    if str_eq(k, "os_cursor_move") || str_eq(k, "os_click") {
        Err(VcuError::coded(ErrorCode::OsCursorDenied, owned(EXT_OS_CURSOR_DENIED)))
    } else if str_eq(k, "click") {
        match &action.target_ref {
            None => Err(VcuError::coded(ErrorCode::InvalidInput, owned(EXT_CLICK_NEEDS_REF))),
            Some(t) => Ok(tab_and(tab, "ref", jstr(t.as_str()), "click")),
        }
    } else if str_eq(k, "type") {
        match &action.text {
            None => Err(VcuError::coded(ErrorCode::InvalidInput, owned(EXT_TYPE_NEEDS_TEXT))),
            Some(t) => {
                let r = match &action.target_ref {
                    Some(x) => jstr(x.as_str()),
                    None => JsonValue::Null,
                };
                let o = obj3("tab_id", jstr(tab), "text", jstr(t.as_str()), "ref", r);
                proof {
                    assert("tab_id"@.len() == 6 && "text"@.len() == 4 && "ref"@.len() == 3);
                    lemma_get3(o, "tab_id"@, "text"@, "ref"@);
                }
                Ok(BridgeCall { method: "type", params: o })
            },
        }
    } else if str_eq(k, "navigate") {
        match &action.url {
            None => Err(VcuError::coded(ErrorCode::InvalidInput, owned(EXT_NAVIGATE_NEEDS_URL))),
            Some(u) => Ok(tab_and(tab, "url", jstr(u.as_str()), "navigate")),
        }
    } else if str_eq(k, "scroll") {
        let dy: i64 = match action.dy {
            Some(v) => v,
            None => 400,
        };
        Ok(tab_and(tab, "dy", int_json_exec(dy), "scroll"))
    } else if str_eq(k, "wait") {
        let ms: u64 = match action.ms {
            Some(v) => v,
            None => 100,
        };
        Ok(tab_and(tab, "ms", JsonValue::Number(JsonNumber::PosInt(ms)), "wait"))
    } else if str_eq(k, "hover") {
        match &action.target_ref {
            None => Err(VcuError::coded(ErrorCode::InvalidInput, owned(EXT_HOVER_NEEDS_REF))),
            Some(t) => Ok(tab_and(tab, "ref", jstr(t.as_str()), "hover")),
        }
    } else if str_eq(k, "keypress") {
        match &action.key {
            None => Err(VcuError::coded(ErrorCode::InvalidInput, owned(EXT_KEY_NEEDS_KEY))),
            Some(key) => Ok(tab_and(tab, "key", jstr(key.as_str()), "keypress")),
        }
    } else {
        Err(VcuError::coded(ErrorCode::NotImplemented, cat(owned(EXT_NOT_IMPLEMENTED_HEAD), k)))
    }
}

/// The name a snapshot mode travels under.
pub open spec fn mode_name(m: SnapshotMode) -> Seq<char> {
    match m {
        SnapshotMode::A11y => "a11y"@,
        SnapshotMode::Dom => "dom"@,
        SnapshotMode::Text => "text"@,
        SnapshotMode::Full => "full"@,
    }
}

fn mode_name_exec(m: SnapshotMode) -> (r: &'static str)
    ensures
        r@ == mode_name(m),
{
    match m {
        SnapshotMode::A11y => "a11y",
        SnapshotMode::Dom => "dom",
        SnapshotMode::Text => "text",
        SnapshotMode::Full => "full",
    }
}

/// The `snapshot` call for tab `tab`: the tab, the mode's name and the token budget.
pub fn snapshot_call(tab: &str, mode: SnapshotMode, budget_tokens: u64) -> (c: BridgeCall)
    ensures
        c.method@ == "snapshot"@,
        keys_of(c.params) == seq!["tab_id"@, "mode"@, "budget"@],
        str_at(c.params, "tab_id"@, tab@),
        str_at(c.params, "mode"@, mode_name(mode)),
        get(c.params, "budget"@) == Some(JsonValue::Number(JsonNumber::PosInt(budget_tokens))),
{
    let o = obj3(
        "tab_id",
        jstr(tab),
        "mode",
        jstr(mode_name_exec(mode)),
        "budget",
        JsonValue::Number(JsonNumber::PosInt(budget_tokens)),
    );
    proof {
        reveal_strlit("tab_id");
        reveal_strlit("mode");
        reveal_strlit("budget");
        assert("tab_id"@[0] != "budget"@[0]);
        lemma_get3(o, "tab_id"@, "mode"@, "budget"@);
    }
    BridgeCall { method: "snapshot", params: o }
}

/// The string under `key`, when there is one.
pub open spec fn str_of(v: JsonValue, key: Seq<char>) -> Option<Seq<char>> {
    match get(v, key) {
        Some(JsonValue::Str(s)) => Some(s@),
        _ => None,
    }
}

pub open spec fn str_or_empty(v: JsonValue, key: Seq<char>) -> Seq<char> {
    match str_of(v, key) {
        Some(s) => s,
        None => Seq::empty(),
    }
}

/// The items of the array under `key`, or none.
pub open spec fn array_at(v: JsonValue, key: Seq<char>) -> Seq<JsonValue> {
    match get(v, key) {
        Some(JsonValue::Array(a)) => a@,
        _ => Seq::empty(),
    }
}

/// The reported elements that carry a string `ref`, in order; the others are dropped.
pub open spec fn kept_refs(s: Seq<JsonValue>) -> Seq<JsonValue>
    decreases s.len(),
{
    if s.len() == 0 {
        Seq::empty()
    } else {
        let k = kept_refs(s.drop_last());
        if str_of(s.last(), "ref"@) is Some {
            k.push(s.last())
        } else {
            k
        }
    }
}

/// A reported element read as a `DomRef`: its ref, its role and name (empty when
/// missing), no value, and its selector when it has one.
pub open spec fn dom_ref_from(d: DomRef, item: JsonValue) -> bool {
    &&& str_of(item, "ref"@) == Some(d.ref_id@)
    &&& d.role@ == str_or_empty(item, "role"@)
    &&& d.name@ == str_or_empty(item, "name"@)
    &&& d.value is None
    &&& opt_string_v(d.selector) == str_of(item, "selector"@)
}

pub(crate) fn str_field(v: &JsonValue, key: &str) -> (r: Option<String>)
    ensures
        opt_string_v(r) == str_of(*v, key@),
{
    match get_field(v, key) {
        Some(JsonValue::Str(s)) => Some(owned(s.as_str())),
        _ => None,
    }
}

fn str_field_or_empty(v: &JsonValue, key: &str) -> (r: String)
    ensures
        r@ == str_or_empty(*v, key@),
{
    match get_field(v, key) {
        Some(JsonValue::Str(s)) => owned(s.as_str()),
        _ => String::new(),
    }
}

/// The elements of a snapshot reply (see `kept_refs` and `dom_ref_from`).
fn refs_from_reply(v: &JsonValue) -> (r: Vec<DomRef>)
    ensures
        r@.len() == kept_refs(array_at(*v, "dom_refs"@)).len(),
        forall|i: int| 0 <= i < r@.len() ==> dom_ref_from(#[trigger] r@[i], kept_refs(array_at(*v, "dom_refs"@))[i]),
{
    let mut out: Vec<DomRef> = Vec::new();
    proof {
        reveal_strlit("ref");
    }
    match get_field(v, "dom_refs") {
        Some(JsonValue::Array(items)) => {
            let ghost all = items@;
            assert(all.take(0) =~= Seq::<JsonValue>::empty());
            let mut i: usize = 0;
            while i < items.len()
                invariant
                    i <= items@.len(),
                    all == items@,
                    out@.len() == kept_refs(all.take(i as int)).len(),
                    forall|j: int| 0 <= j < out@.len() ==> dom_ref_from(#[trigger] out@[j], kept_refs(all.take(i as int))[j]),
                decreases items.len() - i,
            {
                let item = &items[i];
                proof {
                    assert(all.take(i + 1).drop_last() =~= all.take(i as int));
                    assert(all.take(i + 1).last() == all[i as int]);
                }
                match str_field(item, "ref") {
                    Some(r) => {
                        let d = DomRef {
                            ref_id: r,
                            role: str_field_or_empty(item, "role"),
                            name: str_field_or_empty(item, "name"),
                            value: None,
                            selector: str_field(item, "selector"),
                        };
                        out.push(d);
                    },
                    None => {},
                }
                i = i + 1;
            }
            assert(all.take(items@.len() as int) =~= all);
        },
        _ => {},
    }
    out
}

/// What a `snapshot` reply gives: the summary and body text when they are strings, the
/// elements that carry a ref, no screenshot, whether the page was cut (false unless
/// the reply says so) and the token estimate (0 unless a non-negative integer).
pub fn snapshot_from_reply(v: &JsonValue) -> (r: SnapshotData)
    ensures
        opt_string_v(r.a11y_summary) == str_of(*v, "a11y_summary"@),
        opt_string_v(r.text_excerpt) == str_of(*v, "text_excerpt"@),
        r.screenshot_png is None,
        r.truncated == (get(*v, "truncated"@) == Some(JsonValue::Bool(true))),
        r.budget_tokens_est == (match get(*v, "budget_tokens_est"@) {
            Some(JsonValue::Number(JsonNumber::PosInt(n))) => n,
            _ => 0,
        }),
        r.dom_refs@.len() == kept_refs(array_at(*v, "dom_refs"@)).len(),
        forall|i: int|
            0 <= i < r.dom_refs@.len() ==> dom_ref_from(#[trigger] r.dom_refs@[i], kept_refs(array_at(*v, "dom_refs"@))[i]),
{
    let truncated = match get_field(v, "truncated") {
        Some(JsonValue::Bool(b)) => *b,
        _ => false,
    };
    let est = match get_field(v, "budget_tokens_est") {
        Some(JsonValue::Number(JsonNumber::PosInt(n))) => *n,
        _ => 0,
    };
    SnapshotData {
        a11y_summary: str_field(v, "a11y_summary"),
        dom_refs: refs_from_reply(v),
        text_excerpt: str_field(v, "text_excerpt"),
        screenshot_png: None,
        truncated,
        budget_tokens_est: est,
    }
}

/// The `extract` call: the tab and the CSS selector.
pub fn extract_call(tab: &str, selector: &str) -> (c: BridgeCall)
    ensures
        c.method@ == "extract"@,
        keys_of(c.params) == seq!["tab_id"@, "selector"@],
        str_at(c.params, "tab_id"@, tab@),
        str_at(c.params, "selector"@, selector@),
{
    proof {
        reveal_strlit("selector");
    }
    tab_and(tab, "selector", jstr(selector), "extract")
}

fn take_array_field(given: Vec<(String, JsonValue)>, key: &str) -> (r: Vec<JsonValue>)
    ensures
        r@ == array_at(JsonValue::Object(given), key@),
{
    let ghost whole = JsonValue::Object(given);
    let ghost orig = given@;
    let mut fields = given;
    let mut i: usize = 0;
    while i < fields.len()
        invariant
            i <= fields@.len(),
            fields@ == orig,
            orig == given@,
            whole == JsonValue::Object(given),
            forall|k: int| 0 <= k < i ==> (#[trigger] fields@[k]).0@ != key@,
        decreases fields.len() - i,
    {
        if str_eq(fields[i].0.as_str(), key) {
            proof {
                lemma_first_where(fields@, |f: (String, JsonValue)| f.0@ == key@, i as int);
            }
            let (_, val) = fields.remove(i);
            assert(val == orig[i as int].1);
            match val {
                JsonValue::Array(a) => {
                    return a;
                },
                _ => {
                    let e: Vec<JsonValue> = Vec::new();
                    assert(e@ =~= array_at(whole, key@));
                    return e;
                },
            }
        }
        i = i + 1;
    }
    proof {
        lemma_first_where_none(fields@, |f: (String, JsonValue)| f.0@ == key@);
    }
    Vec::new()
}

/// The matches of an `extract` reply: the items of its `matches` array, or none.
pub fn extract_matches(reply: JsonValue) -> (r: Vec<JsonValue>)
    ensures
        r@ == array_at(reply, "matches"@),
{
    match reply {
        JsonValue::Object(fields) => take_array_field(fields, "matches"),
        _ => Vec::new(),
    }
}

/// The `screenshot` call: the tab and whether the whole page is wanted.
pub fn screenshot_call(tab: &str, full_page: bool) -> (c: BridgeCall)
    ensures
        c.method@ == "screenshot"@,
        keys_of(c.params) == seq!["tab_id"@, "full_page"@],
        str_at(c.params, "tab_id"@, tab@),
        get(c.params, "full_page"@) == Some(JsonValue::Bool(full_page)),
{
    proof {
        reveal_strlit("full_page");
    }
    tab_and(tab, "full_page", JsonValue::Bool(full_page), "screenshot")
}

/// The PNG of a `screenshot` reply: the Base64 text under `png_base64` (empty when
/// missing) decoded, or no bytes when it does not decode.
pub open spec fn reply_png(v: JsonValue) -> Seq<u8> {
    match base64_standard_decoded(str_or_empty(v, "png_base64"@)) {
        Some(b) => b,
        None => Seq::empty(),
    }
}

pub fn screenshot_png_from_reply(v: &JsonValue) -> (r: Vec<u8>)
    ensures
        r@ == reply_png(*v),
{
    let b64 = str_field_or_empty(v, "png_base64");
    match base64_decode(b64.as_str()) {
        Some(b) => b,
        None => Vec::new(),
    }
}

/// The window an `ensure_agent_window` reply names, `"ext"` when it names none.
pub fn window_id_from_reply(v: &JsonValue) -> (r: String)
    ensures
        r@ == (match str_of(*v, "window_id"@) {
            Some(w) => w,
            None => "ext"@,
        }),
{
    match str_field(v, "window_id") {
        Some(w) => w,
        None => owned("ext"),
    }
}

} // verus!
