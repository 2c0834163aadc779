//! A deterministic in-process browser: two tabs (the agent's blank tab and a user mail
//! tab), fixture pages chosen by URL, and page-DOM actions that never touch the OS cursor.
use vstd::prelude::*;
use crate::error::{ErrorCode, VcuError};
use crate::login_state::{first_where, is_first, lemma_first_where, lemma_first_where_none, TabInfo};
use crate::browser::{
    minimal_png, minimal_png_bytes, ActionDetail, ActionRequest, ActionResultDetail, DomRef, ScreenshotData, SnapshotData,
    SnapshotMode,
};
use crate::text::{cat, chars_of, has_str, nat_decimal, owned, seq_has, str_eq, u64_string};
use vstd::string::StringSliceAdditionalSpecFns;
use vstd::utf8::{encode_utf8, is_char_boundary};

verus! {

broadcast use vstd::string::group_string_axioms;

/// One element of a fixture page.
#[derive(Debug)]
pub struct MockNode {
    pub id: String,
    pub role: String,
    pub name: String,
    pub value: String,
    pub tag: String,
    pub text: String,
}

/// A tab: what it shows in the tab strip, its elements and its body text.
#[derive(Debug)]
pub struct MockTab {
    pub info: TabInfo,
    pub nodes: Vec<MockNode>,
    pub body_text: String,
}

/// The mock browser. Its tabs are kept ordered by tab id, each id once.
#[derive(Debug)]
pub struct MockBackend {
    tabs: Vec<MockTab>,
    agent_window_id: String,
}

/// A node as plain text: id, role, name, value, tag, text.
pub type NodeV = (Seq<char>, Seq<char>, Seq<char>, Seq<char>, Seq<char>, Seq<char>);

pub open spec fn node_v(n: MockNode) -> NodeV {
    (n.id@, n.role@, n.name@, n.value@, n.tag@, n.text@)
}

pub open spec fn nodes_v(s: Seq<MockNode>) -> Seq<NodeV> {
    s.map_values(|n: MockNode| node_v(n))
}

/// Code-point lexicographic order, which is the byte order `String` sorts by.
pub open spec fn seq_lt(a: Seq<char>, b: Seq<char>) -> bool
    decreases a.len(),
{
    if a.len() == 0 {
        b.len() > 0
    } else if b.len() == 0 {
        false
    } else if a[0] != b[0] {
        (a[0] as u32) < (b[0] as u32)
    } else {
        seq_lt(a.drop_first(), b.drop_first())
    }
}

fn str_less(a: &str, b: &str) -> (r: bool)
    ensures
        r == seq_lt(a@, b@),
{
    let x = chars_of(a);
    let y = chars_of(b);
    let mut i: usize = 0;
    assert(x@.skip(0) =~= x@);
    assert(y@.skip(0) =~= y@);
    while i < x.len() && i < y.len() && x[i] == y[i]
        invariant
            i <= x@.len(),
            i <= y@.len(),
            x@.take(i as int) == y@.take(i as int),
            seq_lt(x@, y@) == seq_lt(x@.skip(i as int), y@.skip(i as int)),
        decreases x.len() - i,
    {
        proof {
            let (xs, ys) = (x@.skip(i as int), y@.skip(i as int));
            assert(xs.drop_first() =~= x@.skip(i + 1));
            assert(ys.drop_first() =~= y@.skip(i + 1));
            assert(x@.take(i + 1) =~= x@.take(i as int).push(x@[i as int]));
            assert(y@.take(i + 1) =~= y@.take(i as int).push(y@[i as int]));
        }
        i = i + 1;
    }
    proof {
        let (xs, ys) = (x@.skip(i as int), y@.skip(i as int));
        assert(xs.len() == x@.len() - i && ys.len() == y@.len() - i);
        if i < x.len() && i < y.len() {
            assert(xs[0] == x@[i as int] && ys[0] == y@[i as int]);
        }
    }
    if i == x.len() {
        i < y.len()
    } else if i == y.len() {
        false
    } else {
        (x[i] as u32) < (y[i] as u32)
    }
}

/// The blank page: one `document` node.
pub open spec fn blank_nodes() -> Seq<NodeV> {
    seq![("e1"@, "document"@, "blank"@, Seq::empty(), "body"@, Seq::empty())]
}

pub open spec fn example_nodes() -> Seq<NodeV> {
    seq![
        ("e1"@, "heading"@, "Example Domain"@, Seq::empty(), "h1"@, "Example Domain"@),
        ("e2"@, "link"@, "More information..."@, Seq::empty(), "a"@, "More information..."@),
        ("e3"@, "button"@, "Accept"@, Seq::empty(), "button"@, "Accept"@),
        ("e4"@, "textbox"@, "Search"@, Seq::empty(), "input"@, Seq::empty()),
    ]
}

pub open spec fn form_nodes() -> Seq<NodeV> {
    seq![
        ("e1"@, "textbox"@, "Email"@, Seq::empty(), "input"@, Seq::empty()),
        ("e2"@, "button"@, "Submit"@, Seq::empty(), "button"@, "Submit"@),
    ]
}

pub const EXAMPLE_TEXT: &'static str = "Example Domain. This domain is for use in illustrative examples.";

/// The page a URL loads: its title, nodes and body text. `example.com` and form URLs
/// have fixtures; anything else is a blank page titled by its URL.
pub open spec fn fixture_of(url: Seq<char>) -> (Seq<char>, Seq<NodeV>, Seq<char>) {
    if seq_has(url, "example.com"@) {
        ("Example Domain"@, example_nodes(), EXAMPLE_TEXT@)
    } else if seq_has(url, "form"@) {
        ("Form"@, form_nodes(), "Email form"@)
    } else {
        (url, blank_nodes(), "Loaded "@ + url)
    }
}

fn node(id: &str, role: &str, name: &str, tag: &str, text: &str) -> (n: MockNode)
    ensures
        node_v(n) == (id@, role@, name@, Seq::<char>::empty(), tag@, text@),
{
    MockNode {
        id: owned(id),
        role: owned(role),
        name: owned(name),
        value: String::new(),
        tag: owned(tag),
        text: owned(text),
    }
}

fn default_blank_nodes() -> (v: Vec<MockNode>)
    ensures
        nodes_v(v@) == blank_nodes(),
{
    let mut v: Vec<MockNode> = Vec::new();
    v.push(node("e1", "document", "blank", "body", ""));
    proof {
        reveal_strlit("");
        assert(""@ =~= Seq::<char>::empty());
    }
    assert(nodes_v(v@) =~= blank_nodes());
    v
}

fn load_fixture(url: &str) -> (r: (String, Vec<MockNode>, String))
    ensures
        (r.0@, nodes_v(r.1@), r.2@) == fixture_of(url@),
{
    proof {
        reveal_strlit("");
        assert(""@ =~= Seq::<char>::empty());
    }
    let u = chars_of(url);
    if has_str(&u, "example.com") {
        let mut v: Vec<MockNode> = Vec::new();
        v.push(node("e1", "heading", "Example Domain", "h1", "Example Domain"));
        v.push(node("e2", "link", "More information...", "a", "More information..."));
        v.push(node("e3", "button", "Accept", "button", "Accept"));
        v.push(node("e4", "textbox", "Search", "input", ""));
        assert(nodes_v(v@) =~= example_nodes());
        (owned("Example Domain"), v, owned(EXAMPLE_TEXT))
    } else if has_str(&u, "form") {
        let mut v: Vec<MockNode> = Vec::new();
        v.push(node("e1", "textbox", "Email", "input", ""));
        v.push(node("e2", "button", "Submit", "button", "Submit"));
        assert(nodes_v(v@) =~= form_nodes());
        (owned("Form"), v, owned("Email form"))
    } else {
        (owned(url), default_blank_nodes(), cat(owned("Loaded "), url))
    }
}

pub open spec fn ids_sorted(tabs: Seq<MockTab>) -> bool {
    forall|i: int, j: int| 0 <= i < j < tabs.len() ==> seq_lt(#[trigger] tabs[i].info.tab_id@, #[trigger] tabs[j].info.tab_id@)
}

/// The index of the tab with id `id` (ids are unique; the first such tab).
pub open spec fn tab_index(tabs: Seq<MockTab>, id: Seq<char>) -> Option<int> {
    first_where(tabs, |t: MockTab| t.info.tab_id@ == id)
}

/// The index of the node with id `r` in a tab's nodes (the first such node).
pub open spec fn node_index(nodes: Seq<MockNode>, r: Seq<char>) -> Option<int> {
    first_where(nodes, |n: MockNode| n.id@ == r)
}

/// Two tab infos agree on everything but the page (title and URL).
pub open spec fn same_tab_but_page(a: TabInfo, b: TabInfo) -> bool {
    &&& a.tab_id == b.tab_id
    &&& a.window_id == b.window_id
    &&& a.agent_owned == b.agent_owned
    &&& a.borrowed_by == b.borrowed_by
    &&& a.login_state == b.login_state
    &&& a.browser_profile == b.browser_profile
}

/// The agent's starting tab: a blank `about:blank` page in the agent window.
pub open spec fn is_agent_start(t: MockTab, window_id: Seq<char>, tab_id: Seq<char>) -> bool {
    &&& t.info.tab_id@ == tab_id
    &&& t.info.window_id@ == window_id
    &&& t.info.title@ == "Agent Window — New Tab"@
    &&& t.info.url@ == "about:blank"@
    &&& t.info.agent_owned
    &&& t.info.borrowed_by is None
    &&& t.info.login_state is None
    &&& t.info.browser_profile is None
    &&& nodes_v(t.nodes@) == blank_nodes()
    &&& t.body_text@ == Seq::<char>::empty()
}

pub open spec fn inbox_nodes() -> Seq<NodeV> {
    seq![("e1"@, "link"@, "Inbox"@, Seq::empty(), "a"@, "Inbox"@)]
}

/// The user's starting tab: a mail inbox the agent does not own.
pub open spec fn is_user_start(t: MockTab, window_id: Seq<char>, tab_id: Seq<char>) -> bool {
    &&& t.info.tab_id@ == tab_id
    &&& t.info.window_id@ == window_id
    &&& t.info.title@ == "User Mail"@
    &&& t.info.url@ == "https://mail.example.com/inbox"@
    &&& !t.info.agent_owned
    &&& t.info.borrowed_by is None
    &&& t.info.login_state is None
    &&& t.info.browser_profile is None
    &&& nodes_v(t.nodes@) == inbox_nodes()
    &&& t.body_text@ == "Inbox messages"@
}

pub const TAB_HEAD: &'static str = "tab ";

fn clone_opt(s: &Option<String>) -> (r: Option<String>)
    ensures
        r == *s,
{
    match s {
        Some(v) => Some(v.clone()),
        None => None,
    }
}

fn clone_info(t: &TabInfo) -> (r: TabInfo)
    ensures
        r == *t,
{
    TabInfo {
        tab_id: t.tab_id.clone(),
        window_id: t.window_id.clone(),
        title: t.title.clone(),
        url: t.url.clone(),
        agent_owned: t.agent_owned,
        borrowed_by: clone_opt(&t.borrowed_by),
        login_state: t.login_state,
        browser_profile: clone_opt(&t.browser_profile),
    }
}

fn clone_node(n: &MockNode) -> (r: MockNode)
    ensures
        r == *n,
{
    MockNode {
        id: n.id.clone(),
        role: n.role.clone(),
        name: n.name.clone(),
        value: n.value.clone(),
        tag: n.tag.clone(),
        text: n.text.clone(),
    }
}

fn clone_nodes(v: &Vec<MockNode>) -> (r: Vec<MockNode>)
    ensures
        r@ == v@,
{
    let mut r: Vec<MockNode> = Vec::new();
    let mut i: usize = 0;
    while i < v.len()
        invariant
            i <= v@.len(),
            r@ == v@.take(i as int),
        decreases v.len() - i,
    {
        r.push(clone_node(&v[i]));
        i = i + 1;
        assert(r@ =~= v@.take(i as int));
    }
    assert(v@.take(v@.len() as int) =~= v@);
    r
}

fn tab_not_found(tab_id: &str) -> (e: VcuError)
    ensures
        e.code == ErrorCode::TabNotFound,
        e.message@ == TAB_HEAD@ + tab_id@,
        e.detail is None,
{
    VcuError::coded(ErrorCode::TabNotFound, cat(owned(TAB_HEAD), tab_id))
}

fn find_tab(tabs: &Vec<MockTab>, tab_id: &str) -> (r: Option<usize>)
    ensures
        match (r, tab_index(tabs@, tab_id@)) {
            (Some(i), Some(j)) => i == j && i < tabs@.len(),
            (None, None) => true,
            _ => false,
        },
{
    let mut i: usize = 0;
    while i < tabs.len()
        invariant
            i <= tabs@.len(),
            forall|k: int| 0 <= k < i ==> tabs@[k].info.tab_id@ != tab_id@,
        decreases tabs.len() - i,
    {
        if str_eq(tabs[i].info.tab_id.as_str(), tab_id) {
            proof {
                lemma_first_where(tabs@, |t: MockTab| t.info.tab_id@ == tab_id@, i as int);
            }
            return Some(i);
        }
        i = i + 1;
    }
    proof {
        lemma_first_where_none(tabs@, |t: MockTab| t.info.tab_id@ == tab_id@);
    }
    None
}

fn find_node(nodes: &Vec<MockNode>, r: &str) -> (x: Option<usize>)
    ensures
        match (x, node_index(nodes@, r@)) {
            (Some(i), Some(j)) => i == j && i < nodes@.len(),
            (None, None) => true,
            _ => false,
        },
{
    let mut i: usize = 0;
    while i < nodes.len()
        invariant
            i <= nodes@.len(),
            forall|k: int| 0 <= k < i ==> nodes@[k].id@ != r@,
        decreases nodes.len() - i,
    {
        if str_eq(nodes[i].id.as_str(), r) {
            proof {
                lemma_first_where(nodes@, |n: MockNode| n.id@ == r@, i as int);
            }
            return Some(i);
        }
        i = i + 1;
    }
    proof {
        lemma_first_where_none(nodes@, |n: MockNode| n.id@ == r@);
    }
    None
}

impl MockBackend {
    /// The tabs, in tab-id order.
    pub closed spec fn tabs(self) -> Seq<MockTab> {
        self.tabs@
    }

    pub closed spec fn agent_window(self) -> Seq<char> {
        self.agent_window_id@
    }

    pub open spec fn wf(self) -> bool {
        ids_sorted(self.tabs())
    }

    /// The agent's blank tab in window `window_id` and the user's inbox tab in
    /// `user_window_id`, keyed by their tab ids (a second tab under the same id
    /// replaces the first).
    pub fn new(window_id: &str, agent_tab_id: &str, user_window_id: &str, user_tab_id: &str) -> (b: MockBackend)
        ensures
            b.wf(),
            b.agent_window() == window_id@,
            agent_tab_id@ == user_tab_id@ ==> b.tabs().len() == 1 && is_user_start(b.tabs()[0], user_window_id@, user_tab_id@),
            agent_tab_id@ != user_tab_id@ ==> b.tabs().len() == 2 && (if seq_lt(agent_tab_id@, user_tab_id@) {
                is_agent_start(b.tabs()[0], window_id@, agent_tab_id@) && is_user_start(b.tabs()[1], user_window_id@, user_tab_id@)
            } else {
                is_user_start(b.tabs()[0], user_window_id@, user_tab_id@) && is_agent_start(b.tabs()[1], window_id@, agent_tab_id@)
            }),
    {
        proof {
            reveal_strlit("");
            assert(""@ =~= Seq::<char>::empty());
        }
        let agent = MockTab {
            info: TabInfo {
                tab_id: owned(agent_tab_id),
                window_id: owned(window_id),
                title: owned("Agent Window — New Tab"),
                url: owned("about:blank"),
                agent_owned: true,
                borrowed_by: None,
                login_state: None,
                browser_profile: None,
            },
            nodes: default_blank_nodes(),
            body_text: String::new(),
        };
        let mut inbox: Vec<MockNode> = Vec::new();
        inbox.push(node("e1", "link", "Inbox", "a", "Inbox"));
        assert(nodes_v(inbox@) =~= inbox_nodes());
        let user = MockTab {
            info: TabInfo {
                tab_id: owned(user_tab_id),
                window_id: owned(user_window_id),
                title: owned("User Mail"),
                url: owned("https://mail.example.com/inbox"),
                agent_owned: false,
                borrowed_by: None,
                login_state: None,
                browser_profile: None,
            },
            nodes: inbox,
            body_text: owned("Inbox messages"),
        };
        let mut tabs: Vec<MockTab> = Vec::new();
        if str_eq(agent_tab_id, user_tab_id) {
            tabs.push(user);
        } else if str_less(agent_tab_id, user_tab_id) {
            tabs.push(agent);
            tabs.push(user);
        } else {
            proof {
                lemma_seq_lt_total(agent_tab_id@, user_tab_id@);
            }
            tabs.push(user);
            tabs.push(agent);
        }
        MockBackend { tabs, agent_window_id: owned(window_id) }
    }
}

/// Distinct texts are ordered one way or the other.
pub proof fn lemma_seq_lt_total(a: Seq<char>, b: Seq<char>)
    requires
        a != b,
    ensures
        seq_lt(a, b) || seq_lt(b, a),
    decreases a.len(),
{
    if a.len() > 0 && b.len() > 0 && a[0] == b[0] {
        if a.drop_first() == b.drop_first() {
            assert(a =~= seq![a[0]] + a.drop_first());
            assert(b =~= seq![b[0]] + b.drop_first());
        }
        lemma_seq_lt_total(a.drop_first(), b.drop_first());
    } else if a.len() == 0 && b.len() == 0 {
        assert(a =~= b);
    } else if a.len() > 0 && b.len() > 0 {
        vstd::utf8::char_u32_cast(a[0], a[0] as u32);
        vstd::utf8::char_u32_cast(b[0], b[0] as u32);
    }
}

// ---------------------------------------------------------------------------
// Snapshots
// ---------------------------------------------------------------------------

/// The accessibility line of a page: its title, URL and node count.
pub open spec fn a11y_of(info: TabInfo, n: nat) -> Seq<char> {
    "document title=\""@ + info.title@ + "\" url=\""@ + info.url@ + "\" nodes="@ + nat_decimal(n)
}

/// The token estimate: a quarter of the bytes of the summary and body, with 24 bytes a node.
pub open spec fn est_of(a11y: Seq<char>, text: Seq<char>, n: nat) -> int {
    ((encode_utf8(a11y).len() + encode_utf8(text).len() + n * 24) / 4) as int
}

/// A budget of 0 means unlimited.
pub open spec fn effective_budget(budget: u64) -> int {
    if budget == 0 { u64::MAX as int } else { budget as int }
}

/// Bytes of body text a cut snapshot keeps: four a token, at most the whole text.
pub open spec fn keep_bytes(budget: u64, len: int) -> int {
    let b = (budget as usize) as int;
    let k = if b * 4 <= usize::MAX { b * 4 } else { usize::MAX as int };
    if k < len { k } else { len }
}

/// Nodes a cut snapshot keeps: one per ten tokens, at least one.
pub open spec fn max_refs(budget: u64) -> int {
    let m = (budget as usize) as int / 10;
    if m < 1 { 1 } else { m }
}

pub type RefV = (Seq<char>, Seq<char>, Seq<char>, Option<Seq<char>>, Option<Seq<char>>);

pub open spec fn dom_ref_v(d: DomRef) -> RefV {
    (d.ref_id@, d.role@, d.name@, match d.value { Some(v) => Some(v@), None => None }, match d.selector {
        Some(v) => Some(v@),
        None => None,
    })
}

/// The element a node becomes: its value only when non-empty, its selector `tag#id`.
pub open spec fn node_ref_v(n: MockNode) -> RefV {
    (n.id@, n.role@, n.name@, if n.value@.len() == 0 { None } else { Some(n.value@) }, Some(n.tag@ + "#"@ + n.id@))
}

pub open spec fn snapshot_cut(t: MockTab, budget: u64) -> bool {
    est_of(a11y_of(t.info, t.nodes@.len()), t.body_text@, t.nodes@.len()) > effective_budget(budget)
}

/// What a snapshot of `t` can be taken on: the byte counts add up within `usize`, and a
/// cut of the body text falls on a character boundary (cutting inside one panics).
pub open spec fn snapshot_input_ok(t: MockTab, budget: u64) -> bool {
    let body = encode_utf8(t.body_text@);
    &&& encode_utf8(a11y_of(t.info, t.nodes@.len())).len() + body.len() + t.nodes@.len() * 24 <= usize::MAX
    &&& snapshot_cut(t, budget) && keep_bytes(budget, body.len() as int) < body.len() ==> is_char_boundary(
        body,
        keep_bytes(budget, body.len() as int),
    )
}

/// The body text a snapshot carries: whole, or its first `keep_bytes` bytes when cut.
pub open spec fn excerpt_ok(x: Seq<char>, t: MockTab, budget: u64) -> bool {
    let body = encode_utf8(t.body_text@);
    if snapshot_cut(t, budget) {
        encode_utf8(x) == body.take(keep_bytes(budget, body.len() as int))
    } else {
        x == t.body_text@
    }
}

/// The elements a snapshot carries: every node's, or the first `max_refs` when cut.
pub open spec fn refs_ok(refs: Seq<DomRef>, t: MockTab, budget: u64) -> bool {
    let n = t.nodes@.len() as int;
    let keep = if snapshot_cut(t, budget) && n > max_refs(budget) { max_refs(budget) } else { n };
    &&& refs.len() == keep
    &&& forall|k: int| 0 <= k < keep ==> dom_ref_v(#[trigger] refs[k]) == node_ref_v(t.nodes@[k])
}

pub open spec fn snapshot_matches(d: SnapshotData, t: MockTab, mode: SnapshotMode, budget: u64) -> bool {
    let n = t.nodes@.len();
    let a = a11y_of(t.info, n);
    let est = est_of(a, t.body_text@, n);
    let eb = effective_budget(budget);
    &&& d.truncated == (est > eb)
    &&& d.budget_tokens_est == (if est < eb { est } else { eb })
    &&& d.screenshot_png matches Some(p) && p@ == minimal_png_bytes()
    &&& match mode {
        SnapshotMode::A11y => (d.a11y_summary matches Some(s) && s@ == a) && d.text_excerpt is None && refs_ok(
            d.dom_refs@,
            t,
            budget,
        ),
        SnapshotMode::Text => d.a11y_summary is None && (d.text_excerpt matches Some(x) && excerpt_ok(x@, t, budget))
            && d.dom_refs@.len() == 0,
        SnapshotMode::Dom => d.a11y_summary is None && d.text_excerpt is None && refs_ok(d.dom_refs@, t, budget),
        SnapshotMode::Full => (d.a11y_summary matches Some(s) && s@ == a) && (d.text_excerpt matches Some(x)
            && excerpt_ok(x@, t, budget)) && refs_ok(d.dom_refs@, t, budget),
    }
}

fn node_ref(n: &MockNode) -> (d: DomRef)
    ensures
        dom_ref_v(d) == node_ref_v(*n),
{
    let value = if n.value.as_str().is_empty() { None } else { Some(n.value.clone()) };
    let selector = cat(cat(n.tag.clone(), "#"), n.id.as_str());
    DomRef { ref_id: n.id.clone(), role: n.role.clone(), name: n.name.clone(), value, selector: Some(selector) }
}

fn tab_snapshot(t: &MockTab, mode: SnapshotMode, budget_tokens: u64) -> (d: SnapshotData)
    requires
        snapshot_input_ok(*t, budget_tokens),
    ensures
        snapshot_matches(d, *t, mode, budget_tokens),
{
    let n = t.nodes.len();
    let a11y = cat(
        cat(cat(cat(cat(owned("document title=\""), t.info.title.as_str()), "\" url=\""), t.info.url.as_str()), "\" nodes="),
        u64_string(n as u64).as_str(),
    );
    assert(a11y@ == a11y_of(t.info, n as nat));
    let body = t.body_text.as_str();
    let est_bytes: usize = a11y.as_str().len() + body.len() + n * 24;
    let est: u64 = est_bytes as u64 / 4;
    let budget: u64 = if budget_tokens == 0 { u64::MAX } else { budget_tokens };
    let truncated = est > budget;
    assert(est == est_of(a11y@, t.body_text@, n as nat));
    assert(budget == effective_budget(budget_tokens));
    assert(truncated == snapshot_cut(*t, budget_tokens));
    let mut keep_refs = n;
    let mut text = owned(body);
    if truncated {
        let b = budget as usize;
        let k4: usize = if b <= usize::MAX / 4 { b * 4 } else { usize::MAX };
        let keep: usize = if k4 < body.len() { k4 } else { body.len() };
        assert(keep == keep_bytes(budget_tokens, encode_utf8(t.body_text@).len() as int));
        if keep < body.len() {
            let (head, _) = body.split_at(keep);
            text = owned(head);
            assert(encode_utf8(text@) == head.spec_bytes());
        } else {
            assert(encode_utf8(t.body_text@).take(keep as int) =~= encode_utf8(t.body_text@));
        }
        assert(excerpt_ok(text@, *t, budget_tokens));
        let m = if b / 10 < 1 { 1 } else { b / 10 };
        if n > m {
            keep_refs = m;
        }
    }
    let mut refs: Vec<DomRef> = Vec::new();
    let mut k: usize = 0;
    while k < keep_refs
        invariant
            keep_refs <= n == t.nodes@.len(),
            k <= keep_refs,
            refs@.len() == k,
            forall|j: int| 0 <= j < k ==> dom_ref_v(#[trigger] refs@[j]) == node_ref_v(t.nodes@[j]),
        decreases keep_refs - k,
    {
        refs.push(node_ref(&t.nodes[k]));
        k = k + 1;
    }
    assert(refs_ok(refs@, *t, budget_tokens));
    assert(excerpt_ok(text@, *t, budget_tokens));
    let png = Some(minimal_png());
    let est_out = if est < budget { est } else { budget };
    match mode {
        SnapshotMode::A11y => SnapshotData {
            a11y_summary: Some(a11y),
            dom_refs: refs,
            text_excerpt: None,
            screenshot_png: png,
            truncated,
            budget_tokens_est: est_out,
        },
        SnapshotMode::Text => SnapshotData {
            a11y_summary: None,
            dom_refs: Vec::new(),
            text_excerpt: Some(text),
            screenshot_png: png,
            truncated,
            budget_tokens_est: est_out,
        },
        SnapshotMode::Dom => SnapshotData {
            a11y_summary: None,
            dom_refs: refs,
            text_excerpt: None,
            screenshot_png: png,
            truncated,
            budget_tokens_est: est_out,
        },
        SnapshotMode::Full => SnapshotData {
            a11y_summary: Some(a11y),
            dom_refs: refs,
            text_excerpt: Some(text),
            screenshot_png: png,
            truncated,
            budget_tokens_est: est_out,
        },
    }
}

// ---------------------------------------------------------------------------
// The backend's operations
// ---------------------------------------------------------------------------

/// Whether a node answers an extract selector: `*`, its tag, role or id, or `#` and its id.
pub open spec fn extract_hit(n: MockNode, sel: Seq<char>) -> bool {
    ||| sel == "*"@
    ||| n.tag@ == sel
    ||| n.role@ == sel
    ||| n.id@ == sel
    ||| (sel.len() > 0 && sel[0] == '#' && sel.drop_first() == n.id@)
}

/// The nodes an extract returns, in page order.
pub open spec fn extract_hits(nodes: Seq<MockNode>, sel: Seq<char>) -> Seq<NodeV>
    decreases nodes.len(),
{
    if nodes.len() == 0 {
        Seq::empty()
    } else {
        let rest = extract_hits(nodes.drop_last(), sel);
        if extract_hit(nodes.last(), sel) { rest.push(node_v(nodes.last())) } else { rest }
    }
}

/// `new` is `old` with the value of node `j` of tab `i` set to `text`.
pub open spec fn typed_into(old: Seq<MockTab>, new: Seq<MockTab>, i: int, j: int, text: Seq<char>) -> bool {
    &&& new.len() == old.len()
    &&& 0 <= i < old.len()
    &&& forall|k: int| 0 <= k < old.len() && k != i ==> new[k] == old[k]
    &&& new[i].info == old[i].info
    &&& new[i].body_text == old[i].body_text
    &&& new[i].nodes@.len() == old[i].nodes@.len()
    &&& 0 <= j < old[i].nodes@.len()
    &&& forall|m: int| 0 <= m < old[i].nodes@.len() && m != j ==> new[i].nodes@[m] == old[i].nodes@[m]
    &&& new[i].nodes@[j].id == old[i].nodes@[j].id
    &&& new[i].nodes@[j].role == old[i].nodes@[j].role
    &&& new[i].nodes@[j].name == old[i].nodes@[j].name
    &&& new[i].nodes@[j].tag == old[i].nodes@[j].tag
    &&& new[i].nodes@[j].text == old[i].nodes@[j].text
    &&& new[i].nodes@[j].value@ == text
}

/// `new` is `old` with tab `i` showing the page `url` loads.
pub open spec fn navigated(old: Seq<MockTab>, new: Seq<MockTab>, i: int, url: Seq<char>) -> bool {
    let page = fixture_of(url);
    &&& new.len() == old.len()
    &&& 0 <= i < old.len()
    &&& forall|k: int| 0 <= k < old.len() && k != i ==> new[k] == old[k]
    &&& same_tab_but_page(new[i].info, old[i].info)
    &&& new[i].info.url@ == url
    &&& new[i].info.title@ == page.0
    &&& nodes_v(new[i].nodes@) == page.1
    &&& new[i].body_text@ == page.2
}

pub open spec fn opt_view(o: Option<&str>) -> Option<Seq<char>> {
    match o {
        Some(s) => Some(s@),
        None => None,
    }
}

/// What a click on `target` in tab `tab_id` answers (the tabs do not change).
pub open spec fn click_outcome(tabs: Seq<MockTab>, tab_id: Seq<char>, target: Seq<char>, r: Result<ActionResultDetail, VcuError>) -> bool {
    match tab_index(tabs, tab_id) {
        None => r matches Err(e) && e.code == ErrorCode::TabNotFound && e.message@ == TAB_HEAD@ + tab_id,
        Some(i) => match node_index(tabs[i].nodes@, target) {
            None => r matches Err(e) && e.code == ErrorCode::InvalidInput && e.message@ == UNKNOWN_REF_HEAD@ + target,
            Some(j) => r matches Ok(d) && d.ok && (d.detail matches ActionDetail::Clicked { target: t, role, name }
                && t@ == target && role == tabs[i].nodes@[j].role && name == tabs[i].nodes@[j].name),
        },
    }
}

/// What typing `text` (into `target`, if any) in tab `tab_id` answers, and how the tabs
/// go from `old` to `new`.
pub open spec fn type_outcome(
    old: Seq<MockTab>,
    new: Seq<MockTab>,
    tab_id: Seq<char>,
    text: Seq<char>,
    target: Option<Seq<char>>,
    r: Result<ActionResultDetail, VcuError>,
) -> bool {
    &&& r is Err ==> new == old
    &&& r matches Ok(d) ==> d.ok && (d.detail matches ActionDetail::Typed { text: t, into } && t@ == text && match (
        into,
        target,
    ) {
        (Some(a), Some(b)) => a@ == b,
        (None, None) => true,
        _ => false,
    })
    &&& match tab_index(old, tab_id) {
        None => r matches Err(e) && e.code == ErrorCode::TabNotFound && e.message@ == TAB_HEAD@ + tab_id,
        Some(i) => match target {
            None => r is Ok && new == old,
            Some(t) => match node_index(old[i].nodes@, t) {
                None => r matches Err(e) && e.code == ErrorCode::InvalidInput && e.message@ == UNKNOWN_REF_HEAD@ + t,
                Some(j) => r is Ok && typed_into(old, new, i, j, text),
            },
        },
    }
}

/// What loading `url` into tab `tab_id` answers, and how the tabs go from `old` to `new`.
pub open spec fn navigate_outcome(old: Seq<MockTab>, new: Seq<MockTab>, tab_id: Seq<char>, url: Seq<char>, ok: bool, err: Option<VcuError>) -> bool {
    match tab_index(old, tab_id) {
        Some(i) => ok && navigated(old, new, i, url),
        None => !ok && (err matches Some(e) && e.code == ErrorCode::TabNotFound && e.message@ == TAB_HEAD@ + tab_id)
            && new == old,
    }
}

pub const UNKNOWN_REF_HEAD: &'static str = "unknown ref ";
pub const OS_CURSOR_DENIED: &'static str = "OS cursor actions are denied by browser session policy";
pub const NOT_IN_MOCK_HEAD: &'static str = "action not implemented in mock: ";

fn unknown_ref(r: &str) -> (e: VcuError)
    ensures
        e.code == ErrorCode::InvalidInput,
        e.message@ == UNKNOWN_REF_HEAD@ + r@,
{
    VcuError::coded(ErrorCode::InvalidInput, cat(owned(UNKNOWN_REF_HEAD), r))
}

impl MockBackend {
    pub fn name(&self) -> (r: &'static str)
        ensures
            r@ == "mock"@,
    {
        "mock"
    }

    /// The agent window's id.
    pub fn ensure_agent_window(&mut self) -> (r: Result<String, VcuError>)
        ensures
            *final(self) == *old(self),
            r matches Ok(w) && w@ == old(self).agent_window(),
    {
        Ok(self.agent_window_id.clone())
    }

    /// The agent-owned tab's id (the first in id order).
    pub fn agent_tab_id(&self) -> (r: Result<String, VcuError>)
        ensures
            match first_where(self.tabs(), |t: MockTab| t.info.agent_owned) {
                Some(i) => r matches Ok(id) && id@ == self.tabs()[i].info.tab_id@,
                None => r matches Err(e) && e.code == ErrorCode::Internal && e.message@ == "mock agent tab missing"@,
            },
    {
        let mut i: usize = 0;
        while i < self.tabs.len()
            invariant
                i <= self.tabs@.len(),
                forall|k: int| 0 <= k < i ==> !(#[trigger] self.tabs@[k]).info.agent_owned,
            decreases self.tabs.len() - i,
        {
            if self.tabs[i].info.agent_owned {
                proof {
                    lemma_first_where(self.tabs@, |t: MockTab| t.info.agent_owned, i as int);
                }
                return Ok(self.tabs[i].info.tab_id.clone());
            }
            i = i + 1;
        }
        proof {
            lemma_first_where_none(self.tabs@, |t: MockTab| t.info.agent_owned);
        }
        Err(VcuError::coded(ErrorCode::Internal, owned("mock agent tab missing")))
    }

    /// Every tab's info, in tab-id order.
    pub fn list_tabs(&self) -> (r: Result<Vec<TabInfo>, VcuError>)
        ensures
            r matches Ok(v) && v@ == self.tabs().map_values(|t: MockTab| t.info),
    {
        let mut v: Vec<TabInfo> = Vec::new();
        let mut i: usize = 0;
        while i < self.tabs.len()
            invariant
                i <= self.tabs@.len(),
                v@ == self.tabs@.take(i as int).map_values(|t: MockTab| t.info),
            decreases self.tabs.len() - i,
        {
            v.push(clone_info(&self.tabs[i].info));
            i = i + 1;
            assert(v@ =~= self.tabs@.take(i as int).map_values(|t: MockTab| t.info));
        }
        assert(self.tabs@.take(i as int) =~= self.tabs@);
        Ok(v)
    }

    /// Loads `url` into the tab: its fixture page, or a blank page titled by the URL.
    pub fn navigate(&mut self, tab_id: &str, url: &str) -> (r: Result<(), VcuError>)
        requires
            old(self).wf(),
        ensures
            final(self).wf(),
            final(self).agent_window() == old(self).agent_window(),
            navigate_outcome(old(self).tabs(), final(self).tabs(), tab_id@, url@, r is Ok, match r {
                Ok(_) => None,
                Err(e) => Some(e),
            }),
    {
        let i = match find_tab(&self.tabs, tab_id) {
            Some(i) => i,
            None => return Err(tab_not_found(tab_id)),
        };
        let (title, nodes, text) = load_fixture(url);
        let old_info = clone_info(&self.tabs[i].info);
        let tab = MockTab {
            info: TabInfo {
                tab_id: old_info.tab_id,
                window_id: old_info.window_id,
                title,
                url: owned(url),
                agent_owned: old_info.agent_owned,
                borrowed_by: old_info.borrowed_by,
                login_state: old_info.login_state,
                browser_profile: old_info.browser_profile,
            },
            nodes,
            body_text: text,
        };
        let ghost before = self.tabs@;
        self.tabs.set(i, tab);
        assert(forall|k: int| 0 <= k < self.tabs@.len() ==> #[trigger] self.tabs@[k].info.tab_id == before[k].info.tab_id);
        Ok(())
    }

    /// A snapshot of the tab (see `snapshot_matches`).
    pub fn snapshot(&self, tab_id: &str, mode: SnapshotMode, budget_tokens: u64) -> (r: Result<SnapshotData, VcuError>)
        requires
            tab_index(self.tabs(), tab_id@) matches Some(i) ==> snapshot_input_ok(self.tabs()[i], budget_tokens),
        ensures
            match tab_index(self.tabs(), tab_id@) {
                Some(i) => r matches Ok(d) && snapshot_matches(d, self.tabs()[i], mode, budget_tokens),
                None => r matches Err(e) && e.code == ErrorCode::TabNotFound && e.message@ == TAB_HEAD@ + tab_id@,
            },
    {
        match find_tab(&self.tabs, tab_id) {
            Some(i) => Ok(tab_snapshot(&self.tabs[i], mode, budget_tokens)),
            None => Err(tab_not_found(tab_id)),
        }
    }

    /// Clicks a node through the page DOM.
    pub fn click(&mut self, tab_id: &str, target_ref: &str) -> (r: Result<ActionResultDetail, VcuError>)
        ensures
            *final(self) == *old(self),
            click_outcome(old(self).tabs(), tab_id@, target_ref@, r),
    {
        let i = match find_tab(&self.tabs, tab_id) {
            Some(i) => i,
            None => return Err(tab_not_found(tab_id)),
        };
        match find_node(&self.tabs[i].nodes, target_ref) {
            Some(j) => {
                let n = &self.tabs[i].nodes[j];
                Ok(ActionResultDetail {
                    ok: true,
                    detail: ActionDetail::Clicked { target: owned(target_ref), role: n.role.clone(), name: n.name.clone() },
                })
            },
            None => Err(unknown_ref(target_ref)),
        }
    }

    /// Types `text` into the node `target_ref` (sets its value); with no target it only
    /// reports the typing.
    pub fn type_text(&mut self, tab_id: &str, text: &str, target_ref: Option<&str>) -> (r: Result<ActionResultDetail, VcuError>)
        requires
            old(self).wf(),
        ensures
            final(self).wf(),
            final(self).agent_window() == old(self).agent_window(),
            type_outcome(old(self).tabs(), final(self).tabs(), tab_id@, text@, opt_view(target_ref), r),
    {
        let i = match find_tab(&self.tabs, tab_id) {
            Some(i) => i,
            None => return Err(tab_not_found(tab_id)),
        };
        let target = match target_ref {
            Some(t) => {
                match find_node(&self.tabs[i].nodes, t) {
                    Some(j) => {
                        let old_tab = &self.tabs[i];
                        let mut nodes = clone_nodes(&old_tab.nodes);
                        let mut nd = clone_node(&nodes[j]);
                        nd.value = owned(text);
                        nodes.set(j, nd);
                        let tab = MockTab { info: clone_info(&old_tab.info), nodes, body_text: old_tab.body_text.clone() };
                        let ghost before = self.tabs@;
                        self.tabs.set(i, tab);
                        assert(forall|k: int| 0 <= k < self.tabs@.len() ==> #[trigger] self.tabs@[k].info.tab_id
                            == before[k].info.tab_id);
                        Some(owned(t))
                    },
                    None => return Err(unknown_ref(t)),
                }
            },
            None => None,
        };
        Ok(ActionResultDetail { ok: true, detail: ActionDetail::Typed { text: owned(text), into: target } })
    }

    /// The nodes of the tab that answer `selector`, in page order.
    pub fn extract(&self, tab_id: &str, selector: &str) -> (r: Result<Vec<MockNode>, VcuError>)
        ensures
            match tab_index(self.tabs(), tab_id@) {
                None => r matches Err(e) && e.code == ErrorCode::TabNotFound && e.message@ == TAB_HEAD@ + tab_id@,
                Some(i) => r matches Ok(v) && nodes_v(v@) == extract_hits(self.tabs()[i].nodes@, selector@),
            },
    {
        let i = match find_tab(&self.tabs, tab_id) {
            Some(i) => i,
            None => return Err(tab_not_found(tab_id)),
        };
        let nodes = &self.tabs[i].nodes;
        let sel = chars_of(selector);
        let mut out: Vec<MockNode> = Vec::new();
        let mut k: usize = 0;
        while k < nodes.len()
            invariant
                k <= nodes@.len(),
                sel@ == selector@,
                nodes_v(out@) == extract_hits(nodes@.take(k as int), selector@),
            decreases nodes.len() - k,
        {
            let n = &nodes[k];
            let hit = str_eq(selector, "*") || str_eq(n.tag.as_str(), selector) || str_eq(n.role.as_str(), selector)
                || str_eq(n.id.as_str(), selector) || (sel.len() > 0 && sel[0] == '#' && id_after_hash(&sel, n.id.as_str()));
            proof {
                assert(nodes@.take(k + 1).drop_last() =~= nodes@.take(k as int));
                assert(nodes@.take(k + 1).last() == nodes@[k as int]);
            }
            if hit {
                out.push(clone_node(n));
                assert(nodes_v(out@) =~= extract_hits(nodes@.take(k + 1), selector@));
            }
            k = k + 1;
        }
        assert(nodes@.take(k as int) =~= nodes@);
        Ok(out)
    }

    /// A screenshot of the tab: the one-pixel PNG.
    pub fn screenshot(&self, tab_id: &str, full_page: bool) -> (r: Result<ScreenshotData, VcuError>)
        ensures
            match tab_index(self.tabs(), tab_id@) {
                None => r matches Err(e) && e.code == ErrorCode::TabNotFound && e.message@ == TAB_HEAD@ + tab_id@,
                Some(_) => r matches Ok(s) && s.png@ == minimal_png_bytes() && s.width == 1 && s.height == 1,
            },
    {
        match find_tab(&self.tabs, tab_id) {
            Some(_) => Ok(ScreenshotData { png: minimal_png(), width: 1, height: 1 }),
            None => Err(tab_not_found(tab_id)),
        }
    }
}

/// `sel` is `#` followed by `id`.
fn id_after_hash(sel: &Vec<char>, id: &str) -> (r: bool)
    requires
        sel@.len() > 0,
    ensures
        r == (sel@.drop_first() == id@),
{
    let idv = chars_of(id);
    if idv.len() != sel.len() - 1 {
        assert(sel@.drop_first().len() != idv@.len());
        return false;
    }
    let mut k: usize = 0;
    while k < idv.len()
        invariant
            idv@ == id@,
            idv@.len() + 1 == sel@.len(),
            k <= idv@.len(),
            forall|m: int| 0 <= m < k ==> sel@[m + 1] == idv@[m],
        decreases idv.len() - k,
    {
        if sel[k + 1] != idv[k] {
            assert(sel@.drop_first()[k as int] != idv@[k as int]);
            return false;
        }
        k = k + 1;
    }
    assert(sel@.drop_first() =~= idv@);
    true
}

pub const CLICK_NEEDS_REF: &'static str = "click requires target.ref";
pub const TYPE_NEEDS_TEXT: &'static str = "type requires args.text";
pub const NAVIGATE_NEEDS_URL: &'static str = "navigate requires args.url";

pub open spec fn opt_string_view(o: Option<String>) -> Option<Seq<char>> {
    match o {
        Some(s) => Some(s@),
        None => None,
    }
}

pub open spec fn refused(r: Result<ActionResultDetail, VcuError>, code: ErrorCode, msg: Seq<char>) -> bool {
    r matches Err(e) && e.code == code && e.message@ == msg
}

/// What an action answers, by kind, and how the tabs go from `old` to `new`: `click`,
/// `type` and `navigate` as their own operations (refused without their ref, text or
/// URL); `scroll` (400 by default) and `wait` (100 ms by default, slept at most 5 s)
/// change nothing; OS-cursor actions are denied; any other kind is not implemented.
pub open spec fn act_outcome(old: Seq<MockTab>, new: Seq<MockTab>, tab_id: Seq<char>, a: ActionRequest, r: Result<ActionResultDetail, VcuError>) -> bool {
    let k = a.kind@;
    if k == "click"@ {
        new == old && match a.target_ref {
            None => refused(r, ErrorCode::InvalidInput, CLICK_NEEDS_REF@),
            Some(t) => click_outcome(old, tab_id, t@, r),
        }
    } else if k == "type"@ {
        match a.text {
            None => new == old && refused(r, ErrorCode::InvalidInput, TYPE_NEEDS_TEXT@),
            Some(t) => type_outcome(old, new, tab_id, t@, opt_string_view(a.target_ref), r),
        }
    } else if k == "navigate"@ {
        match a.url {
            None => new == old && refused(r, ErrorCode::InvalidInput, NAVIGATE_NEEDS_URL@),
            Some(u) => navigate_outcome(old, new, tab_id, u@, r is Ok, match r {
                Ok(_) => None,
                Err(e) => Some(e),
            }) && (r matches Ok(d) ==> d.ok && (d.detail matches ActionDetail::Navigated { url } && url@ == u@)),
        }
    } else if k == "scroll"@ {
        new == old && (r matches Ok(d) && d.ok && (d.detail matches ActionDetail::Scrolled { dy } && dy == match a.dy {
            Some(v) => v,
            None => 400,
        }))
    } else if k == "wait"@ {
        let ms: u64 = match a.ms {
            Some(v) => v,
            None => 100,
        };
        new == old && (r matches Ok(d) && d.ok && (d.detail matches ActionDetail::Waited { ms: m, sleep_ms } && m == ms
            && sleep_ms == (if ms < 5000 { ms } else { 5000 })))
    } else if k == "os_cursor_move"@ || k == "os_click"@ {
        new == old && refused(r, ErrorCode::OsCursorDenied, OS_CURSOR_DENIED@)
    } else {
        new == old && refused(r, ErrorCode::NotImplemented, NOT_IN_MOCK_HEAD@ + k)
    }
}

impl MockBackend {
    /// Runs one page action on the tab (see `act_outcome`).
    pub fn act(&mut self, tab_id: &str, action: &ActionRequest) -> (r: Result<ActionResultDetail, VcuError>)
        requires
            old(self).wf(),
        ensures
            final(self).wf(),
            final(self).agent_window() == old(self).agent_window(),
            act_outcome(old(self).tabs(), final(self).tabs(), tab_id@, *action, r),
    {
        let k = action.kind.as_str();
        if str_eq(k, "click") {
            match &action.target_ref {
                None => Err(VcuError::coded(ErrorCode::InvalidInput, owned(CLICK_NEEDS_REF))),
                Some(t) => self.click(tab_id, t.as_str()),
            }
        } else if str_eq(k, "type") {
            match &action.text {
                None => Err(VcuError::coded(ErrorCode::InvalidInput, owned(TYPE_NEEDS_TEXT))),
                Some(t) => {
                    let target = match &action.target_ref {
                        Some(r) => Some(r.as_str()),
                        None => None,
                    };
                    self.type_text(tab_id, t.as_str(), target)
                },
            }
        } else if str_eq(k, "navigate") {
            match &action.url {
                None => Err(VcuError::coded(ErrorCode::InvalidInput, owned(NAVIGATE_NEEDS_URL))),
                Some(u) => match self.navigate(tab_id, u.as_str()) {
                    Ok(()) => Ok(ActionResultDetail { ok: true, detail: ActionDetail::Navigated { url: u.clone() } }),
                    Err(e) => Err(e),
                },
            }
        } else if str_eq(k, "scroll") {
            let dy: i64 = match action.dy {
                Some(v) => v,
                None => 400,
            };
            Ok(ActionResultDetail { ok: true, detail: ActionDetail::Scrolled { dy } })
        } else if str_eq(k, "wait") {
            let ms: u64 = match action.ms {
                Some(v) => v,
                None => 100,
            };
            let sleep_ms: u64 = if ms < 5000 { ms } else { 5000 };
            Ok(ActionResultDetail { ok: true, detail: ActionDetail::Waited { ms, sleep_ms } })
        } else if str_eq(k, "os_cursor_move") || str_eq(k, "os_click") {
            Err(VcuError::coded(ErrorCode::OsCursorDenied, owned(OS_CURSOR_DENIED)))
        } else {
            Err(VcuError::coded(ErrorCode::NotImplemented, cat(owned(NOT_IN_MOCK_HEAD), k)))
        }
    }
}

/// What is typed into an element is what a later snapshot shows as its value (for a
/// non-empty text, in every mode that lists elements, when the element is listed).
pub proof fn lemma_typed_value_in_snapshot(
    old: Seq<MockTab>,
    new: Seq<MockTab>,
    i: int,
    j: int,
    text: Seq<char>,
    d: SnapshotData,
    mode: SnapshotMode,
    budget: u64,
)
    requires
        typed_into(old, new, i, j, text),
        text.len() > 0,
        snapshot_matches(d, new[i], mode, budget),
        mode != SnapshotMode::Text,
        j < d.dom_refs@.len(),
    ensures
        d.dom_refs@[j].value matches Some(v) && v@ == text,
        d.dom_refs@[j].ref_id@ == old[i].nodes@[j].id@,
{
    assert(dom_ref_v(d.dom_refs@[j]) == node_ref_v(new[i].nodes@[j]));
}

/// An OS-cursor action is always denied and changes nothing, whatever the tab.
pub proof fn lemma_os_cursor_denied(
    old: Seq<MockTab>,
    new: Seq<MockTab>,
    tab_id: Seq<char>,
    a: ActionRequest,
    r: Result<ActionResultDetail, VcuError>,
)
    requires
        act_outcome(old, new, tab_id, a, r),
        a.kind@ == "os_cursor_move"@ || a.kind@ == "os_click"@,
    ensures
        r matches Err(e) && e.code == ErrorCode::OsCursorDenied,
        new == old,
{
    reveal_strlit("os_cursor_move");
    reveal_strlit("os_click");
    reveal_strlit("click");
    reveal_strlit("type");
    reveal_strlit("navigate");
    reveal_strlit("scroll");
    reveal_strlit("wait");
    let k = a.kind@;
    assert(k[0] == 'o');
    assert(k != "click"@ && k != "type"@ && k != "navigate"@ && k != "scroll"@ && k != "wait"@) by {
        assert("click"@[0] == 'c' && "type"@[0] == 't' && "navigate"@[0] == 'n');
        assert("scroll"@[0] == 's' && "wait"@[0] == 'w');
    }
}

} // verus!
