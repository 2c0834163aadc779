//! Deterministic app backend for tests (no OS dependency).
use vstd::prelude::*;
use crate::error::{ErrorCode, VcuError};
use crate::browser::SceneRef;
use crate::login_state::{first_where, is_first, lemma_first_where, lemma_first_where_none};
use crate::text::{cat, chars_of, eq_ignore_case, owned, same_ignore_case, str_eq};
use super::{denied_app_error, is_denied_app, is_denied_name, is_webview_like, webview_like, AppTarget, DENIED_HEAD, DENIED_TAIL};

verus! {

pub struct MockAppBackend {
    pub targets: Vec<AppTarget>,
}

fn mock_target(id: &str, title: &str, pid: i32, allowed: bool, profile: Option<&str>) -> (t: AppTarget)
    ensures
        t.id@ == id@,
        t.title@ == title@,
        t.bundle_or_exe@ == title@,
        t.pid == Some(pid),
        t.allowed == allowed,
        match (t.browser_profile, profile) {
            (Some(a), Some(b)) => a@ == b@,
            (None, None) => true,
            _ => false,
        },
{
    AppTarget {
        id: owned(id),
        title: owned(title),
        bundle_or_exe: owned(title),
        pid: Some(pid),
        allowed,
        browser_profile: match profile {
            Some(p) => Some(owned(p)),
            None => None,
        },
    }
}

pub const TARGET_MISSING_HEAD: &'static str = "app target ";

/// The first target whose id is `id`.
pub open spec fn target_index(targets: Seq<AppTarget>, id: Seq<char>, i: int) -> bool {
    0 <= i < targets.len() && targets[i].id@ == id && forall|j: int| 0 <= j < i ==> #[trigger] targets[j].id@ != id
}

/// A target is operable unless its title or executable is denied or it is not allowed.
pub open spec fn operable(t: AppTarget) -> bool {
    !is_denied_name(t.title@) && !is_denied_name(t.bundle_or_exe@) && t.allowed
}

impl MockAppBackend {
    /// TextEdit, WeChat (not allowed), Feishu, Finder and a user and an agent Edge.
    pub fn default() -> (b: MockAppBackend)
        ensures
            b.targets@.len() == 6,
            b.targets@[0].id@ == "proc:TextEdit:1"@ && b.targets@[0].allowed,
            b.targets@[1].id@ == "proc:WeChat:2"@ && !b.targets@[1].allowed,
            b.targets@[2].id@ == "proc:Feishu:3"@ && b.targets@[2].allowed,
            b.targets@[3].id@ == "proc:Finder:4"@ && b.targets@[3].allowed,
            b.targets@[4].id@ == "proc:Microsoft_Edge:10"@ && (b.targets@[4].browser_profile matches Some(p) && p@ == "user"@),
            b.targets@[5].id@ == "proc:Microsoft_Edge:11"@ && (b.targets@[5].browser_profile matches Some(p) && p@ == "agent"@),
    {
        let mut targets: Vec<AppTarget> = Vec::new();
        targets.push(mock_target("proc:TextEdit:1", "TextEdit", 1, true, None));
        targets.push(mock_target("proc:WeChat:2", "WeChat", 2, false, None));
        targets.push(mock_target("proc:Feishu:3", "Feishu", 3, true, None));
        targets.push(mock_target("proc:Finder:4", "Finder", 4, true, None));
        targets.push(mock_target("proc:Microsoft_Edge:10", "Microsoft Edge", 10, true, Some("user")));
        targets.push(mock_target("proc:Microsoft_Edge:11", "Microsoft Edge", 11, true, Some("agent")));
        MockAppBackend { targets }
    }

    pub fn platform(&self) -> (r: &'static str)
        ensures
            r@ == "mock-app"@,
    {
        "mock-app"
    }

    /// Index of the target with this id, or a `TabNotFound` refusal.
    pub fn target(&self, id: &str) -> (r: Result<usize, VcuError>)
        ensures
            match r {
                Ok(i) => target_index(self.targets@, id@, i as int),
                Err(e) => e.code == ErrorCode::TabNotFound && e.message@ == TARGET_MISSING_HEAD@ + id@
                    && forall|j: int| 0 <= j < self.targets@.len() ==> #[trigger] self.targets@[j].id@ != id@,
            },
    {
        let mut i: usize = 0;
        while i < self.targets.len()
            invariant
                i <= self.targets@.len(),
                forall|j: int| 0 <= j < i ==> #[trigger] self.targets@[j].id@ != id@,
            decreases self.targets.len() - i,
        {
            if str_eq(self.targets[i].id.as_str(), id) {
                return Ok(i);
            }
            i = i + 1;
        }
        Err(VcuError::coded(ErrorCode::TabNotFound, cat(owned(TARGET_MISSING_HEAD), id)))
    }

    pub fn ensure_operable(&self, target: &AppTarget) -> (r: Result<(), VcuError>)
        ensures
            match r {
                Ok(()) => operable(*target),
                Err(e) => !operable(*target) && e.code == ErrorCode::AppDenied && e.message@
                    == DENIED_HEAD@ + target.title@ + DENIED_TAIL@,
            },
    {
        if is_denied_app(target.title.as_str()) || is_denied_app(target.bundle_or_exe.as_str())
            || !target.allowed {
            return Err(denied_app_error(target.title.as_str()));
        }
        Ok(())
    }

    /// Focus is never taken unless the caller explicitly allows it.
    pub fn focus_window(&mut self, id: &str, allow_focus_steal: bool) -> (r: Result<(), VcuError>)
        ensures
            r is Ok <==> allow_focus_steal,
            r matches Err(e) ==> e.code == ErrorCode::FocusPolicyViolation,
            final(self).targets@ == old(self).targets@,
    {
        if !allow_focus_steal {
            return Err(VcuError::coded(ErrorCode::FocusPolicyViolation, owned("focus steal denied")));
        }
        Ok(())
    }
}

/// A scene element as values: ref, role, name, value.
pub type RefV = (Seq<char>, Seq<char>, Seq<char>, Option<Seq<char>>);

pub open spec fn ref_v(r: SceneRef) -> RefV {
    (r.ref_id@, r.role@, r.name@, match r.value {
        Some(v) => Some(v@),
        None => None,
    })
}

pub open spec fn refs_v(s: Seq<SceneRef>) -> Seq<RefV> {
    s.map_values(|r: SceneRef| ref_v(r))
}

/// Feishu (or Lark): search, the sidebar and chat WebViews, and Send.
pub open spec fn feishu_scene() -> Seq<RefV> {
    seq![
        ("e1"@, "AXButton"@, "搜索（⌘＋K）"@, None),
        ("e14"@, "AXGroup"@, "MultiWebView - messenger"@, None),
        ("e15"@, "AXGroup"@, "MultiWebView - messenger:messenger-chat:default"@, None),
        ("e_send"@, "AXButton"@, "发送"@, None),
    ]
}

/// The user's browser: its page area.
pub open spec fn user_browser_scene() -> Seq<RefV> {
    seq![("e_web"@, "AXWebArea"@, "AXWebArea"@, None)]
}

/// Any other app: an OK button and a text.
pub open spec fn plain_scene() -> Seq<RefV> {
    seq![("e1"@, "button"@, "OK"@, None), ("e2"@, "text"@, "Hello"@, Some("Hello"@))]
}

pub open spec fn mock_scene_of(t: AppTarget) -> Seq<RefV> {
    if eq_ignore_case(t.title@, "Feishu"@) || eq_ignore_case(t.title@, "Lark"@) {
        feishu_scene()
    } else if t.browser_profile matches Some(p) && p@ == "user"@ {
        user_browser_scene()
    } else {
        plain_scene()
    }
}

/// What a mock app action did: the process, the element (if any), the script result,
/// and the input path. None moves the cursor or injects input.
#[derive(Debug, Clone)]
pub struct MockAppAction {
    pub process: String,
    pub element_ref: Option<String>,
    pub result: Option<&'static str>,
    pub value: Option<String>,
    pub path: Option<String>,
    pub dy: Option<i32>,
    pub input_path: &'static str,
    pub os_cursor_used: bool,
    pub hid_injected: bool,
}

pub open spec fn acted(r: MockAppAction, process: Seq<char>, element_ref: Option<Seq<char>>, input_path: Seq<char>) -> bool {
    &&& r.process@ == process
    &&& match (r.element_ref, element_ref) {
        (Some(a), Some(b)) => a@ == b,
        (None, None) => true,
        _ => false,
    }
    &&& r.input_path@ == input_path
    &&& !r.os_cursor_used
    &&& !r.hid_injected
}

fn scene_ref(id: &str, role: &str, name: &str, value: Option<&str>) -> (r: SceneRef)
    ensures
        ref_v(r) == (id@, role@, name@, match value {
            Some(v) => Some(v@),
            None => None,
        }),
{
    SceneRef {
        ref_id: owned(id),
        role: owned(role),
        name: owned(name),
        value: match value {
            Some(v) => Some(owned(v)),
            None => None,
        },
    }
}

/// The first target whose id is `id`, if any.
pub open spec fn target_of(targets: Seq<AppTarget>, id: Seq<char>) -> Option<AppTarget> {
    if exists|i: int| target_index(targets, id, i) {
        Some(targets[choose|i: int| target_index(targets, id, i)])
    } else {
        None
    }
}

proof fn lemma_target_of(targets: Seq<AppTarget>, id: Seq<char>, i: int)
    requires
        target_index(targets, id, i),
    ensures
        target_of(targets, id) == Some(targets[i]),
{
    let j = choose|j: int| target_index(targets, id, j);
    assert(target_index(targets, id, j));
    if j < i {
        assert(targets[j].id@ != id);
    } else if i < j {
        assert(targets[i].id@ != id);
    }
}

/// A refusal an action on `id` gets before doing anything: an unknown target, or one
/// that is not operable.
pub open spec fn refused_target(targets: Seq<AppTarget>, id: Seq<char>, r: Option<VcuError>) -> bool {
    match target_of(targets, id) {
        None => r matches Some(e) && e.code == ErrorCode::TabNotFound && e.message@ == TARGET_MISSING_HEAD@ + id,
        Some(t) => if !operable(t) {
            r matches Some(e) && e.code == ErrorCode::AppDenied && e.message@ == DENIED_HEAD@ + t.title@ + DENIED_TAIL@
        } else {
            r is None
        },
    }
}

pub const FINDER_ONLY_REVEAL: &'static str = "reveal_path is Finder-only";
pub const FINDER_ONLY_OPEN: &'static str = "open_path is Finder-only";

impl MockAppBackend {
    /// The operable target `id`, or the refusal (see `refused_target`).
    fn operable_target(&self, id: &str) -> (r: Result<usize, VcuError>)
        ensures
            refused_target(self.targets@, id@, match r {
                Ok(_) => None,
                Err(e) => Some(e),
            }),
            r matches Ok(i) ==> target_index(self.targets@, id@, i as int),
    {
        let i = match self.target(id) {
            Ok(i) => i,
            Err(e) => {
                proof {
                    if exists|k: int| target_index(self.targets@, id@, k) {
                        let k = choose|k: int| target_index(self.targets@, id@, k);
                        assert(self.targets@[k].id@ != id@);
                    }
                }
                return Err(e);
            },
        };
        proof {
            lemma_target_of(self.targets@, id@, i as int);
        }
        match self.ensure_operable(&self.targets[i]) {
            Ok(()) => Ok(i),
            Err(e) => Err(e),
        }
    }

    /// Every window the mock lists.
    pub fn list_windows(&self) -> (r: Result<Vec<AppTarget>, VcuError>)
        ensures
            r matches Ok(v) && v@.len() == self.targets@.len() && forall|k: int| 0 <= k < v@.len() ==> #[trigger] v@[k].id@
                == self.targets@[k].id@ && v@[k].title@ == self.targets@[k].title@ && v@[k].allowed
                == self.targets@[k].allowed && v@[k].pid == self.targets@[k].pid,
    {
        let mut v: Vec<AppTarget> = Vec::new();
        let mut k: usize = 0;
        while k < self.targets.len()
            invariant
                k <= self.targets@.len(),
                v@.len() == k,
                forall|m: int| 0 <= m < k ==> #[trigger] v@[m].id@ == self.targets@[m].id@ && v@[m].title@
                    == self.targets@[m].title@ && v@[m].allowed == self.targets@[m].allowed && v@[m].pid
                    == self.targets@[m].pid,
            decreases self.targets.len() - k,
        {
            let t = &self.targets[k];
            v.push(AppTarget {
                id: t.id.clone(),
                title: t.title.clone(),
                bundle_or_exe: t.bundle_or_exe.clone(),
                pid: t.pid,
                allowed: t.allowed,
                browser_profile: match &t.browser_profile {
                    Some(p) => Some(p.clone()),
                    None => None,
                },
            });
            k = k + 1;
        }
        Ok(v)
    }

    /// The scene elements of an operable target (see `mock_scene_of`); the host adds
    /// their frames.
    pub fn scene_refs(&self, id: &str) -> (r: Result<Vec<SceneRef>, VcuError>)
        ensures
            refused_target(self.targets@, id@, match r {
                Ok(_) => None,
                Err(e) => Some(e),
            }),
            r matches Ok(v) ==> (target_of(self.targets@, id@) matches Some(t) && refs_v(v@) == mock_scene_of(t)),
    {
        let i = self.operable_target(id)?;
        let t = &self.targets[i];
        let mut v: Vec<SceneRef> = Vec::new();
        let title = chars_of(t.title.as_str());
        let user = match &t.browser_profile {
            Some(p) => str_eq(p.as_str(), "user"),
            None => false,
        };
        if same_ignore_case(&title, &chars_of("Feishu")) || same_ignore_case(&title, &chars_of("Lark")) {
            v.push(scene_ref("e1", "AXButton", "搜索（⌘＋K）", None));
            v.push(scene_ref("e14", "AXGroup", "MultiWebView - messenger", None));
            v.push(scene_ref("e15", "AXGroup", "MultiWebView - messenger:messenger-chat:default", None));
            v.push(scene_ref("e_send", "AXButton", "发送", None));
            assert(refs_v(v@) =~= feishu_scene());
        } else if user {
            v.push(scene_ref("e_web", "AXWebArea", "AXWebArea", None));
            assert(refs_v(v@) =~= user_browser_scene());
        } else {
            v.push(scene_ref("e1", "button", "OK", None));
            v.push(scene_ref("e2", "text", "Hello", Some("Hello")));
            assert(refs_v(v@) =~= plain_scene());
        }
        Ok(v)
    }

    /// Presses an element by AX: on a WebView/messenger element the press is a frame hit.
    pub fn invoke(&mut self, id: &str, element_ref: &str) -> (r: Result<MockAppAction, VcuError>)
        ensures
            final(self).targets@ == old(self).targets@,
            refused_target(old(self).targets@, id@, match r {
                Ok(_) => None,
                Err(e) => Some(e),
            }),
            r matches Ok(a) ==> (target_of(old(self).targets@, id@) matches Some(t) && {
                let web = scene_webview(mock_scene_of(t), element_ref@);
                acted(a, t.title@, Some(element_ref@), if web { "ax_frame_hit"@ } else { "ax_press"@ }) && (a.result matches Some(
                    x,
                ) && x@ == (if web { "ok_webview"@ } else { "ok"@ })) && a.value is None && a.path is None && a.dy is None
            }),
    {
        let refs = self.scene_refs(id)?;
        let web = match first_ref(&refs, element_ref) {
            Some(k) => is_webview_like(refs[k].role.as_str(), refs[k].name.as_str()),
            None => false,
        };
        let i = self.operable_target(id)?;
        proof {
            lemma_target_of(self.targets@, id@, i as int);
        }
        let process = self.targets[i].title.clone();
        Ok(MockAppAction {
            process,
            element_ref: Some(owned(element_ref)),
            result: Some(if web { "ok_webview" } else { "ok" }),
            value: None,
            path: None,
            dy: None,
            input_path: if web { "ax_frame_hit" } else { "ax_press" },
            os_cursor_used: false,
            hid_injected: false,
        })
    }
}

/// The element `r` (its first listing) is a WebView or messenger region.
pub open spec fn scene_webview(scene: Seq<RefV>, r: Seq<char>) -> bool {
    match first_where(scene, |x: RefV| x.0 == r) {
        Some(k) => webview_like(scene[k].1, scene[k].2),
        None => false,
    }
}

fn first_ref(refs: &Vec<SceneRef>, r: &str) -> (x: Option<usize>)
    ensures
        match (x, first_where(refs_v(refs@), |v: RefV| v.0 == r@)) {
            (Some(i), Some(j)) => i == j && i < refs@.len(),
            (None, None) => true,
            _ => false,
        },
{
    let ghost scene = refs_v(refs@);
    let mut k: usize = 0;
    while k < refs.len()
        invariant
            k <= refs@.len(),
            scene == refs_v(refs@),
            forall|m: int| 0 <= m < k ==> (#[trigger] scene[m]).0 != r@,
        decreases refs.len() - k,
    {
        if str_eq(refs[k].ref_id.as_str(), r) {
            proof {
                lemma_first_where(scene, |v: RefV| v.0 == r@, k as int);
            }
            return Some(k);
        }
        k = k + 1;
    }
    proof {
        lemma_first_where_none(scene, |v: RefV| v.0 == r@);
    }
    None
}

impl MockAppBackend {
    /// Sets an element's value by AX.
    pub fn set_value(&mut self, id: &str, element_ref: &str, value: &str) -> (r: Result<MockAppAction, VcuError>)
        ensures
            final(self).targets@ == old(self).targets@,
            refused_target(old(self).targets@, id@, match r {
                Ok(_) => None,
                Err(e) => Some(e),
            }),
            r matches Ok(a) ==> (target_of(old(self).targets@, id@) matches Some(t) && acted(
                a,
                t.title@,
                Some(element_ref@),
                "ax_set_value"@,
            ) && (a.value matches Some(v) && v@ == value@) && a.result is None && a.path is None && a.dy is None),
    {
        let i = self.operable_target(id)?;
        proof {
            lemma_target_of(self.targets@, id@, i as int);
        }
        Ok(MockAppAction {
            process: self.targets[i].title.clone(),
            element_ref: Some(owned(element_ref)),
            result: None,
            value: Some(owned(value)),
            path: None,
            dy: None,
            input_path: "ax_set_value",
            os_cursor_used: false,
            hid_injected: false,
        })
    }

    /// Scrolls an element (or the window) by AX.
    pub fn scroll(&mut self, id: &str, element_ref: Option<&str>, dy: i32) -> (r: Result<MockAppAction, VcuError>)
        ensures
            final(self).targets@ == old(self).targets@,
            refused_target(old(self).targets@, id@, match r {
                Ok(_) => None,
                Err(e) => Some(e),
            }),
            r matches Ok(a) ==> (target_of(old(self).targets@, id@) matches Some(t) && acted(
                a,
                t.title@,
                match element_ref {
                    Some(e) => Some(e@),
                    None => None,
                },
                "ax_scroll"@,
            ) && a.dy == Some(dy) && a.result is None && a.value is None && a.path is None),
    {
        let i = self.operable_target(id)?;
        proof {
            lemma_target_of(self.targets@, id@, i as int);
        }
        Ok(MockAppAction {
            process: self.targets[i].title.clone(),
            element_ref: match element_ref {
                Some(e) => Some(owned(e)),
                None => None,
            },
            result: None,
            value: None,
            path: None,
            dy: Some(dy),
            input_path: "ax_scroll",
            os_cursor_used: false,
            hid_injected: false,
        })
    }

    fn finder_path(&mut self, id: &str, path: &str, reveal: bool) -> (r: Result<MockAppAction, VcuError>)
        ensures
            final(self).targets@ == old(self).targets@,
            match target_of(old(self).targets@, id@) {
                Some(t) if operable(t) && !eq_ignore_case(t.title@, "Finder"@) => r matches Err(e) && e.code
                    == ErrorCode::InvalidInput && e.message@ == (if reveal { FINDER_ONLY_REVEAL@ } else { FINDER_ONLY_OPEN@ }),
                _ => refused_target(old(self).targets@, id@, match r {
                    Ok(_) => None,
                    Err(e) => Some(e),
                }),
            },
            r matches Ok(a) ==> (target_of(old(self).targets@, id@) matches Some(t) && eq_ignore_case(t.title@, "Finder"@)
                && acted(a, t.title@, None, if reveal { "nsworkspace_reveal"@ } else { "nsworkspace_open"@ }) && (a.path matches Some(
                p,
            ) && p@ == path@) && a.result is None && a.value is None && a.dy is None),
    {
        let i = self.operable_target(id)?;
        proof {
            lemma_target_of(self.targets@, id@, i as int);
        }
        let title = chars_of(self.targets[i].title.as_str());
        if !same_ignore_case(&title, &chars_of("Finder")) {
            return Err(VcuError::coded(
                ErrorCode::InvalidInput,
                owned(if reveal { FINDER_ONLY_REVEAL } else { FINDER_ONLY_OPEN }),
            ));
        }
        Ok(MockAppAction {
            process: self.targets[i].title.clone(),
            element_ref: None,
            result: None,
            value: None,
            path: Some(owned(path)),
            dy: None,
            input_path: if reveal { "nsworkspace_reveal" } else { "nsworkspace_open" },
            os_cursor_used: false,
            hid_injected: false,
        })
    }

    /// Reveals a path in Finder (Finder only).
    pub fn reveal_path(&mut self, id: &str, path: &str) -> (r: Result<MockAppAction, VcuError>)
        ensures
            final(self).targets@ == old(self).targets@,
            match target_of(old(self).targets@, id@) {
                Some(t) if operable(t) && !eq_ignore_case(t.title@, "Finder"@) => r matches Err(e) && e.code
                    == ErrorCode::InvalidInput && e.message@ == FINDER_ONLY_REVEAL@,
                _ => refused_target(old(self).targets@, id@, match r {
                    Ok(_) => None,
                    Err(e) => Some(e),
                }),
            },
            r matches Ok(a) ==> (target_of(old(self).targets@, id@) matches Some(t) && eq_ignore_case(t.title@, "Finder"@)
                && acted(a, t.title@, None, "nsworkspace_reveal"@) && (a.path matches Some(p) && p@ == path@)),
    {
        self.finder_path(id, path, true)
    }

    /// Opens a path with Finder (Finder only).
    pub fn open_path(&mut self, id: &str, path: &str) -> (r: Result<MockAppAction, VcuError>)
        ensures
            final(self).targets@ == old(self).targets@,
            match target_of(old(self).targets@, id@) {
                Some(t) if operable(t) && !eq_ignore_case(t.title@, "Finder"@) => r matches Err(e) && e.code
                    == ErrorCode::InvalidInput && e.message@ == FINDER_ONLY_OPEN@,
                _ => refused_target(old(self).targets@, id@, match r {
                    Ok(_) => None,
                    Err(e) => Some(e),
                }),
            },
            r matches Ok(a) ==> (target_of(old(self).targets@, id@) matches Some(t) && eq_ignore_case(t.title@, "Finder"@)
                && acted(a, t.title@, None, "nsworkspace_open"@) && (a.path matches Some(p) && p@ == path@)),
    {
        self.finder_path(id, path, false)
    }
}

} // verus!
