//! The daemon's session book: each session's revision, its blackboard revision and
//! open loops, and the user tabs it has borrowed. A user tab is borrowed by at most one
//! session at a time; stopping a session returns everything it borrowed.
use vstd::prelude::*;
use crate::error::{ErrorCode, VcuError};
use crate::login_state::{first_where, is_first, lemma_first_where, lemma_first_where_none};
use crate::login_state::TabInfo;
use crate::text::{cat, owned, str_eq};

verus! {

broadcast use vstd::string::group_string_axioms;

/// One session's record.
#[derive(Debug)]
pub struct SessionRecord {
    pub session_id: String,
    pub revision: u64,
    pub blackboard_revision: u64,
    pub open_loops: Vec<String>,
    pub borrows: Vec<String>,
}

/// The open sessions, each id once.
#[derive(Debug)]
pub struct SessionBook {
    slots: Vec<SessionRecord>,
}

pub open spec fn holds(r: SessionRecord, tab: Seq<char>) -> bool {
    exists|i: int| 0 <= i < r.borrows@.len() && (#[trigger] r.borrows@[i])@ == tab
}

pub open spec fn record_index(recs: Seq<SessionRecord>, id: Seq<char>) -> Option<int> {
    first_where(recs, |r: SessionRecord| r.session_id@ == id)
}

/// A session other than `id` that holds `tab`.
pub open spec fn held_elsewhere(r: SessionRecord, id: Seq<char>, tab: Seq<char>) -> bool {
    r.session_id@ != id && holds(r, tab)
}

/// The first session other than `id` that holds `tab`.
pub open spec fn other_holder(recs: Seq<SessionRecord>, id: Seq<char>, tab: Seq<char>) -> Option<int> {
    first_where(recs, |r: SessionRecord| held_elsewhere(r, id, tab))
}

pub open spec fn distinct_borrows(r: SessionRecord) -> bool {
    forall|i: int, j: int| 0 <= i < j < r.borrows@.len() ==> (#[trigger] r.borrows@[i])@ != (#[trigger] r.borrows@[j])@
}

/// Well-formed: ids distinct, each record's borrows distinct, and no tab held by two
/// sessions.
pub open spec fn book_wf(recs: Seq<SessionRecord>) -> bool {
    &&& forall|i: int, j: int| 0 <= i < j < recs.len() ==> (#[trigger] recs[i]).session_id@ != (#[trigger] recs[j]).session_id@
    &&& forall|i: int| 0 <= i < recs.len() ==> distinct_borrows(#[trigger] recs[i])
    &&& forall|i: int, j: int, t: Seq<char>|
        #![trigger holds(recs[i], t), holds(recs[j], t)]
        0 <= i < recs.len() && 0 <= j < recs.len() && i != j && holds(recs[i], t) ==> !holds(recs[j], t)
}

/// A fresh record: revision 1, nothing open, nothing borrowed.
pub open spec fn fresh(r: SessionRecord, id: Seq<char>) -> bool {
    &&& r.session_id@ == id
    &&& r.revision == 1
    &&& r.blackboard_revision == 1
    &&& r.open_loops@.len() == 0
    &&& r.borrows@.len() == 0
}

pub const SESSION_HEAD: &'static str = "session ";
pub const TAB_HEAD: &'static str = "tab ";
pub const HELD_BY: &'static str = " held by ";
pub const HELP_HEAD: &'static str = "human_help:";

fn session_not_found(id: &str) -> (e: VcuError)
    ensures
        e.code == ErrorCode::SessionNotFound,
        e.message@ == SESSION_HEAD@ + id@,
{
    VcuError::coded(ErrorCode::SessionNotFound, cat(owned(SESSION_HEAD), id))
}

fn holds_exec(r: &SessionRecord, tab: &str) -> (b: bool)
    ensures
        b == holds(*r, tab@),
{
    let mut i: usize = 0;
    while i < r.borrows.len()
        invariant
            i <= r.borrows@.len(),
            forall|k: int| 0 <= k < i ==> (#[trigger] r.borrows@[k])@ != tab@,
        decreases r.borrows.len() - i,
    {
        if str_eq(r.borrows[i].as_str(), tab) {
            return true;
        }
        i = i + 1;
    }
    false
}

impl SessionBook {
    pub closed spec fn records(self) -> Seq<SessionRecord> {
        self.slots@
    }

    pub fn new() -> (b: SessionBook)
        ensures
            b.records().len() == 0,
            book_wf(b.records()),
    {
        SessionBook { slots: Vec::new() }
    }

    fn find(&self, id: &str) -> (r: Option<usize>)
        ensures
            match (r, record_index(self.records(), id@)) {
                (Some(i), Some(j)) => i == j && i < self.records().len(),
                (None, None) => true,
                _ => false,
            },
            r is None ==> forall|k: int| 0 <= k < self.records().len() ==> (#[trigger] self.records()[k]).session_id@ != id@,
    {
        let mut i: usize = 0;
        while i < self.slots.len()
            invariant
                i <= self.slots@.len(),
                forall|k: int| 0 <= k < i ==> (#[trigger] self.slots@[k]).session_id@ != id@,
            decreases self.slots.len() - i,
        {
            if str_eq(self.slots[i].session_id.as_str(), id) {
                proof {
                    lemma_first_where(self.slots@, |r: SessionRecord| r.session_id@ == id@, i as int);
                }
                return Some(i);
            }
            i = i + 1;
        }
        proof {
            lemma_first_where_none(self.slots@, |r: SessionRecord| r.session_id@ == id@);
        }
        None
    }
}

/// `b` is `a` with record `i` replaced by `r`.
pub open spec fn replaced(a: Seq<SessionRecord>, b: Seq<SessionRecord>, i: int) -> bool {
    &&& b.len() == a.len()
    &&& 0 <= i < a.len()
    &&& forall|k: int| 0 <= k < a.len() && k != i ==> b[k] == a[k]
    &&& b[i].session_id@ == a[i].session_id@
}

/// Record `i` moved to the next revision, the blackboard with it.
pub open spec fn bumped(a: SessionRecord, b: SessionRecord) -> bool {
    &&& b.revision == a.revision + 1
    &&& b.blackboard_revision == b.revision
}

fn clone_strings(v: &Vec<String>) -> (r: Vec<String>)
    ensures
        r@ == v@,
{
    let mut r: Vec<String> = Vec::new();
    let mut i: usize = 0;
    while i < v.len()
        invariant
            i <= v@.len(),
            r@ == v@.take(i as int),
        decreases v.len() - i,
    {
        r.push(v[i].clone());
        i = i + 1;
        assert(r@ =~= v@.take(i as int));
    }
    assert(v@.take(i as int) =~= v@);
    r
}

proof fn lemma_fresh_keeps_wf(a: Seq<SessionRecord>, b: Seq<SessionRecord>, i: int)
    requires
        book_wf(a),
        replaced(a, b, i),
        b[i].borrows@.len() == 0,
    ensures
        book_wf(b),
{
    assert forall|j: int, k: int, t: Seq<char>|
        0 <= j < b.len() && 0 <= k < b.len() && j != k && holds(b[j], t) implies !holds(b[k], t) by {
        if j != i && k != i {
            assert(holds(a[j], t));
        }
    }
}

impl SessionBook {
    /// Opens session `id` at revision 1 (a session already under that id is replaced,
    /// and what it borrowed is returned).
    pub fn open(&mut self, id: &str) -> (rev: u64)
        requires
            book_wf(old(self).records()),
        ensures
            book_wf(final(self).records()),
            rev == 1,
            match record_index(old(self).records(), id@) {
                Some(i) => replaced(old(self).records(), final(self).records(), i) && fresh(final(self).records()[i], id@),
                None => final(self).records().drop_last() == old(self).records() && final(self).records().len()
                    == old(self).records().len() + 1 && fresh(final(self).records().last(), id@),
            },
    {
        let rec = SessionRecord {
            session_id: owned(id),
            revision: 1,
            blackboard_revision: 1,
            open_loops: Vec::new(),
            borrows: Vec::new(),
        };
        let ghost a = self.slots@;
        match self.find(id) {
            Some(i) => {
                self.slots.set(i, rec);
                proof {
                    lemma_fresh_keeps_wf(a, self.slots@, i as int);
                }
            },
            None => {
                self.slots.push(rec);
                proof {
                    let b = self.slots@;
                    assert(b.drop_last() =~= a);
                    assert forall|j: int| 0 <= j < a.len() implies (#[trigger] b[j]).session_id@ != id@ by {
                        assert(b[j] == a[j]);
                    }
                    assert forall|j: int, k: int, t: Seq<char>|
                        0 <= j < b.len() && 0 <= k < b.len() && j != k && holds(b[j], t) implies !holds(b[k], t) by {
                        if j < a.len() && k < a.len() {
                            assert(b[j] == a[j] && b[k] == a[k]);
                        }
                    }
                }
            },
        }
        1
    }

    /// Stops session `id`: it leaves the book with everything it borrowed.
    pub fn stop(&mut self, id: &str) -> (r: Result<(), VcuError>)
        requires
            book_wf(old(self).records()),
        ensures
            book_wf(final(self).records()),
            match record_index(old(self).records(), id@) {
                Some(i) => r is Ok && final(self).records() == old(self).records().remove(i),
                None => (r matches Err(e) && e.code == ErrorCode::SessionNotFound && e.message@ == SESSION_HEAD@ + id@)
                    && final(self).records() == old(self).records(),
            },
    {
        match self.find(id) {
            Some(i) => {
                let ghost a = self.slots@;
                let _ = self.slots.remove(i);
                proof {
                    let b = self.slots@;
                    assert(b =~= a.remove(i as int));
                    assert forall|j: int| 0 <= j < b.len() implies #[trigger] b[j] == a[if j < i { j } else { j + 1 }] by {}
                    assert forall|j: int, k: int| 0 <= j < k < b.len() implies (#[trigger] b[j]).session_id@ != (
                    #[trigger] b[k]).session_id@ by {
                        let jj = if j < i { j } else { j + 1 };
                        let kk = if k < i { k } else { k + 1 };
                        assert(b[j] == a[jj] && b[k] == a[kk]);
                    }
                    assert forall|j: int, k: int, t: Seq<char>|
                        0 <= j < b.len() && 0 <= k < b.len() && j != k && holds(b[j], t) implies !holds(b[k], t) by {
                        let jj = if j < i { j } else { j + 1 };
                        let kk = if k < i { k } else { k + 1 };
                        assert(b[j] == a[jj] && b[k] == a[kk]);
                        assert(holds(a[jj], t));
                    }
                }
                Ok(())
            },
            None => Err(session_not_found(id)),
        }
    }

    /// Saves session `id`'s blackboard: the session and its blackboard move to the next
    /// revision, which is returned.
    pub fn checkpoint(&mut self, id: &str) -> (r: Result<u64, VcuError>)
        requires
            book_wf(old(self).records()),
            record_index(old(self).records(), id@) matches Some(i) ==> old(self).records()[i].revision < u64::MAX,
        ensures
            book_wf(final(self).records()),
            match record_index(old(self).records(), id@) {
                Some(i) => r == Ok::<u64, VcuError>(final(self).records()[i].revision) && replaced(
                    old(self).records(),
                    final(self).records(),
                    i,
                ) && bumped(old(self).records()[i], final(self).records()[i]) && final(self).records()[i].open_loops@
                    == old(self).records()[i].open_loops@ && final(self).records()[i].borrows@ == old(
                    self,
                ).records()[i].borrows@,
                None => (r matches Err(e) && e.code == ErrorCode::SessionNotFound && e.message@ == SESSION_HEAD@ + id@)
                    && final(self).records() == old(self).records(),
            },
    {
        match self.find(id) {
            Some(i) => {
                let old_rec = &self.slots[i];
                let rev = old_rec.revision + 1;
                let rec = SessionRecord {
                    session_id: old_rec.session_id.clone(),
                    revision: rev,
                    blackboard_revision: rev,
                    open_loops: clone_strings(&old_rec.open_loops),
                    borrows: clone_strings(&old_rec.borrows),
                };
                let ghost a = self.slots@;
                self.slots.set(i, rec);
                proof {
                    let b = self.slots@;
                    assert forall|m: int| 0 <= m < b.len() implies (#[trigger] b[m]).borrows@ == a[m].borrows@ by {
                        if m != i {
                            assert(b[m] == a[m]);
                        }
                    }
                    assert forall|j: int, k: int, t: Seq<char>|
                        0 <= j < b.len() && 0 <= k < b.len() && j != k && holds(b[j], t) implies !holds(b[k], t) by {
                        assert(b[j].borrows@ == a[j].borrows@);
                        assert(b[k].borrows@ == a[k].borrows@);
                        assert(holds(a[j], t));
                        assert(!holds(a[k], t));
                    }
                }
                Ok(rev)
            },
            None => Err(session_not_found(id)),
        }
    }

    /// Session `id` asks a human for help: the reason joins its open loops and it moves
    /// to the next revision.
    pub fn request_help(&mut self, id: &str, reason: &str) -> (r: Result<u64, VcuError>)
        requires
            book_wf(old(self).records()),
            record_index(old(self).records(), id@) matches Some(i) ==> old(self).records()[i].revision < u64::MAX,
        ensures
            book_wf(final(self).records()),
            match record_index(old(self).records(), id@) {
                Some(i) => r == Ok::<u64, VcuError>(final(self).records()[i].revision) && replaced(
                    old(self).records(),
                    final(self).records(),
                    i,
                ) && bumped(old(self).records()[i], final(self).records()[i])
                    && final(self).records()[i].open_loops@.drop_last() == old(self).records()[i].open_loops@
                    && final(self).records()[i].open_loops@.len() == old(self).records()[i].open_loops@.len() + 1
                    && final(self).records()[i].open_loops@.last()@ == HELP_HEAD@ + reason@
                    && final(self).records()[i].borrows@ == old(self).records()[i].borrows@,
                None => (r matches Err(e) && e.code == ErrorCode::SessionNotFound && e.message@ == SESSION_HEAD@ + id@)
                    && final(self).records() == old(self).records(),
            },
    {
        match self.find(id) {
            Some(i) => {
                let old_rec = &self.slots[i];
                let rev = old_rec.revision + 1;
                let mut loops = clone_strings(&old_rec.open_loops);
                let ghost l0 = loops@;
                loops.push(cat(owned(HELP_HEAD), reason));
                assert(loops@.drop_last() =~= l0);
                let rec = SessionRecord {
                    session_id: old_rec.session_id.clone(),
                    revision: rev,
                    blackboard_revision: rev,
                    open_loops: loops,
                    borrows: clone_strings(&old_rec.borrows),
                };
                let ghost a = self.slots@;
                self.slots.set(i, rec);
                proof {
                    let b = self.slots@;
                    assert forall|m: int| 0 <= m < b.len() implies (#[trigger] b[m]).borrows@ == a[m].borrows@ by {
                        if m != i {
                            assert(b[m] == a[m]);
                        }
                    }
                    assert forall|j: int, k: int, t: Seq<char>|
                        0 <= j < b.len() && 0 <= k < b.len() && j != k && holds(b[j], t) implies !holds(b[k], t) by {
                        assert(b[j].borrows@ == a[j].borrows@);
                        assert(b[k].borrows@ == a[k].borrows@);
                        assert(holds(a[j], t));
                        assert(!holds(a[k], t));
                    }
                }
                Ok(rev)
            },
            None => Err(session_not_found(id)),
        }
    }
}

/// Something satisfying `p` makes `first_where` find an index.
pub proof fn lemma_first_where_found<T>(s: Seq<T>, p: spec_fn(T) -> bool, i: int)
    requires
        0 <= i < s.len(),
        p(s[i]),
    ensures
        first_where(s, p) is Some,
    decreases i,
{
    if exists|j: int| 0 <= j < i && p(s[j]) {
        let j = choose|j: int| 0 <= j < i && p(s[j]);
        lemma_first_where_found(s, p, j);
    } else {
        lemma_first_where(s, p, i);
    }
}

pub open spec fn listed(tabs: Seq<String>, tab: Seq<char>) -> bool {
    exists|i: int| 0 <= i < tabs.len() && (#[trigger] tabs[i])@ == tab
}

pub open spec fn holds_then(a: SessionRecord, b: SessionRecord, tab: Seq<char>, added: bool) -> bool {
    forall|x: Seq<char>| #[trigger] holds(b, x) == (if x == tab { added } else { holds(a, x) })
}

pub open spec fn distinct_strings(s: Seq<String>) -> bool {
    forall|i: int, j: int| 0 <= i < j < s.len() ==> (#[trigger] s[i])@ != (#[trigger] s[j])@
}

fn remove_borrow(v: &Vec<String>, tab: &str) -> (r: Vec<String>)
    requires
        distinct_strings(v@),
    ensures
        forall|x: Seq<char>| #![trigger listed(r@, x)] listed(r@, x) == (listed(v@, x) && x != tab@),
        distinct_strings(r@),
{
    let mut r: Vec<String> = Vec::new();
    let mut map: Ghost<Seq<int>> = Ghost(Seq::empty());
    let mut i: usize = 0;
    while i < v.len()
        invariant
            i <= v@.len(),
            map@.len() == r@.len(),
            forall|k: int| 0 <= k < r@.len() ==> 0 <= #[trigger] map@[k] < i && r@[k] == v@[map@[k]],
            forall|a: int, b: int| 0 <= a < b < r@.len() ==> #[trigger] map@[a] < #[trigger] map@[b],
            forall|x: Seq<char>| #![trigger listed(r@, x)] listed(r@, x) == (listed(v@.take(i as int), x) && x != tab@),
        decreases v.len() - i,
    {
        let ghost before = r@;
        proof {
            assert forall|x: Seq<char>| #![trigger listed(v@.take(i + 1), x)] listed(v@.take(i + 1), x) == (listed(v@.take(i as int), x) || v@[i as int]@ == x) by {
                let t1 = v@.take(i + 1);
                let t0 = v@.take(i as int);
                if listed(t1, x) {
                    let k = choose|k: int| 0 <= k < t1.len() && (#[trigger] t1[k])@ == x;
                    if k < i {
                        assert(t0[k] == t1[k]);
                    }
                }
                if listed(t0, x) {
                    let k = choose|k: int| 0 <= k < t0.len() && (#[trigger] t0[k])@ == x;
                    assert(t1[k] == t0[k]);
                }
                if v@[i as int]@ == x {
                    assert(t1[i as int] == v@[i as int]);
                }
            }
        }
        if !str_eq(v[i].as_str(), tab) {
            r.push(v[i].clone());
            proof {
                map@ = map@.push(i as int);
                assert forall|x: Seq<char>| #![trigger listed(r@, x)] listed(r@, x) == (listed(before, x) || v@[i as int]@ == x) by {
                    if listed(r@, x) {
                        let k = choose|k: int| 0 <= k < r@.len() && (#[trigger] r@[k])@ == x;
                        if k < before.len() {
                            assert(before[k] == r@[k]);
                        }
                    }
                    if listed(before, x) {
                        let k = choose|k: int| 0 <= k < before.len() && (#[trigger] before[k])@ == x;
                        assert(r@[k] == before[k]);
                    }
                    if v@[i as int]@ == x {
                        assert(r@[before.len() as int] == v@[i as int]);
                    }
                }
            }
        }
        i = i + 1;
    }
    assert(v@.take(i as int) =~= v@);
    assert forall|p: int, q: int| 0 <= p < q < r@.len() implies (#[trigger] r@[p])@ != (#[trigger] r@[q])@ by {
        assert(map@[p] < map@[q]);
    }
    r
}

impl SessionBook {
    /// Session `id` borrows the user tab `tab` (one of the tabs its backend lists):
    /// refused while another session holds it, for an unknown session, and for a tab
    /// not listed; the session then moves to the next revision.
    pub fn borrow(&mut self, id: &str, tab: &str, listed_tabs: &Vec<String>) -> (r: Result<u64, VcuError>)
        requires
            book_wf(old(self).records()),
            record_index(old(self).records(), id@) matches Some(i) ==> old(self).records()[i].revision < u64::MAX,
        ensures
            book_wf(final(self).records()),
            match other_holder(old(self).records(), id@, tab@) {
                Some(h) => (r matches Err(e) && e.code == ErrorCode::TabAlreadyBorrowed && e.message@ == TAB_HEAD@ + tab@
                    + HELD_BY@ + old(self).records()[h].session_id@) && final(self).records() == old(self).records(),
                None => match record_index(old(self).records(), id@) {
                    None => (r matches Err(e) && e.code == ErrorCode::SessionNotFound && e.message@ == SESSION_HEAD@
                        + id@) && final(self).records() == old(self).records(),
                    Some(i) => if !listed(listed_tabs@, tab@) {
                        (r matches Err(e) && e.code == ErrorCode::TabNotFound && e.message@ == TAB_HEAD@ + tab@)
                            && final(self).records() == old(self).records()
                    } else {
                        &&& r == Ok::<u64, VcuError>(final(self).records()[i].revision)
                        &&& replaced(old(self).records(), final(self).records(), i)
                        &&& bumped(old(self).records()[i], final(self).records()[i])
                        &&& holds_then(old(self).records()[i], final(self).records()[i], tab@, true)
                        &&& final(self).records()[i].open_loops@ == old(self).records()[i].open_loops@
                    },
                },
            },
    {
        let ghost a = self.slots@;
        let mut k: usize = 0;
        while k < self.slots.len()
            invariant
                k <= self.slots@.len(),
                self.slots@ == a,
                book_wf(a),
                forall|m: int| 0 <= m < k ==> !((#[trigger] a[m]).session_id@ != id@ && holds(a[m], tab@)),
            decreases self.slots.len() - k,
        {
            let other = &self.slots[k];
            if !str_eq(other.session_id.as_str(), id) && holds_exec(other, tab) {
                proof {
                    lemma_first_where(a, |r: SessionRecord| held_elsewhere(r, id@, tab@), k as int);
                }
                let msg = cat(cat(cat(owned(TAB_HEAD), tab), HELD_BY), other.session_id.as_str());
                return Err(VcuError::coded(ErrorCode::TabAlreadyBorrowed, msg));
            }
            k = k + 1;
        }
        proof {
            lemma_first_where_none(a, |r: SessionRecord| held_elsewhere(r, id@, tab@));
        }
        let i = match self.find(id) {
            Some(i) => i,
            None => return Err(session_not_found(id)),
        };
        let mut found = false;
        let mut j: usize = 0;
        while j < listed_tabs.len()
            invariant
                j <= listed_tabs@.len(),
                found == exists|m: int| 0 <= m < j && (#[trigger] listed_tabs@[m])@ == tab@,
            decreases listed_tabs.len() - j,
        {
            if str_eq(listed_tabs[j].as_str(), tab) {
                found = true;
            }
            j = j + 1;
        }
        if !found {
            return Err(VcuError::coded(ErrorCode::TabNotFound, cat(owned(TAB_HEAD), tab)));
        }
        let old_rec = &self.slots[i];
        let rev = old_rec.revision + 1;
        let mut borrows = clone_strings(&old_rec.borrows);
        let already = holds_exec(old_rec, tab);
        if !already {
            borrows.push(owned(tab));
        }
        let rec = SessionRecord {
            session_id: old_rec.session_id.clone(),
            revision: rev,
            blackboard_revision: rev,
            open_loops: clone_strings(&old_rec.open_loops),
            borrows,
        };
        proof {
            let o = a[i as int];
            assert forall|x: Seq<char>| #[trigger] holds(rec, x) == (if x == tab@ { true } else { holds(o, x) }) by {
                if holds(rec, x) {
                    let q = choose|q: int| 0 <= q < rec.borrows@.len() && (#[trigger] rec.borrows@[q])@ == x;
                    if q < o.borrows@.len() {
                        assert(o.borrows@[q] == rec.borrows@[q]);
                    }
                }
                if holds(o, x) {
                    let q = choose|q: int| 0 <= q < o.borrows@.len() && (#[trigger] o.borrows@[q])@ == x;
                    assert(rec.borrows@[q] == o.borrows@[q]);
                }
                if x == tab@ && !already {
                    assert(rec.borrows@[o.borrows@.len() as int]@ == x);
                }
            }
            assert(distinct_borrows(rec)) by {
                assert forall|p: int, q: int| 0 <= p < q < rec.borrows@.len() implies (#[trigger] rec.borrows@[p])@
                    != (#[trigger] rec.borrows@[q])@ by {
                    if q < o.borrows@.len() {
                        assert(rec.borrows@[p] == o.borrows@[p] && rec.borrows@[q] == o.borrows@[q]);
                    } else {
                        assert(rec.borrows@[p] == o.borrows@[p]);
                        assert(holds(o, rec.borrows@[p]@));
                    }
                }
            }
        }
        self.slots.set(i, rec);
        proof {
            let b = self.slots@;
            assert forall|m: int| 0 <= m < b.len() && m != i implies #[trigger] b[m] == a[m] by {}
            assert forall|p: int, q: int, t: Seq<char>|
                0 <= p < b.len() && 0 <= q < b.len() && p != q && holds(b[p], t) implies !holds(b[q], t) by {
                if p == i {
                    if t == tab@ {
                        assert(!(a[q].session_id@ != id@ && holds(a[q], tab@)));
                        assert(a[q].session_id@ != a[i as int].session_id@);
                    } else {
                        assert(holds(a[p], t));
                        assert(!holds(a[q], t));
                    }
                } else if q == i {
                    assert(holds(a[p], t));
                    if t == tab@ {
                        assert(!(a[p].session_id@ != id@ && holds(a[p], tab@)));
                        assert(a[p].session_id@ != a[i as int].session_id@);
                    } else {
                        assert(!holds(a[q], t));
                    }
                } else {
                    assert(holds(a[p], t));
                    assert(!holds(a[q], t));
                }
            }
        }
        Ok(rev)
    }

    /// Session `id` returns the tab `tab`, or every tab it borrowed when none is named,
    /// and moves to the next revision.
    pub fn return_tabs(&mut self, id: &str, tab: Option<&str>) -> (r: Result<u64, VcuError>)
        requires
            book_wf(old(self).records()),
            record_index(old(self).records(), id@) matches Some(i) ==> old(self).records()[i].revision < u64::MAX,
        ensures
            book_wf(final(self).records()),
            match record_index(old(self).records(), id@) {
                None => (r matches Err(e) && e.code == ErrorCode::SessionNotFound && e.message@ == SESSION_HEAD@ + id@)
                    && final(self).records() == old(self).records(),
                Some(i) => {
                    &&& r == Ok::<u64, VcuError>(final(self).records()[i].revision)
                    &&& replaced(old(self).records(), final(self).records(), i)
                    &&& bumped(old(self).records()[i], final(self).records()[i])
                    &&& final(self).records()[i].open_loops@ == old(self).records()[i].open_loops@
                    &&& match tab {
                        Some(t) => holds_then(old(self).records()[i], final(self).records()[i], t@, false),
                        None => forall|x: Seq<char>| !holds(#[trigger] final(self).records()[i], x),
                    }
                },
            },
    {
        let i = match self.find(id) {
            Some(i) => i,
            None => return Err(session_not_found(id)),
        };
        let ghost a = self.slots@;
        let old_rec = &self.slots[i];
        let rev = old_rec.revision + 1;
        let borrows = match tab {
            Some(t) => {
                proof {
                    assert(distinct_borrows(a[i as int]));
                }
                remove_borrow(&old_rec.borrows, t)
            },
            None => Vec::new(),
        };
        let rec = SessionRecord {
            session_id: old_rec.session_id.clone(),
            revision: rev,
            blackboard_revision: rev,
            open_loops: clone_strings(&old_rec.open_loops),
            borrows,
        };
        proof {
            let o = a[i as int];
            assert forall|x: Seq<char>| #[trigger] holds(rec, x) == listed(rec.borrows@, x) by {}
            assert forall|x: Seq<char>| #[trigger] holds(o, x) == listed(o.borrows@, x) by {}
            assert(distinct_borrows(o));
            assert(distinct_strings(rec.borrows@));
            assert(distinct_borrows(rec));
        }
        self.slots.set(i, rec);
        proof {
            let b = self.slots@;
            assert forall|m: int| 0 <= m < b.len() && m != i implies #[trigger] b[m] == a[m] by {}
            assert forall|x: Seq<char>| holds(#[trigger] b[i as int], x) ==> holds(a[i as int], x) by {
                assert(holds(b[i as int], x) == listed(b[i as int].borrows@, x));
            }
            assert forall|p: int, q: int, t: Seq<char>|
                0 <= p < b.len() && 0 <= q < b.len() && p != q && holds(b[p], t) implies !holds(b[q], t) by {
                assert(holds(a[p], t));
                assert(!holds(a[q], t));
            }
        }
        Ok(rev)
    }

    /// The session holding the user tab `tab`, if any.
    pub fn holder(&self, tab: &str) -> (r: Option<String>)
        ensures
            match (r, first_where(self.records(), |x: SessionRecord| holds(x, tab@))) {
                (Some(s), Some(i)) => s@ == self.records()[i].session_id@,
                (None, None) => true,
                _ => false,
            },
    {
        let mut k: usize = 0;
        while k < self.slots.len()
            invariant
                k <= self.slots@.len(),
                forall|m: int| 0 <= m < k ==> !holds(#[trigger] self.slots@[m], tab@),
            decreases self.slots.len() - k,
        {
            if holds_exec(&self.slots[k], tab) {
                proof {
                    lemma_first_where(self.slots@, |x: SessionRecord| holds(x, tab@), k as int);
                }
                return Some(self.slots[k].session_id.clone());
            }
            k = k + 1;
        }
        proof {
            lemma_first_where_none(self.slots@, |x: SessionRecord| holds(x, tab@));
        }
        None
    }
}

/// `b` is the tab `a` marked as borrowed by `id` when `marked`, else `a` itself.
pub open spec fn tab_marked(a: TabInfo, b: TabInfo, id: Seq<char>, marked: bool) -> bool {
    if marked {
        &&& b.tab_id == a.tab_id
        &&& b.window_id == a.window_id
        &&& b.title == a.title
        &&& b.url == a.url
        &&& b.agent_owned == a.agent_owned
        &&& b.login_state == a.login_state
        &&& b.browser_profile == a.browser_profile
        &&& b.borrowed_by matches Some(s) && s@ == id
    } else {
        b == a
    }
}

impl SessionBook {
    /// The tabs session `id`'s backend listed, each it has borrowed marked as borrowed
    /// by it.
    pub fn mark_borrowed(&self, id: &str, tabs: Vec<TabInfo>) -> (r: Result<Vec<TabInfo>, VcuError>)
        ensures
            match record_index(self.records(), id@) {
                None => r matches Err(e) && e.code == ErrorCode::SessionNotFound && e.message@ == SESSION_HEAD@ + id@,
                Some(i) => r matches Ok(v) && v@.len() == tabs@.len() && forall|k: int| 0 <= k < tabs@.len() ==> tab_marked(
                    tabs@[k],
                    #[trigger] v@[k],
                    id@,
                    holds(self.records()[i], tabs@[k].tab_id@),
                ),
            },
    {
        let i = match self.find(id) {
            Some(i) => i,
            None => return Err(session_not_found(id)),
        };
        let rec = &self.slots[i];
        let mut out: Vec<TabInfo> = Vec::new();
        let mut tabs = tabs;
        let ghost orig = tabs@;
        let mut k: usize = 0;
        while k < tabs.len()
            invariant
                k <= tabs@.len(),
                tabs@ == orig,
                rec == self.records()[i as int],
                out@.len() == k,
                forall|m: int| 0 <= m < k ==> tab_marked(orig[m], #[trigger] out@[m], id@, holds(*rec, orig[m].tab_id@)),
            decreases tabs.len() - k,
        {
            let t = &tabs[k];
            let borrowed_by = if holds_exec(rec, t.tab_id.as_str()) {
                Some(owned(id))
            } else {
                match &t.borrowed_by {
                    Some(b) => Some(b.clone()),
                    None => None,
                }
            };
            let browser_profile = match &t.browser_profile {
                Some(b) => Some(b.clone()),
                None => None,
            };
            out.push(TabInfo {
                tab_id: t.tab_id.clone(),
                window_id: t.window_id.clone(),
                title: t.title.clone(),
                url: t.url.clone(),
                agent_owned: t.agent_owned,
                borrowed_by,
                login_state: t.login_state,
                browser_profile,
            });
            k = k + 1;
        }
        Ok(out)
    }

    /// The revision of session `id`.
    pub fn revision(&self, id: &str) -> (r: Result<u64, VcuError>)
        ensures
            match record_index(self.records(), id@) {
                None => r matches Err(e) && e.code == ErrorCode::SessionNotFound && e.message@ == SESSION_HEAD@ + id@,
                Some(i) => r == Ok::<u64, VcuError>(self.records()[i].revision),
            },
    {
        match self.find(id) {
            Some(i) => Ok(self.slots[i].revision),
            None => Err(session_not_found(id)),
        }
    }
}

/// A user tab is held by at most one session, in every state the book's operations
/// reach (each keeps `book_wf`).
pub proof fn lemma_one_holder(recs: Seq<SessionRecord>, i: int, j: int, tab: Seq<char>)
    requires
        book_wf(recs),
        0 <= i < recs.len(),
        0 <= j < recs.len(),
        i != j,
        holds(recs[i], tab),
    ensures
        !holds(recs[j], tab),
{
}

/// While one session holds a tab, any other session's borrow of it is refused.
pub proof fn lemma_held_tab_refused(recs: Seq<SessionRecord>, holder: int, id: Seq<char>, tab: Seq<char>)
    requires
        0 <= holder < recs.len(),
        holds(recs[holder], tab),
        recs[holder].session_id@ != id,
    ensures
        other_holder(recs, id, tab) is Some,
{
    lemma_first_where_found(recs, |r: SessionRecord| held_elsewhere(r, id, tab), holder);
}

/// A stopped session is gone from the book, and with it every tab it held.
pub proof fn lemma_stopped_session_gone(old: Seq<SessionRecord>, new: Seq<SessionRecord>, id: Seq<char>, i: int)
    requires
        book_wf(old),
        record_index(old, id) == Some(i),
        new == old.remove(i),
    ensures
        record_index(new, id) is None,
        forall|k: int| 0 <= k < new.len() ==> (#[trigger] new[k]).session_id@ != id,
{
    crate::login_state::lemma_first_where_some(old, |r: SessionRecord| r.session_id@ == id);
    assert forall|k: int| 0 <= k < new.len() implies (#[trigger] new[k]).session_id@ != id by {
        let kk = if k < i { k } else { k + 1 };
        assert(new[k] == old[kk]);
        assert(kk != i);
    }
    lemma_first_where_none(new, |r: SessionRecord| r.session_id@ == id);
}

} // verus!
