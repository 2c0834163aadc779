//! The user-profile lens: which files of the packaged extension are copied for
//! "load unpacked", and which packaged copy is the newest by its manifest version.
//! Nothing here clicks browser UI.
use vstd::prelude::*;
use crate::text::{begins, chars_of, begins_str, finishes, finishes_str, parse_u32, parse_u32_str, piece_or_empty, split_all, split_vec, views, string_of};

verus! {

broadcast use vstd::string::group_string_axioms;

/// Hidden files and `.bak` backups stay behind.
pub open spec fn lens_copies(name: Seq<char>) -> bool {
    !begins(name, "."@) && !finishes(name, ".bak"@)
}

pub fn lens_keeps_file(name: &str) -> (r: bool)
    ensures
        r == lens_copies(name@),
{
    let v = chars_of(name);
    !begins_str(&v, ".") && !finishes_str(&v, ".bak")
}

pub type Version = (u32, u32, u32);

/// A manifest `version` such as `1.4.2`: the first field must be a number; a missing or
/// unreadable second or third field counts as 0.
pub open spec fn manifest_version_of(version: Seq<char>) -> Option<Version> {
    let p = split_all(version, '.');
    match parse_u32(piece_or_empty(p, 0)) {
        None => None,
        Some(a) => Some((
            a,
            match parse_u32(piece_or_empty(p, 1)) {
                Some(b) => if p.len() > 1 { b } else { 0 },
                None => 0,
            },
            match parse_u32(piece_or_empty(p, 2)) {
                Some(c) => if p.len() > 2 { c } else { 0 },
                None => 0,
            },
        )),
    }
}

fn field(p: &Vec<Vec<char>>, k: usize) -> (r: u32)
    ensures
        r == (match parse_u32(piece_or_empty(views(p@), k as int)) {
            Some(x) => if views(p@).len() > k { x } else { 0 },
            None => 0,
        }),
{
    if k < p.len() {
        match parse_u32_str(string_of(&p[k]).as_str()) {
            Some(x) => x,
            None => 0,
        }
    } else {
        0
    }
}

pub fn manifest_version(version: &str) -> (r: Option<Version>)
    ensures
        r == manifest_version_of(version@),
{
    let p = split_vec(&chars_of(version), '.');
    let first = match parse_u32_str(string_of(&p[0]).as_str()) {
        Some(a) => a,
        None => return None,
    };
    Some((first, field(&p, 1), field(&p, 2)))
}

/// Version order: by the first field, then the second, then the third.
pub open spec fn version_le(a: Version, b: Version) -> bool {
    a.0 < b.0 || (a.0 == b.0 && (a.1 < b.1 || (a.1 == b.1 && a.2 <= b.2)))
}

pub open spec fn key_of(v: Option<Version>) -> Version {
    match v {
        Some(x) => x,
        None => (0, 0, 0),
    }
}

/// Among the candidates that hold a manifest, the one with the highest version (an
/// unreadable version counts as 0.0.0); of equals, the last.
pub open spec fn newest_of(cands: Seq<(bool, Option<Version>)>) -> Option<int>
    decreases cands.len(),
{
    if cands.len() == 0 {
        None
    } else {
        let before = newest_of(cands.drop_last());
        let last = cands.last();
        if last.0 && (match before {
            None => true,
            Some(i) => version_le(key_of(cands[i].1), key_of(last.1)),
        }) {
            Some(cands.len() - 1)
        } else {
            before
        }
    }
}

proof fn lemma_newest_in_range(cands: Seq<(bool, Option<Version>)>)
    ensures
        newest_of(cands) matches Some(i) ==> 0 <= i < cands.len(),
    decreases cands.len(),
{
    if cands.len() > 0 {
        lemma_newest_in_range(cands.drop_last());
    }
}

/// The candidate picked holds a manifest, and no candidate with a manifest has a
/// greater (major, minor, patch) version; of equal versions the last is picked, and
/// nothing is picked only when no candidate holds a manifest.
pub proof fn lemma_newest_is_greatest(cands: Seq<(bool, Option<Version>)>)
    ensures
        newest_of(cands) is None <==> forall|j: int| 0 <= j < cands.len() ==> !(#[trigger] cands[j]).0,
        newest_of(cands) matches Some(i) ==> 0 <= i < cands.len() && cands[i].0 && forall|j: int|
            0 <= j < cands.len() && (#[trigger] cands[j]).0 ==> {
                let a = key_of(cands[j].1);
                let b = key_of(cands[i].1);
                &&& (a.0 < b.0 || (a.0 == b.0 && (a.1 < b.1 || (a.1 == b.1 && a.2 <= b.2))))
                &&& (j > i ==> (a.0 < b.0 || (a.0 == b.0 && (a.1 < b.1 || (a.1 == b.1 && a.2 < b.2)))))
            },
    decreases cands.len(),
{
    if cands.len() > 0 {
        let prev = cands.drop_last();
        lemma_newest_is_greatest(prev);
        assert forall|j: int| 0 <= j < prev.len() implies prev[j] == cands[j] by {}
    }
}

/// Picks the candidate to copy from: `cands` holds, for each candidate directory in
/// order, whether it has a manifest and the version it declares.
pub fn pick_newest(cands: &Vec<(bool, Option<Version>)>) -> (r: Option<usize>)
    ensures
        match (r, newest_of(cands@)) {
            (Some(i), Some(j)) => i == j,
            (None, None) => true,
            _ => false,
        },
        r is None <==> forall|j: int| 0 <= j < cands@.len() ==> !(#[trigger] cands@[j]).0,
        r matches Some(i) ==> i < cands@.len() && cands@[i as int].0 && forall|j: int|
            0 <= j < cands@.len() && (#[trigger] cands@[j]).0 ==> {
                let a = key_of(cands@[j].1);
                let b = key_of(cands@[i as int].1);
                a.0 < b.0 || (a.0 == b.0 && (a.1 < b.1 || (a.1 == b.1 && a.2 <= b.2)))
            },
{
    proof {
        lemma_newest_is_greatest(cands@);
    }
    let mut best: Option<usize> = None;
    let mut i: usize = 0;
    while i < cands.len()
        invariant
            i <= cands@.len(),
            match (best, newest_of(cands@.take(i as int))) {
                (Some(a), Some(b)) => a == b && a < i,
                (None, None) => true,
                _ => false,
            },
        decreases cands.len() - i,
    {
        proof {
            assert(cands@.take(i + 1).drop_last() =~= cands@.take(i as int));
            lemma_newest_in_range(cands@.take(i as int));
        }
        let (present, ver) = cands[i];
        if present {
            let take = match best {
                None => true,
                Some(b) => {
                    let kb: Version = match cands[b].1 {
                        Some(x) => x,
                        None => (0, 0, 0),
                    };
                    let kl: Version = match ver {
                        Some(x) => x,
                        None => (0, 0, 0),
                    };
                    kb.0 < kl.0 || (kb.0 == kl.0 && (kb.1 < kl.1 || (kb.1 == kl.1 && kb.2 <= kl.2)))
                },
            };
            if take {
                best = Some(i);
            }
        }
        i = i + 1;
    }
    assert(cands@.take(i as int) =~= cands@);
    best
}

} // verus!
