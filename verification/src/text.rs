//! Character-level text primitives with exact specifications.
//!
//! Everything here works on the `Seq<char>` view of strings. ASCII case folding,
//! substring search, prefix/suffix tests, whitespace trimming, integer parsing and
//! decimal rendering are all verified against the spec functions below.
use vstd::prelude::*;

verus! {

broadcast use vstd::string::group_string_axioms;

// ---------------------------------------------------------------------------
// Specifications
// ---------------------------------------------------------------------------

/// ASCII lower-casing of one character; every other character is unchanged.
pub open spec fn lower_char(c: char) -> char {
    if 'A' <= c && c <= 'Z' {
        ((c as u32) + 32) as char
    } else {
        c
    }
}

/// ASCII lower-casing of a character sequence.
pub open spec fn lower(s: Seq<char>) -> Seq<char> {
    s.map_values(|c: char| lower_char(c))
}

/// `pat` occurs in `s` starting at index `i`.
pub open spec fn occurs_at(s: Seq<char>, pat: Seq<char>, i: int) -> bool {
    0 <= i && i + pat.len() <= s.len() && s.subrange(i, i + pat.len()) == pat
}

/// `pat` occurs somewhere in `s` (the empty pattern occurs in every sequence).
pub open spec fn seq_has(s: Seq<char>, pat: Seq<char>) -> bool {
    exists|i: int| occurs_at(s, pat, i)
}

pub open spec fn begins(s: Seq<char>, pat: Seq<char>) -> bool {
    pat.len() <= s.len() && s.subrange(0, pat.len() as int) == pat
}

pub open spec fn finishes(s: Seq<char>, pat: Seq<char>) -> bool {
    pat.len() <= s.len() && s.subrange(s.len() - pat.len(), s.len() as int) == pat
}

/// Equality after ASCII lower-casing both sides.
pub open spec fn eq_ignore_case(a: Seq<char>, b: Seq<char>) -> bool {
    lower(a) == lower(b)
}

pub open spec fn is_digit(c: char) -> bool {
    '0' <= c && c <= '9'
}

pub open spec fn all_digits(s: Seq<char>) -> bool {
    forall|i: int| 0 <= i < s.len() ==> is_digit(#[trigger] s[i])
}

/// Unicode `White_Space` characters (the set `char::is_whitespace` accepts).
pub open spec fn is_ws(c: char) -> bool {
    ||| '\u{9}' <= c && c <= '\u{d}'
    ||| c == ' '
    ||| c == '\u{85}'
    ||| c == '\u{a0}'
    ||| c == '\u{1680}'
    ||| '\u{2000}' <= c && c <= '\u{200a}'
    ||| c == '\u{2028}'
    ||| c == '\u{2029}'
    ||| c == '\u{202f}'
    ||| c == '\u{205f}'
    ||| c == '\u{3000}'
}

/// Number of leading whitespace characters.
pub open spec fn lead_ws(s: Seq<char>) -> nat
    decreases s.len(),
{
    if s.len() > 0 && is_ws(s[0]) {
        1 + lead_ws(s.drop_first())
    } else {
        0
    }
}

/// Number of trailing whitespace characters.
pub open spec fn trail_ws(s: Seq<char>) -> nat
    decreases s.len(),
{
    if s.len() > 0 && is_ws(s.last()) {
        1 + trail_ws(s.drop_last())
    } else {
        0
    }
}

pub open spec fn trim_start(s: Seq<char>) -> Seq<char> {
    s.subrange(lead_ws(s) as int, s.len() as int)
}

pub open spec fn trim_end(s: Seq<char>) -> Seq<char> {
    s.subrange(0, s.len() - trail_ws(s))
}

/// Both ends stripped of whitespace, as `str::trim` does.
pub open spec fn trim(s: Seq<char>) -> Seq<char> {
    trim_end(trim_start(s))
}

pub open spec fn digit_value(c: char) -> int {
    (c as int) - ('0' as int)
}

/// The number a digit string denotes.
pub open spec fn digits_value(s: Seq<char>) -> int
    decreases s.len(),
{
    if s.len() == 0 {
        0
    } else {
        digits_value(s.drop_last()) * 10 + digit_value(s.last())
    }
}

/// The value of `s` read as an optionally signed decimal, if it is one.
pub open spec fn signed_value(s: Seq<char>) -> Option<int> {
    if s.len() > 0 && (s[0] == '-' || s[0] == '+') {
        let body = s.drop_first();
        if body.len() > 0 && all_digits(body) {
            Some(if s[0] == '-' { -digits_value(body) } else { digits_value(body) })
        } else {
            None
        }
    } else if s.len() > 0 && all_digits(s) {
        Some(digits_value(s))
    } else {
        None
    }
}

/// What `str::parse::<i32>` yields: the value when `s` is a decimal in range.
pub open spec fn parse_i32(s: Seq<char>) -> Option<i32> {
    match signed_value(s) {
        Some(v) => if i32::MIN <= v && v <= i32::MAX { Some(v as i32) } else { None },
        None => None,
    }
}

pub open spec fn digit_char(d: int) -> char {
    (('0' as int) + d) as char
}

/// Decimal rendering of a natural number, most significant digit first.
pub open spec fn nat_decimal(n: nat) -> Seq<char>
    decreases n,
{
    if n < 10 {
        seq![digit_char(n as int)]
    } else {
        nat_decimal((n / 10) as nat).push(digit_char((n % 10) as int))
    }
}

/// Decimal rendering of an integer, as `Display` prints it.
pub open spec fn decimal(n: int) -> Seq<char> {
    if n < 0 {
        seq!['-'] + nat_decimal((-n) as nat)
    } else {
        nat_decimal(n as nat)
    }
}

/// Every occurrence of `from` replaced by `to`.
pub open spec fn replace_char(s: Seq<char>, from: char, to: Seq<char>) -> Seq<char>
    decreases s.len(),
{
    if s.len() == 0 {
        Seq::empty()
    } else {
        let head = if s[0] == from { to } else { seq![s[0]] };
        head + replace_char(s.drop_first(), from, to)
    }
}

// ---------------------------------------------------------------------------
// Conversions
// ---------------------------------------------------------------------------

/// The characters of `s`, in order.
pub fn chars_of(s: &str) -> (v: Vec<char>)
    ensures
        v@ == s@,
{
    let mut v: Vec<char> = Vec::new();
    for c in it: s.chars()
        invariant
            v@ == it.seq().take(it.index() as int),
    {
        v.push(c);
    }
    v
}

/// `String::push`: appends one character.
#[verifier::external_body]
pub(crate) fn push_char(s: &mut String, c: char)
    ensures
        final(s)@ == old(s)@.push(c),
{
    s.push(c);
}

/// A `String` holding exactly the given characters.
pub fn string_of(v: &Vec<char>) -> (s: String)
    ensures
        s@ == v@,
{
    let mut s = String::new();
    let mut i: usize = 0;
    while i < v.len()
        invariant
            i <= v.len(),
            s@ == v@.take(i as int),
        decreases v.len() - i,
    {
        push_char(&mut s, v[i]);
        i = i + 1;
        assert(s@ == v@.take(i as int));
    }
    assert(v@.take(v.len() as int) == v@);
    s
}

/// A `String` with the characters of a slice.
pub fn owned(s: &str) -> (r: String)
    ensures
        r@ == s@,
{
    s.to_owned()
}

/// `s` followed by `t`.
pub fn cat(s: String, t: &str) -> (r: String)
    ensures
        r@ == s@ + t@,
{
    let mut s = s;
    s.append(t);
    s
}

pub fn ascii_lower_char(c: char) -> (r: char)
    ensures
        r == lower_char(c),
{
    if 'A' <= c && c <= 'Z' {
        let b: u8 = c as u8;
        (b + 32) as char
    } else {
        c
    }
}

/// ASCII lower-cased characters of `s`.
pub fn lower_vec(v: &Vec<char>) -> (r: Vec<char>)
    ensures
        r@ == lower(v@),
{
    let mut r: Vec<char> = Vec::new();
    let mut i: usize = 0;
    while i < v.len()
        invariant
            i <= v.len(),
            r@ == lower(v@.take(i as int)),
        decreases v.len() - i,
    {
        let c = ascii_lower_char(v[i]);
        r.push(c);
        i = i + 1;
        assert(lower(v@.take(i as int)) == lower(v@.take(i - 1)).push(lower_char(v@[i - 1])));
    }
    assert(v@.take(v.len() as int) == v@);
    r
}

/// The ASCII lower-cased characters of `s` (what `str::to_ascii_lowercase` gives).
pub fn lower_of(s: &str) -> (r: Vec<char>)
    ensures
        r@ == lower(s@),
{
    let v = chars_of(s);
    lower_vec(&v)
}

// ---------------------------------------------------------------------------
// Search
// ---------------------------------------------------------------------------

fn occurs_at_exec(hay: &Vec<char>, pat: &Vec<char>, i: usize) -> (r: bool)
    requires
        i + pat.len() <= hay.len(),
    ensures
        r == occurs_at(hay@, pat@, i as int),
{
    let mut j: usize = 0;
    while j < pat.len()
        invariant
            i + pat.len() <= hay.len(),
            j <= pat.len(),
            forall|k: int| 0 <= k < j ==> hay@[i + k] == pat@[k],
        decreases pat.len() - j,
    {
        if hay[i + j] != pat[j] {
            assert(hay@.subrange(i as int, i + pat.len())[j as int] != pat@[j as int]);
            return false;
        }
        j = j + 1;
    }
    assert(hay@.subrange(i as int, i + pat.len()) =~= pat@);
    true
}

/// `i` is where `pat` first occurs in `s`.
pub open spec fn is_first_occurrence(s: Seq<char>, pat: Seq<char>, i: int) -> bool {
    occurs_at(s, pat, i) && forall|j: int| 0 <= j < i ==> !occurs_at(s, pat, j)
}

/// The text before the first occurrence of `pat`, when it occurs (`str::find` then a cut).
pub open spec fn before_first(s: Seq<char>, pat: Seq<char>) -> Option<Seq<char>> {
    if exists|i: int| is_first_occurrence(s, pat, i) {
        Some(s.take(choose|i: int| is_first_occurrence(s, pat, i)))
    } else {
        None
    }
}

/// Where `pat` first occurs in `hay`.
pub fn find_first(hay: &Vec<char>, pat: &Vec<char>) -> (r: Option<usize>)
    ensures
        match r {
            Some(i) => is_first_occurrence(hay@, pat@, i as int) && i + pat@.len() <= hay@.len(),
            None => forall|j: int| !occurs_at(hay@, pat@, j),
        },
{
    if pat.len() > hay.len() {
        return None;
    }
    if pat.len() == 0 {
        assert(hay@.subrange(0, 0) =~= pat@);
        return Some(0);
    }
    let mut i: usize = 0;
    while i <= hay.len() - pat.len()
        invariant
            0 < pat.len() <= hay.len(),
            i <= hay.len() - pat.len() + 1,
            forall|j: int| 0 <= j < i ==> !occurs_at(hay@, pat@, j),
        decreases hay.len() - pat.len() + 1 - i,
    {
        if occurs_at_exec(hay, pat, i) {
            return Some(i);
        }
        i = i + 1;
    }
    None
}

pub proof fn lemma_before_first(s: Seq<char>, pat: Seq<char>, i: int)
    requires
        is_first_occurrence(s, pat, i),
    ensures
        before_first(s, pat) == Some(s.take(i)),
{
    let j = choose|j: int| is_first_occurrence(s, pat, j);
    if j != i {
        if j < i {
            assert(!occurs_at(s, pat, j));
        } else {
            assert(!occurs_at(s, pat, i));
        }
    }
}

/// Whether `pat` occurs in `hay`.
pub fn has_vec(hay: &Vec<char>, pat: &Vec<char>) -> (r: bool)
    ensures
        r == seq_has(hay@, pat@),
{
    if pat.len() == 0 {
        assert(hay@.subrange(0, 0) =~= pat@);
        assert(occurs_at(hay@, pat@, 0));
        return true;
    }
    let mut i: usize = 0;
    while i <= hay.len() && pat.len() <= hay.len() - i
        invariant
            pat.len() >= 1,
            forall|k: int| 0 <= k < i ==> !occurs_at(hay@, pat@, k),
        decreases hay.len() + 1 - i,
    {
        if occurs_at_exec(hay, pat, i) {
            return true;
        }
        i = i + 1;
    }
    assert forall|k: int| !occurs_at(hay@, pat@, k) by {
        if 0 <= k && k + pat.len() <= hay.len() {
            assert(k < i);
        }
    }
    false
}

/// Whether the literal `pat` occurs in `hay`.
pub fn has_str(hay: &Vec<char>, pat: &str) -> (r: bool)
    ensures
        r == seq_has(hay@, pat@),
{
    let p = chars_of(pat);
    has_vec(hay, &p)
}

pub fn begins_vec(hay: &Vec<char>, pat: &Vec<char>) -> (r: bool)
    ensures
        r == begins(hay@, pat@),
{
    if pat.len() > hay.len() {
        return false;
    }
    occurs_at_exec(hay, pat, 0)
}

pub fn begins_str(hay: &Vec<char>, pat: &str) -> (r: bool)
    ensures
        r == begins(hay@, pat@),
{
    let p = chars_of(pat);
    begins_vec(hay, &p)
}

pub fn finishes_vec(hay: &Vec<char>, pat: &Vec<char>) -> (r: bool)
    ensures
        r == finishes(hay@, pat@),
{
    if pat.len() > hay.len() {
        return false;
    }
    occurs_at_exec(hay, pat, hay.len() - pat.len())
}

pub fn finishes_str(hay: &Vec<char>, pat: &str) -> (r: bool)
    ensures
        r == finishes(hay@, pat@),
{
    let p = chars_of(pat);
    finishes_vec(hay, &p)
}

pub fn same_vec(a: &Vec<char>, b: &Vec<char>) -> (r: bool)
    ensures
        r == (a@ == b@),
{
    if a.len() != b.len() {
        return false;
    }
    let r = occurs_at_exec(a, b, 0);
    assert(r ==> a@.subrange(0, a.len() as int) =~= a@);
    if !r {
        assert(a@.subrange(0, a.len() as int) =~= a@);
    }
    r
}

/// Whether `a` spells exactly the literal `b`.
pub fn same_str(a: &Vec<char>, b: &str) -> (r: bool)
    ensures
        r == (a@ == b@),
{
    let p = chars_of(b);
    same_vec(a, &p)
}

/// ASCII case-insensitive equality.
pub fn same_ignore_case(a: &Vec<char>, b: &Vec<char>) -> (r: bool)
    ensures
        r == eq_ignore_case(a@, b@),
{
    let la = lower_vec(a);
    let lb = lower_vec(b);
    same_vec(&la, &lb)
}

/// Whether two strings hold the same characters.
pub fn str_eq(a: &str, b: &str) -> (r: bool)
    ensures
        r == (a@ == b@),
{
    let v = chars_of(a);
    same_str(&v, b)
}

/// Whether `c` occurs in `v`.
pub fn has_char(v: &Vec<char>, c: char) -> (r: bool)
    ensures
        r == v@.contains(c),
{
    let mut i: usize = 0;
    while i < v.len()
        invariant
            i <= v.len(),
            forall|k: int| 0 <= k < i ==> v@[k] != c,
        decreases v.len() - i,
    {
        if v[i] == c {
            return true;
        }
        i = i + 1;
    }
    false
}


// ---------------------------------------------------------------------------
// Splitting
// ---------------------------------------------------------------------------

/// The text before the first `c`, and the text after it when `c` occurs.
pub open spec fn cut(s: Seq<char>, c: char) -> (Seq<char>, Option<Seq<char>>)
    decreases s.len(),
{
    if s.len() == 0 {
        (Seq::empty(), None)
    } else if s[0] == c {
        (Seq::empty(), Some(s.drop_first()))
    } else {
        let rest = cut(s.drop_first(), c);
        (seq![s[0]] + rest.0, rest.1)
    }
}

/// The text after the last `c` (all of `s` when `c` does not occur).
pub open spec fn last_piece(s: Seq<char>, c: char) -> Seq<char>
    decreases s.len(),
{
    if s.len() == 0 {
        Seq::empty()
    } else if s.last() == c {
        Seq::empty()
    } else {
        last_piece(s.drop_last(), c).push(s.last())
    }
}

pub proof fn lemma_cut_at(s: Seq<char>, c: char, i: int)
    requires
        0 <= i <= s.len(),
        forall|k: int| 0 <= k < i ==> s[k] != c,
    ensures
        i == s.len() ==> cut(s, c) == (s, None::<Seq<char>>),
        i < s.len() && s[i] == c ==> cut(s, c) == (s.take(i), Some(s.skip(i + 1))),
    decreases i,
{
    if i > 0 {
        lemma_cut_at(s.drop_first(), c, i - 1);
        assert(seq![s[0]] + s.drop_first() =~= s);
        assert(seq![s[0]] + s.drop_first().take(i - 1) =~= s.take(i));
        if i < s.len() {
            assert(s.drop_first().skip(i) =~= s.skip(i + 1));
        }
        assert(s.drop_first().take(i - 1) =~= s.take(i).drop_first());
    } else {
        if s.len() == 0 {
            assert(s =~= Seq::<char>::empty());
        } else {
            assert(s.take(0) =~= Seq::<char>::empty());
            assert(s.skip(1) =~= s.drop_first());
        }
    }
}

/// Splits `v` at the first `c`: what `split_once(c)` gives, with the head kept when `c` is absent.
pub fn cut_vec(v: &Vec<char>, c: char) -> (r: (Vec<char>, Option<Vec<char>>))
    ensures
        r.0@ == cut(v@, c).0,
        match (r.1, cut(v@, c).1) {
            (Some(a), Some(b)) => a@ == b,
            (None, None) => true,
            _ => false,
        },
{
    let mut i: usize = 0;
    while i < v.len() && v[i] != c
        invariant
            i <= v.len(),
            forall|k: int| 0 <= k < i ==> v@[k] != c,
        decreases v.len() - i,
    {
        i = i + 1;
    }
    proof {
        lemma_cut_at(v@, c, i as int);
    }
    let mut head: Vec<char> = Vec::new();
    let mut j: usize = 0;
    while j < i
        invariant
            i <= v.len(),
            j <= i,
            head@ == v@.take(j as int),
        decreases i - j,
    {
        head.push(v[j]);
        j = j + 1;
        assert(head@ =~= v@.take(j as int));
    }
    if i == v.len() {
        assert(v@.take(i as int) =~= v@);
        (head, None)
    } else {
        let mut tail: Vec<char> = Vec::new();
        let mut k: usize = i + 1;
        while k < v.len()
            invariant
                i < v.len(),
                i + 1 <= k <= v.len(),
                tail@ == v@.subrange(i + 1, k as int),
            decreases v.len() - k,
        {
            tail.push(v[k]);
            k = k + 1;
            assert(tail@ =~= v@.subrange(i + 1, k as int));
        }
        assert(tail@ =~= v@.skip(i + 1));
        (head, Some(tail))
    }
}

proof fn lemma_last_piece_at(s: Seq<char>, c: char, i: int)
    requires
        0 <= i <= s.len(),
        forall|k: int| i <= k < s.len() ==> s[k] != c,
        i == 0 || s[i - 1] == c,
    ensures
        last_piece(s, c) == s.skip(i),
    decreases s.len() - i,
{
    if i < s.len() {
        lemma_last_piece_at(s.drop_last(), c, i);
        assert(s.drop_last().skip(i).push(s.last()) =~= s.skip(i));
    } else {
        assert(s.skip(i) =~= Seq::<char>::empty());
    }
}

/// The text after the last `c`: the first item of `rsplit(c)`.
pub fn last_piece_vec(v: &Vec<char>, c: char) -> (r: Vec<char>)
    ensures
        r@ == last_piece(v@, c),
{
    let mut i: usize = v.len();
    while i > 0 && v[i - 1] != c
        invariant
            i <= v.len(),
            forall|k: int| i <= k < v.len() ==> v@[k] != c,
        decreases i,
    {
        i = i - 1;
    }
    proof {
        lemma_last_piece_at(v@, c, i as int);
    }
    let mut tail: Vec<char> = Vec::new();
    let mut k: usize = i;
    while k < v.len()
        invariant
            i <= k <= v.len(),
            tail@ == v@.subrange(i as int, k as int),
        decreases v.len() - k,
    {
        tail.push(v[k]);
        k = k + 1;
        assert(tail@ =~= v@.subrange(i as int, k as int));
    }
    assert(tail@ =~= v@.skip(i as int));
    tail
}

// ---------------------------------------------------------------------------
// Whitespace
// ---------------------------------------------------------------------------

pub fn is_ws_exec(c: char) -> (r: bool)
    ensures
        r == is_ws(c),
{
    ('\u{9}' <= c && c <= '\u{d}') || c == ' ' || c == '\u{85}' || c == '\u{a0}'
        || c == '\u{1680}' || ('\u{2000}' <= c && c <= '\u{200a}') || c == '\u{2028}'
        || c == '\u{2029}' || c == '\u{202f}' || c == '\u{205f}' || c == '\u{3000}'
}

proof fn lemma_lead_ws(s: Seq<char>, i: int)
    requires
        0 <= i <= s.len(),
        forall|k: int| 0 <= k < i ==> is_ws(s[k]),
        i == s.len() || !is_ws(s[i]),
    ensures
        lead_ws(s) == i,
    decreases i,
{
    if i > 0 {
        lemma_lead_ws(s.drop_first(), i - 1);
    }
}

proof fn lemma_trail_ws(s: Seq<char>, i: int)
    requires
        0 <= i <= s.len(),
        forall|k: int| i <= k < s.len() ==> is_ws(s[k]),
        i == 0 || !is_ws(s[i - 1]),
    ensures
        trail_ws(s) == s.len() - i,
    decreases s.len() - i,
{
    if i < s.len() {
        lemma_trail_ws(s.drop_last(), i);
    }
}

/// Bounds `(a, b)` with `s[a..b]` equal to the trimmed text.
fn trim_bounds(v: &Vec<char>) -> (r: (usize, usize))
    ensures
        r.0 <= r.1 <= v.len(),
        v@.subrange(r.0 as int, r.1 as int) == trim(v@),
{
    let mut a: usize = 0;
    while a < v.len() && is_ws_exec(v[a])
        invariant
            a <= v.len(),
            forall|k: int| 0 <= k < a ==> is_ws(v@[k]),
        decreases v.len() - a,
    {
        a = a + 1;
    }
    proof {
        lemma_lead_ws(v@, a as int);
    }
    let ghost t = trim_start(v@);
    let mut b: usize = v.len();
    while b > a && is_ws_exec(v[b - 1])
        invariant
            a <= b <= v.len(),
            forall|k: int| b <= k < v.len() ==> is_ws(v@[k]),
        decreases b,
    {
        b = b - 1;
    }
    proof {
        assert(t =~= v@.subrange(a as int, v.len() as int));
        lemma_trail_ws(t, b - a);
        assert(t.subrange(0, t.len() - trail_ws(t)) =~= v@.subrange(a as int, b as int));
    }
    (a, b)
}

/// `v` with leading and trailing whitespace removed.
pub fn trim_vec(v: &Vec<char>) -> (r: Vec<char>)
    ensures
        r@ == trim(v@),
{
    let (a, b) = trim_bounds(v);
    let mut r: Vec<char> = Vec::new();
    let mut k: usize = a;
    while k < b
        invariant
            a <= k <= b <= v.len(),
            r@ == v@.subrange(a as int, k as int),
        decreases b - k,
    {
        r.push(v[k]);
        k = k + 1;
        assert(r@ =~= v@.subrange(a as int, k as int));
    }
    r
}

/// `v` without trailing whitespace, as `str::trim_end` leaves it.
pub fn trim_end_vec(v: &Vec<char>) -> (r: Vec<char>)
    ensures
        r@ == trim_end(v@),
{
    let mut b: usize = v.len();
    while b > 0 && is_ws_exec(v[b - 1])
        invariant
            b <= v.len(),
            forall|k: int| b <= k < v.len() ==> is_ws(v@[k]),
        decreases b,
    {
        b = b - 1;
    }
    proof {
        lemma_trail_ws(v@, b as int);
    }
    let mut r: Vec<char> = Vec::new();
    let mut k: usize = 0;
    while k < b
        invariant
            k <= b <= v.len(),
            r@ == v@.subrange(0, k as int),
        decreases b - k,
    {
        r.push(v[k]);
        k = k + 1;
        assert(r@ =~= v@.subrange(0, k as int));
    }
    r
}

/// The trimmed characters of `s`.
pub fn trimmed_of(s: &str) -> (r: Vec<char>)
    ensures
        r@ == trim(s@),
{
    let v = chars_of(s);
    trim_vec(&v)
}

/// `str::trim`: the slice of `s` without surrounding whitespace.
pub fn trim_str(s: &str) -> (r: &str)
    ensures
        r@ == trim(s@),
{
    let v = chars_of(s);
    let (a, b) = trim_bounds(&v);
    s.substring_char(a, b)
}

// ---------------------------------------------------------------------------
// Numbers
// ---------------------------------------------------------------------------

proof fn lemma_digits_prefix_grows(s: Seq<char>, i: int)
    requires
        0 <= i < s.len(),
        all_digits(s),
    ensures
        digits_value(s.take(i)) <= digits_value(s.take(i + 1)),
        0 <= digits_value(s.take(i)),
    decreases i,
{
    assert(s.take(i + 1).drop_last() =~= s.take(i));
    if i > 0 {
        lemma_digits_prefix_grows(s, i - 1);
    }
}

proof fn lemma_digits_monotone(s: Seq<char>, i: int, j: int)
    requires
        0 <= i <= j <= s.len(),
        all_digits(s),
    ensures
        0 <= digits_value(s.take(i)) <= digits_value(s.take(j)),
    decreases j - i,
{
    if i < j {
        lemma_digits_prefix_grows(s, i);
        lemma_digits_monotone(s, i + 1, j);
    } else if i < s.len() {
        lemma_digits_prefix_grows(s, i);
    } else {
        if i > 0 {
            lemma_digits_prefix_grows(s, i - 1);
            assert(s.take(i - 1 + 1) =~= s.take(i));
        } else {
            assert(s.take(0) =~= Seq::<char>::empty());
        }
    }
}

fn all_digits_from(v: &Vec<char>, from: usize) -> (r: bool)
    requires
        from <= v.len(),
    ensures
        r == all_digits(v@.skip(from as int)),
{
    let mut i: usize = from;
    while i < v.len()
        invariant
            from <= i <= v.len(),
            forall|k: int| from <= k < i ==> is_digit(v@[k]),
        decreases v.len() - i,
    {
        if !('0' <= v[i] && v[i] <= '9') {
            assert(v@.skip(from as int)[i - from] == v@[i as int]);
            return false;
        }
        i = i + 1;
    }
    assert forall|k: int| 0 <= k < v@.skip(from as int).len() implies is_digit(
        #[trigger] v@.skip(from as int)[k],
    ) by {
        assert(v@.skip(from as int)[k] == v@[from + k]);
    }
    true
}

/// Reads the all-digit slice `v[from..]` as a number, giving up once it exceeds `limit`.
fn digits_upto(v: &Vec<char>, from: usize, limit: i64) -> (r: Option<i64>)
    requires
        from <= v.len(),
        0 <= limit <= u32::MAX as i64,
        all_digits(v@.skip(from as int)),
    ensures
        match r {
            Some(x) => x == digits_value(v@.skip(from as int)) && 0 <= x <= limit,
            None => digits_value(v@.skip(from as int)) > limit,
        },
{
    let ghost body = v@.skip(from as int);
    let mut acc: i64 = 0;
    let mut i: usize = from;
    assert(body.take(0) =~= Seq::<char>::empty());
    while i < v.len()
        invariant
            from <= i <= v.len(),
            body == v@.skip(from as int),
            all_digits(body),
            0 <= limit <= u32::MAX as i64,
            0 <= acc <= limit,
            acc == digits_value(body.take(i - from)),
        decreases v.len() - i,
    {
        let c = v[i];
        assert(body[i - from] == c);
        let d = (c as u32 - '0' as u32) as i64;
        let next = acc * 10 + d;
        proof {
            assert(body.take(i - from + 1).drop_last() =~= body.take(i - from));
            assert(body.take(i - from + 1).last() == c);
        }
        i = i + 1;
        if next > limit {
            proof {
                lemma_digits_monotone(body, i - from, body.len() as int);
                assert(body.take(body.len() as int) =~= body);
            }
            return None;
        }
        acc = next;
    }
    assert(body.take(i - from) =~= body);
    Some(acc)
}

/// `str::parse::<i32>` on the characters of `v`.
pub fn parse_i32_vec(v: &Vec<char>) -> (r: Option<i32>)
    ensures
        r == parse_i32(v@),
{
    if v.len() == 0 {
        return None;
    }
    if v[0] == '-' || v[0] == '+' {
        assert(v@.skip(1) =~= v@.drop_first());
        if v.len() == 1 {
            return None;
        }
        if !all_digits_from(v, 1) {
            return None;
        }
        let neg = v[0] == '-';
        let limit: i64 = if neg { 2147483648 } else { 2147483647 };
        match digits_upto(v, 1, limit) {
            Some(x) => {
                if neg {
                    Some((-x) as i32)
                } else {
                    Some(x as i32)
                }
            },
            None => None,
        }
    } else {
        assert(v@.skip(0) =~= v@);
        if !all_digits_from(v, 0) {
            return None;
        }
        match digits_upto(v, 0, 2147483647) {
            Some(x) => Some(x as i32),
            None => None,
        }
    }
}

/// `str::parse::<i32>`.
pub fn parse_i32_str(s: &str) -> (r: Option<i32>)
    ensures
        r == parse_i32(s@),
{
    let v = chars_of(s);
    parse_i32_vec(&v)
}

/// What `str::parse::<u32>` yields: an optional `+`, then decimal digits denoting a
/// value that fits.
pub open spec fn parse_u32(s: Seq<char>) -> Option<u32> {
    let body = if s.len() > 0 && s[0] == '+' { s.drop_first() } else { s };
    if body.len() > 0 && all_digits(body) && digits_value(body) <= u32::MAX {
        Some(digits_value(body) as u32)
    } else {
        None
    }
}

/// `str::parse::<u32>`.
pub fn parse_u32_str(s: &str) -> (r: Option<u32>)
    ensures
        r == parse_u32(s@),
{
    let v = chars_of(s);
    let from: usize = if v.len() > 0 && v[0] == '+' { 1 } else { 0 };
    proof {
        if from == 1 {
            assert(v@.skip(1) =~= v@.drop_first());
        } else {
            assert(v@.skip(0) =~= v@);
        }
    }
    if from == v.len() || !all_digits_from(&v, from) {
        return None;
    }
    match digits_upto(&v, from, 4294967295) {
        Some(x) => Some(x as u32),
        None => None,
    }
}

proof fn lemma_nat_decimal_len(n: nat)
    ensures
        nat_decimal(n).len() >= 1,
    decreases n,
{
    if n >= 10 {
        lemma_nat_decimal_len(n / 10);
    }
}

/// Decimal digits of `n`, most significant first.
pub fn nat_decimal_vec(n: u64) -> (r: Vec<char>)
    ensures
        r@ == nat_decimal(n as nat),
    decreases n,
{
    if n < 10 {
        let c = ('0' as u8 + n as u8) as char;
        let mut r: Vec<char> = Vec::new();
        r.push(c);
        assert(r@ =~= seq![digit_char(n as int)]);
        r
    } else {
        let mut r = nat_decimal_vec(n / 10);
        let c = ('0' as u8 + (n % 10) as u8) as char;
        r.push(c);
        r
    }
}

/// `n` rendered in decimal, as `format!("{n}")` does.
pub fn decimal_i64(n: i64) -> (r: Vec<char>)
    ensures
        r@ == decimal(n as int),
{
    if n < 0 {
        let m: u64 = (-(n + 1)) as u64 + 1;
        let digits = nat_decimal_vec(m);
        let mut r: Vec<char> = Vec::new();
        r.push('-');
        let mut i: usize = 0;
        while i < digits.len()
            invariant
                i <= digits.len(),
                r@ == seq!['-'] + digits@.take(i as int),
            decreases digits.len() - i,
        {
            r.push(digits[i]);
            i = i + 1;
            assert(r@ =~= seq!['-'] + digits@.take(i as int));
        }
        assert(digits@.take(digits.len() as int) =~= digits@);
        r
    } else {
        nat_decimal_vec(n as u64)
    }
}

/// `v` with every `from` replaced by the characters of `to`.
pub fn replace_char_vec(v: &Vec<char>, from: char, to: &Vec<char>) -> (r: Vec<char>)
    ensures
        r@ == replace_char(v@, from, to@),
{
    let mut r: Vec<char> = Vec::new();
    let mut k: usize = 0;
    while k < v.len()
        invariant
            k <= v.len(),
            r@ == replace_char(v@.take(k as int), from, to@),
        decreases v.len() - k,
    {
        proof {
            lemma_replace_snoc(v@.take(k as int), v@[k as int], from, to@);
            assert(v@.take(k as int).push(v@[k as int]) =~= v@.take(k + 1));
        }
        if v[k] == from {
            let mut j: usize = 0;
            let ghost base = r@;
            while j < to.len()
                invariant
                    j <= to.len(),
                    r@ == base + to@.take(j as int),
                decreases to.len() - j,
            {
                r.push(to[j]);
                j = j + 1;
                assert(r@ =~= base + to@.take(j as int));
            }
            assert(to@.take(to.len() as int) =~= to@);
        } else {
            r.push(v[k]);
        }
        k = k + 1;
    }
    assert(v@.take(v.len() as int) =~= v@);
    r
}

proof fn lemma_replace_snoc(s: Seq<char>, c: char, from: char, to: Seq<char>)
    ensures
        replace_char(s.push(c), from, to) == replace_char(s, from, to) + (if c == from {
            to
        } else {
            seq![c]
        }),
    decreases s.len(),
{
    if s.len() == 0 {
        assert(s.push(c).drop_first() =~= Seq::<char>::empty());
        assert(replace_char(Seq::<char>::empty(), from, to) =~= Seq::<char>::empty());
        let head = if c == from { to } else { seq![c] };
        assert(head + Seq::<char>::empty() =~= head);
        assert(Seq::<char>::empty() + head =~= head);
    } else {
        lemma_replace_snoc(s.drop_first(), c, from, to);
        assert(s.push(c).drop_first() =~= s.drop_first().push(c));
        let head = if s[0] == from { to } else { seq![s[0]] };
        let tail = if c == from { to } else { seq![c] };
        assert(head + (replace_char(s.drop_first(), from, to) + tail) =~= (head
            + replace_char(s.drop_first(), from, to)) + tail);
    }
}


/// Every non-overlapping occurrence of `pat`, scanning left to right, replaced by `to`
/// (`str::replace`). An empty pattern leaves the text unchanged here; callers never
/// pass one.
pub open spec fn replace_all(s: Seq<char>, pat: Seq<char>, to: Seq<char>) -> Seq<char>
    decreases s.len(),
{
    if s.len() == 0 || pat.len() == 0 {
        s
    } else if begins(s, pat) {
        to + replace_all(s.skip(pat.len() as int), pat, to)
    } else {
        seq![s[0]] + replace_all(s.drop_first(), pat, to)
    }
}

/// The first occurrence of `pat` replaced by `to` (`str::replacen(pat, to, 1)`).
pub open spec fn replace_first(s: Seq<char>, pat: Seq<char>, to: Seq<char>) -> Seq<char>
    decreases s.len(),
{
    if s.len() == 0 || pat.len() == 0 {
        s
    } else if begins(s, pat) {
        to + s.skip(pat.len() as int)
    } else {
        seq![s[0]] + replace_first(s.drop_first(), pat, to)
    }
}

/// `s` without its leading run of `c` (`trim_start_matches(c)`).
pub open spec fn strip_leading(s: Seq<char>, c: char) -> Seq<char>
    decreases s.len(),
{
    if s.len() > 0 && s[0] == c {
        strip_leading(s.drop_first(), c)
    } else {
        s
    }
}

proof fn lemma_begins_skip(s: Seq<char>, pat: Seq<char>, i: int)
    requires
        0 <= i <= s.len(),
    ensures
        begins(s.skip(i), pat) == occurs_at(s, pat, i),
{
    if i + pat.len() <= s.len() {
        assert(s.skip(i).subrange(0, pat.len() as int) =~= s.subrange(i, i + pat.len()));
    }
}

fn push_vec(r: &mut Vec<char>, v: &Vec<char>)
    ensures
        final(r)@ == old(r)@ + v@,
{
    let mut j: usize = 0;
    let ghost base = r@;
    while j < v.len()
        invariant
            j <= v.len(),
            r@ == base + v@.take(j as int),
        decreases v.len() - j,
    {
        r.push(v[j]);
        j = j + 1;
        assert(r@ =~= base + v@.take(j as int));
    }
    assert(v@.take(v.len() as int) =~= v@);
}

fn occurs_at_checked(hay: &Vec<char>, pat: &Vec<char>, i: usize) -> (r: bool)
    requires
        i <= hay.len(),
    ensures
        r == occurs_at(hay@, pat@, i as int),
{
    if pat.len() > hay.len() - i {
        return false;
    }
    occurs_at_exec(hay, pat, i)
}

/// `str::replace` on character vectors.
pub fn replace_all_vec(v: &Vec<char>, pat: &Vec<char>, to: &Vec<char>) -> (r: Vec<char>)
    ensures
        r@ == replace_all(v@, pat@, to@),
{
    if pat.len() == 0 {
        let mut r: Vec<char> = Vec::new();
        push_vec(&mut r, v);
        assert(r@ =~= v@);
        proof {
            if v@.len() > 0 {
                assert(replace_all(v@, pat@, to@) == v@);
            }
        }
        return r;
    }
    let mut r: Vec<char> = Vec::new();
    let mut i: usize = 0;
    assert(v@.skip(0) =~= v@);
    while i < v.len()
        invariant
            i <= v.len(),
            pat@.len() > 0,
            r@ + replace_all(v@.skip(i as int), pat@, to@) == replace_all(v@, pat@, to@),
        decreases v.len() - i,
    {
        let hit = occurs_at_checked(v, pat, i);
        proof {
            lemma_begins_skip(v@, pat@, i as int);
        }
        if hit {
            proof {
                assert(v@.skip(i as int).skip(pat@.len() as int) =~= v@.skip(i + pat@.len()));
                assert(r@ + (to@ + replace_all(v@.skip(i + pat@.len()), pat@, to@)) =~= (r@ + to@)
                    + replace_all(v@.skip(i + pat@.len()), pat@, to@));
            }
            push_vec(&mut r, to);
            i = i + pat.len();
        } else {
            proof {
                assert(v@.skip(i as int).drop_first() =~= v@.skip(i + 1));
                assert(v@.skip(i as int)[0] == v@[i as int]);
                assert(r@ + (seq![v@[i as int]] + replace_all(v@.skip(i + 1), pat@, to@)) =~= r@.push(
                    v@[i as int],
                ) + replace_all(v@.skip(i + 1), pat@, to@));
            }
            r.push(v[i]);
            i = i + 1;
        }
    }
    proof {
        assert(v@.skip(i as int) =~= Seq::<char>::empty());
        assert(r@ + Seq::<char>::empty() =~= r@);
    }
    r
}

/// `str::replacen(pat, to, 1)` on character vectors.
pub fn replace_first_vec(v: &Vec<char>, pat: &Vec<char>, to: &Vec<char>) -> (r: Vec<char>)
    ensures
        r@ == replace_first(v@, pat@, to@),
{
    let mut r: Vec<char> = Vec::new();
    if pat.len() == 0 {
        push_vec(&mut r, v);
        assert(r@ =~= v@);
        return r;
    }
    let mut i: usize = 0;
    assert(v@.skip(0) =~= v@);
    while i < v.len()
        invariant
            i <= v.len(),
            pat@.len() > 0,
            r@ == v@.take(i as int),
            r@ + replace_first(v@.skip(i as int), pat@, to@) == replace_first(v@, pat@, to@),
        decreases v.len() - i,
    {
        let hit = occurs_at_checked(v, pat, i);
        proof {
            lemma_begins_skip(v@, pat@, i as int);
        }
        if hit {
            proof {
                assert(v@.skip(i as int).skip(pat@.len() as int) =~= v@.skip(i + pat@.len()));
            }
            push_vec(&mut r, to);
            let mut k: usize = i + pat.len();
            let ghost base = r@;
            while k < v.len()
                invariant
                    i + pat@.len() <= k <= v.len(),
                    r@ == base + v@.subrange(i + pat@.len(), k as int),
                decreases v.len() - k,
            {
                r.push(v[k]);
                k = k + 1;
                assert(r@ =~= base + v@.subrange(i + pat@.len(), k as int));
            }
            assert(v@.subrange(i + pat@.len(), v.len() as int) =~= v@.skip(i + pat@.len()));
            assert(r@ =~= v@.take(i as int) + (to@ + v@.skip(i + pat@.len())));
            return r;
        } else {
            proof {
                assert(v@.skip(i as int).drop_first() =~= v@.skip(i + 1));
                assert(v@.skip(i as int)[0] == v@[i as int]);
                assert(r@ + (seq![v@[i as int]] + replace_first(v@.skip(i + 1), pat@, to@)) =~= r@.push(
                    v@[i as int],
                ) + replace_first(v@.skip(i + 1), pat@, to@));
                assert(v@.take(i + 1) =~= v@.take(i as int).push(v@[i as int]));
            }
            r.push(v[i]);
            i = i + 1;
        }
    }
    proof {
        assert(v@.skip(i as int) =~= Seq::<char>::empty());
        assert(r@ + Seq::<char>::empty() =~= r@);
    }
    r
}

/// `s.replace(pat, to)`.
pub fn replace_str(s: &str, pat: &str, to: &str) -> (r: String)
    ensures
        r@ == replace_all(s@, pat@, to@),
{
    let r = replace_all_vec(&chars_of(s), &chars_of(pat), &chars_of(to));
    string_of(&r)
}

/// `s.replacen(pat, to, 1)`.
pub fn replace_first_str(s: &str, pat: &str, to: &str) -> (r: String)
    ensures
        r@ == replace_first(s@, pat@, to@),
{
    let r = replace_first_vec(&chars_of(s), &chars_of(pat), &chars_of(to));
    string_of(&r)
}

/// `b` as `Display` prints it.
pub open spec fn bool_text(b: bool) -> Seq<char> {
    if b { "true"@ } else { "false"@ }
}

pub fn bool_str(b: bool) -> (r: &'static str)
    ensures
        r@ == bool_text(b),
{
    if b { "true" } else { "false" }
}

/// `s` with every leading repetition of `p` removed (`trim_start_matches(p)`).
pub open spec fn strip_prefix_all(s: Seq<char>, p: Seq<char>) -> Seq<char>
    decreases s.len(),
{
    if p.len() > 0 && s.len() >= p.len() && s.take(p.len() as int) == p {
        strip_prefix_all(s.skip(p.len() as int), p)
    } else {
        s
    }
}

pub fn strip_prefix_all_str(s: &str, p: &str) -> (r: String)
    ensures
        r@ == strip_prefix_all(s@, p@),
{
    let v = chars_of(s);
    let pv = chars_of(p);
    let mut k: usize = 0;
    assert(v@.skip(0) =~= v@);
    while pv.len() > 0 && v.len() - k >= pv.len() && begins_at(&v, k, &pv)
        invariant
            k <= v@.len(),
            pv@ == p@,
            strip_prefix_all(v@.skip(k as int), p@) == strip_prefix_all(s@, p@),
            v@ == s@,
        decreases v.len() - k,
    {
        assert(v@.skip(k as int).take(pv@.len() as int) =~= pv@);
        assert(v@.skip(k as int).skip(pv@.len() as int) =~= v@.skip(k + pv.len()));
        k = k + pv.len();
    }
    proof {
        if pv@.len() > 0 && v@.len() - k >= pv@.len() {
            assert(!(v@.skip(k as int).take(pv@.len() as int) =~= pv@));
        }
    }
    let mut r: Vec<char> = Vec::new();
    let mut j: usize = k;
    while j < v.len()
        invariant
            k <= j <= v@.len(),
            r@ == v@.subrange(k as int, j as int),
        decreases v.len() - j,
    {
        r.push(v[j]);
        j = j + 1;
        assert(r@ =~= v@.subrange(k as int, j as int));
    }
    assert(r@ =~= v@.skip(k as int));
    string_of(&r)
}

fn begins_at(v: &Vec<char>, k: usize, p: &Vec<char>) -> (r: bool)
    requires
        k <= v@.len(),
        v@.len() - k >= p@.len(),
    ensures
        r == (v@.skip(k as int).take(p@.len() as int) =~= p@),
{
    let mut i: usize = 0;
    while i < p.len()
        invariant
            i <= p@.len(),
            k <= v@.len(),
            v@.len() - k >= p@.len(),
            k + p@.len() <= v.len(),
            forall|j: int| 0 <= j < i ==> v@[k + j] == p@[j],
        decreases p.len() - i,
    {
        if v[k + i] != p[i] {
            assert(v@.skip(k as int).take(p@.len() as int)[i as int] != p@[i as int]);
            return false;
        }
        i = i + 1;
    }
    assert(v@.skip(k as int).take(p@.len() as int) =~= p@);
    true
}

/// `n.to_string()` for a `u64`.
pub fn u64_string(n: u64) -> (r: String)
    ensures
        r@ == nat_decimal(n as nat),
{
    let v = nat_decimal_vec(n);
    string_of(&v)
}

/// `n.to_string()` for an `i32`.
pub fn i32_string(n: i32) -> (r: String)
    ensures
        r@ == decimal(n as int),
{
    let v = decimal_i64(n as i64);
    string_of(&v)
}

/// `s.trim_start_matches(c)`.
pub fn strip_leading_vec(v: &Vec<char>, c: char) -> (r: Vec<char>)
    ensures
        r@ == strip_leading(v@, c),
{
    let mut i: usize = 0;
    assert(v@.skip(0) =~= v@);
    while i < v.len() && v[i] == c
        invariant
            i <= v.len(),
            strip_leading(v@.skip(i as int), c) == strip_leading(v@, c),
        decreases v.len() - i,
    {
        assert(v@.skip(i as int).drop_first() =~= v@.skip(i + 1));
        i = i + 1;
    }
    let mut r: Vec<char> = Vec::new();
    let mut k: usize = i;
    while k < v.len()
        invariant
            i <= k <= v.len(),
            r@ == v@.subrange(i as int, k as int),
        decreases v.len() - k,
    {
        r.push(v[k]);
        k = k + 1;
        assert(r@ =~= v@.subrange(i as int, k as int));
    }
    assert(r@ =~= v@.skip(i as int));
    r
}


/// The lines of `s` as `str::lines` yields them: split at `\n`, a `\r` before that `\n`
/// dropped, no empty line after a final newline.
pub open spec fn lines(s: Seq<char>) -> Seq<Seq<char>>
    decreases s.len(),
{
    if s.len() == 0 {
        Seq::empty()
    } else {
        let c = cut(s, '\n');
        match c.1 {
            None => seq![c.0],
            Some(rest) => {
                let line = if c.0.len() > 0 && c.0.last() == '\r' { c.0.drop_last() } else { c.0 };
                if rest.len() < s.len() { seq![line] + lines(rest) } else { seq![line] }
            },
        }
    }
}

pub proof fn lemma_cut_rest_shorter(s: Seq<char>, c: char)
    ensures
        cut(s, c).1 matches Some(r) ==> r.len() < s.len(),
    decreases s.len(),
{
    if s.len() > 0 && s[0] != c {
        lemma_cut_rest_shorter(s.drop_first(), c);
    }
}

pub open spec fn views(v: Seq<Vec<char>>) -> Seq<Seq<char>> {
    v.map_values(|x: Vec<char>| x@)
}

/// `str::lines` on a character vector.
pub fn lines_vec(s: &Vec<char>) -> (r: Vec<Vec<char>>)
    ensures
        views(r@) == lines(s@),
    decreases s@.len(),
{
    if s.len() == 0 {
        let r: Vec<Vec<char>> = Vec::new();
        assert(views(r@) =~= lines(s@));
        return r;
    }
    let (head, rest) = cut_vec(s, '\n');
    proof {
        lemma_cut_rest_shorter(s@, '\n');
    }
    match rest {
        None => {
            let mut r: Vec<Vec<char>> = Vec::new();
            r.push(head);
            assert(views(r@) =~= lines(s@));
            r
        },
        Some(rest) => {
            let mut line = head;
            if line.len() > 0 && line[line.len() - 1] == '\r' {
                line.pop();
            }
            let mut tail = lines_vec(&rest);
            let mut r: Vec<Vec<char>> = Vec::new();
            r.push(line);
            r.append(&mut tail);
            assert(views(r@) =~= lines(s@));
            r
        },
    }
}

/// The pieces of `s` between occurrences of `c`, as `str::split(c)` yields them.
pub open spec fn split_all(s: Seq<char>, c: char) -> Seq<Seq<char>>
    decreases s.len(),
{
    let p = cut(s, c);
    match p.1 {
        None => seq![p.0],
        Some(rest) => if rest.len() < s.len() { seq![p.0] + split_all(rest, c) } else { seq![p.0] },
    }
}

/// `str::split(c)` on a character vector.
pub fn split_vec(s: &Vec<char>, c: char) -> (r: Vec<Vec<char>>)
    ensures
        views(r@) == split_all(s@, c),
    decreases s@.len(),
{
    let (head, rest) = cut_vec(s, c);
    proof {
        lemma_cut_rest_shorter(s@, c);
    }
    let mut r: Vec<Vec<char>> = Vec::new();
    r.push(head);
    match rest {
        None => {
            assert(views(r@) =~= split_all(s@, c));
            r
        },
        Some(rest) => {
            let mut tail = split_vec(&rest, c);
            r.append(&mut tail);
            assert(views(r@) =~= split_all(s@, c));
            r
        },
    }
}

/// Piece `k` of a split, or nothing when there are fewer pieces (what the `k`-th
/// `next()` of the split iterator gives, empty when it gives `None`).
pub open spec fn piece_or_empty(p: Seq<Seq<char>>, k: int) -> Seq<char> {
    if 0 <= k < p.len() { p[k] } else { Seq::empty() }
}

// ---------------------------------------------------------------------------
// Decimal round trips
// ---------------------------------------------------------------------------

/// The decimal rendering of a natural number is a non-empty digit string denoting it.
pub proof fn lemma_nat_decimal(n: nat)
    ensures
        nat_decimal(n).len() > 0,
        all_digits(nat_decimal(n)),
        digits_value(nat_decimal(n)) == n,
    decreases n,
{
    if n >= 10 {
        lemma_nat_decimal((n / 10) as nat);
        let s = nat_decimal((n / 10) as nat);
        let t = s.push(digit_char((n % 10) as int));
        assert(t.drop_last() =~= s);
        assert(t == nat_decimal(n));
        assert(digit_value(t.last()) == n % 10);
        assert(digits_value(t) == digits_value(s) * 10 + digit_value(t.last()));
        assert((n / 10) * 10 + n % 10 == n);
        assert(all_digits(t)) by {
            assert forall|i: int| 0 <= i < t.len() implies is_digit(#[trigger] t[i]) by {
                if i < s.len() {
                    assert(t[i] == s[i]);
                }
            }
        }
    } else {
        let t = seq![digit_char(n as int)];
        assert(t.drop_last() =~= Seq::<char>::empty());
        assert(digit_value(t.last()) == n);
        assert(digits_value(t) == digits_value(t.drop_last()) * 10 + digit_value(t.last()));
    }
}

/// Reading back the decimal rendering of an `i32` gives the number.
pub proof fn lemma_parse_decimal(n: i32)
    ensures
        parse_i32(decimal(n as int)) == Some(n),
{
    if n < 0 {
        let body = nat_decimal((-n) as nat);
        lemma_nat_decimal((-n) as nat);
        let s = seq!['-'] + body;
        assert(s.drop_first() =~= body);
        assert(s[0] == '-');
    } else {
        lemma_nat_decimal(n as nat);
        let s = nat_decimal(n as nat);
        assert(is_digit(s[0]));
    }
}

/// The last `c`-separated piece of `p c t` is `t` when `t` holds no `c`.
pub proof fn lemma_last_piece_after(p: Seq<char>, c: char, t: Seq<char>)
    requires
        forall|i: int| 0 <= i < t.len() ==> t[i] != c,
    ensures
        last_piece(p + seq![c] + t, c) == t,
    decreases t.len(),
{
    let s = p + seq![c] + t;
    if t.len() == 0 {
        assert(s.last() == c);
    } else {
        lemma_last_piece_after(p, c, t.drop_last());
        assert(s.drop_last() =~= p + seq![c] + t.drop_last());
        assert(s.last() == t.last());
        assert(t.drop_last().push(t.last()) =~= t);
    }
}

/// A decimal rendering holds no `:`.
pub proof fn lemma_decimal_no_colon(n: i32)
    ensures
        forall|i: int| 0 <= i < decimal(n as int).len() ==> decimal(n as int)[i] != ':',
{
    if n < 0 {
        lemma_nat_decimal((-n) as nat);
        let body = nat_decimal((-n) as nat);
        assert forall|i: int| 0 <= i < decimal(n as int).len() implies decimal(n as int)[i] != ':' by {
            if i > 0 {
                assert(decimal(n as int)[i] == body[i - 1]);
                assert(is_digit(body[i - 1]));
            }
        }
    } else {
        lemma_nat_decimal(n as nat);
        assert forall|i: int| 0 <= i < decimal(n as int).len() implies decimal(n as int)[i] != ':' by {
            assert(is_digit(nat_decimal(n as nat)[i]));
        }
    }
}

} // verus!
