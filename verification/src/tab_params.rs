//! The parameters of the user-browser tab commands (select, close, open, group,
//! ungroup, update group): a JSON object, checked before anything is sent to the
//! extension, and the tab and group ids read from it.
use vstd::prelude::*;
use crate::error::{ErrorCode, VcuError};
use crate::login_state::{first_where, is_first, lemma_first_where, lemma_first_where_none};
use crate::text::{
    begins, chars_of, decimal, nat_decimal, owned, parse_u32, parse_u32_str, str_eq, string_of, trim, trim_str,
    u64_string, decimal_i64, begins_str,
};

verus! {

broadcast use vstd::string::group_string_axioms;

/// A JSON number as the library reads it: a non-negative or negative integer, or a
/// float (whose value is never read).
#[derive(Debug, Clone, Copy, PartialEq, Eq, Structural)]
pub enum JsonNumber {
    PosInt(u64),
    NegInt(i64),
    Float,
}

/// A JSON value. An object's keys are distinct, as in a parsed document.
#[derive(Debug)]
pub enum JsonValue {
    Null,
    Bool(bool),
    Number(JsonNumber),
    Str(String),
    Array(Vec<JsonValue>),
    Object(Vec<(String, JsonValue)>),
}

/// The value under `key`, when `v` is an object that has it.
pub open spec fn get(v: JsonValue, key: Seq<char>) -> Option<JsonValue> {
    match v {
        JsonValue::Object(fields) => match first_where(fields@, |f: (String, JsonValue)| f.0@ == key) {
            Some(i) => Some(fields@[i].1),
            None => None,
        },
        _ => None,
    }
}

pub open spec fn is_object(v: JsonValue) -> bool {
    v is Object
}

pub open spec fn has_key(v: JsonValue, key: Seq<char>) -> bool {
    get(v, key) is Some
}

/// The text under `key`, when it is a string that is not blank.
pub open spec fn nonblank_str(v: JsonValue, key: Seq<char>) -> Option<Seq<char>> {
    match get(v, key) {
        Some(JsonValue::Str(s)) => if trim(s@).len() > 0 { Some(s@) } else { None },
        _ => None,
    }
}

/// `key` holds a non-blank string that reads as a `u32`.
pub open spec fn valid_id(v: JsonValue, key: Seq<char>) -> bool {
    match nonblank_str(v, key) {
        Some(s) => parse_u32(s) is Some,
        None => false,
    }
}

/// A tab id in a list: a string that reads as a `u32` (not trimmed).
pub open spec fn id_string(v: JsonValue) -> bool {
    match v {
        JsonValue::Str(s) => parse_u32(s@) is Some,
        _ => false,
    }
}

pub open spec fn group_color(s: Seq<char>) -> bool {
    s == "grey"@ || s == "blue"@ || s == "red"@ || s == "yellow"@ || s == "green"@ || s == "pink"@ || s == "purple"@
        || s == "cyan"@ || s == "orange"@
}

pub const NOT_OBJECT: &'static str = "expected an object";
pub const BAD_TAB_ID: &'static str = "tab_id must be a nonnegative integer string";
pub const BAD_GROUP_ID: &'static str = "group_id must be a nonnegative integer string";
pub const BAD_TAB_IDS: &'static str = "tab_ids must be a nonempty array of ID strings";
pub const TITLE_NEEDED: &'static str = "title must be nonempty";
pub const BLANK_TITLE: &'static str = "group title must be nonempty";
pub const BAD_COLOR: &'static str = "unsupported tab group color";
pub const NOT_BOOLEAN: &'static str = "collapsed and active must be booleans";
pub const URL_NEEDED: &'static str = "http(s) url required";
pub const NAME_OR_GROUP: &'static str = "session_name and group_id are mutually exclusive";
pub const WINDOW_OR_GROUP: &'static str = "new_window and group_id are mutually exclusive";
pub const INVALID_GROUP: &'static str = "invalid group_id";

pub open spec fn present_not_bool(v: JsonValue, key: Seq<char>) -> bool {
    match get(v, key) {
        Some(JsonValue::Bool(_)) => false,
        Some(_) => true,
        None => false,
    }
}

pub open spec fn tab_ids_ok(v: JsonValue) -> bool {
    match get(v, "tab_ids"@) {
        Some(JsonValue::Array(ids)) => ids@.len() > 0 && forall|i: int| 0 <= i < ids@.len() ==> id_string(
            #[trigger] ids@[i],
        ),
        _ => false,
    }
}

/// The checks after the per-method ids: titles, color, booleans, and an `open_tab`'s
/// URL and placement.
pub open spec fn later_error(method: Seq<char>, v: JsonValue) -> Option<Seq<char>> {
    if method == "group_tabs"@ && nonblank_str(v, "title"@) is None {
        Some(TITLE_NEEDED@)
    } else if (has_key(v, "title"@) && nonblank_str(v, "title"@) is None) || (has_key(v, "session_name"@)
        && nonblank_str(v, "session_name"@) is None) {
        Some(BLANK_TITLE@)
    } else if has_key(v, "color"@) && !(get(v, "color"@) matches Some(JsonValue::Str(c)) && group_color(c@)) {
        Some(BAD_COLOR@)
    } else if present_not_bool(v, "collapsed"@) || present_not_bool(v, "active"@) || present_not_bool(
        v,
        "new_window"@,
    ) {
        Some(NOT_BOOLEAN@)
    } else if method == "open_tab"@ {
        match nonblank_str(v, "url"@) {
            None => Some(URL_NEEDED@),
            Some(url) => if !(begins(url, "http://"@) || begins(url, "https://"@)) {
                Some(URL_NEEDED@)
            } else if has_key(v, "session_name"@) && has_key(v, "group_id"@) {
                Some(NAME_OR_GROUP@)
            } else if get(v, "new_window"@) == Some(JsonValue::Bool(true)) && has_key(v, "group_id"@) {
                Some(WINDOW_OR_GROUP@)
            } else if has_key(v, "group_id"@) && !valid_id(v, "group_id"@) {
                Some(INVALID_GROUP@)
            } else {
                None
            },
        }
    } else {
        None
    }
}

/// The first rule a tab command's parameters break, in the order they are checked;
/// `None` when they pass.
pub open spec fn tab_params_error(method: Seq<char>, v: JsonValue) -> Option<Seq<char>> {
    if !is_object(v) {
        Some(NOT_OBJECT@)
    } else if (method == "select_tab"@ || method == "close_tab"@) && !valid_id(v, "tab_id"@) {
        Some(BAD_TAB_ID@)
    } else if method == "update_group"@ && !valid_id(v, "group_id"@) {
        Some(BAD_GROUP_ID@)
    } else if (method == "group_tabs"@ || method == "ungroup_tabs"@) && !tab_ids_ok(v) {
        Some(BAD_TAB_IDS@)
    } else {
        later_error(method, v)
    }
}

/// The nine tab group colors are all accepted: a tab command is refused for its color
/// only when the color is not a string naming one of grey, blue, red, yellow, green,
/// pink, purple, cyan and orange.
pub proof fn lemma_group_colors_accepted(method: Seq<char>, v: JsonValue)
    ensures
        tab_params_error(method, v) == Some(BAD_COLOR@) ==> !(get(v, "color"@) matches Some(JsonValue::Str(c)) && (c@
            == "grey"@ || c@ == "blue"@ || c@ == "red"@ || c@ == "yellow"@ || c@ == "green"@ || c@ == "pink"@ || c@
            == "purple"@ || c@ == "cyan"@ || c@ == "orange"@)),
{
    reveal_strlit("expected an object");
    reveal_strlit("tab_id must be a nonnegative integer string");
    reveal_strlit("group_id must be a nonnegative integer string");
    reveal_strlit("tab_ids must be a nonempty array of ID strings");
    reveal_strlit("title must be nonempty");
    reveal_strlit("group title must be nonempty");
    reveal_strlit("unsupported tab group color");
    reveal_strlit("collapsed and active must be booleans");
    reveal_strlit("http(s) url required");
    reveal_strlit("session_name and group_id are mutually exclusive");
    reveal_strlit("new_window and group_id are mutually exclusive");
    reveal_strlit("invalid group_id");
    let n = BAD_COLOR@.len();
    assert(NOT_OBJECT@.len() != n && BAD_TAB_ID@.len() != n && BAD_GROUP_ID@.len() != n && BAD_TAB_IDS@.len() != n);
    assert(TITLE_NEEDED@.len() != n && NOT_BOOLEAN@.len() != n && URL_NEEDED@.len() != n);
    assert(NAME_OR_GROUP@.len() != n && WINDOW_OR_GROUP@.len() != n && INVALID_GROUP@.len() != n);
    assert(BLANK_TITLE@[0] != BAD_COLOR@[0]);
}

pub(crate) fn get_field<'a>(v: &'a JsonValue, key: &str) -> (r: Option<&'a JsonValue>)
    ensures
        match (r, get(*v, key@)) {
            (Some(a), Some(b)) => *a == b,
            (None, None) => true,
            _ => false,
        },
{
    match v {
        JsonValue::Object(fields) => {
            let mut i: usize = 0;
            while i < fields.len()
                invariant
                    i <= fields@.len(),
                    *v == JsonValue::Object(*fields),
                    forall|k: int| 0 <= k < i ==> (#[trigger] fields@[k]).0@ != key@,
                decreases fields.len() - i,
            {
                if str_eq(fields[i].0.as_str(), key) {
                    proof {
                        lemma_first_where(fields@, |f: (String, JsonValue)| f.0@ == key@, i as int);
                        assert(get(*v, key@) == Some(fields@[i as int].1));
                    }
                    return Some(&fields[i].1);
                }
                i = i + 1;
            }
            proof {
                lemma_first_where_none(fields@, |f: (String, JsonValue)| f.0@ == key@);
            }
            None
        },
        _ => None,
    }
}

fn nonblank<'a>(v: &'a JsonValue, key: &str) -> (r: Option<&'a str>)
    ensures
        match (r, nonblank_str(*v, key@)) {
            (Some(a), Some(b)) => a@ == b,
            (None, None) => true,
            _ => false,
        },
{
    match get_field(v, key) {
        Some(JsonValue::Str(s)) => {
            if trim_str(s.as_str()).unicode_len() > 0 {
                Some(s.as_str())
            } else {
                None
            }
        },
        _ => None,
    }
}

fn valid_id_at(v: &JsonValue, key: &str) -> (r: bool)
    ensures
        r == valid_id(*v, key@),
{
    match nonblank(v, key) {
        Some(s) => parse_u32_str(s).is_some(),
        None => false,
    }
}

fn not_bool_at(v: &JsonValue, key: &str) -> (r: bool)
    ensures
        r == present_not_bool(*v, key@),
{
    match get_field(v, key) {
        Some(JsonValue::Bool(_)) => false,
        Some(_) => true,
        None => false,
    }
}

fn tab_ids_at(v: &JsonValue) -> (r: bool)
    ensures
        r == tab_ids_ok(*v),
{
    match get_field(v, "tab_ids") {
        Some(JsonValue::Array(ids)) => {
            if ids.len() == 0 {
                return false;
            }
            let mut i: usize = 0;
            while i < ids.len()
                invariant
                    i <= ids@.len(),
                    get(*v, "tab_ids"@) == Some(JsonValue::Array(*ids)),
                    forall|k: int| 0 <= k < i ==> id_string(#[trigger] ids@[k]),
                decreases ids.len() - i,
            {
                let ok = match &ids[i] {
                    JsonValue::Str(s) => parse_u32_str(s.as_str()).is_some(),
                    _ => false,
                };
                if !ok {
                    assert(!id_string(ids@[i as int]));
                    return false;
                }
                i = i + 1;
            }
            true
        },
        _ => false,
    }
}

fn is_group_color(s: &str) -> (r: bool)
    ensures
        r == group_color(s@),
{
    str_eq(s, "grey") || str_eq(s, "blue") || str_eq(s, "red") || str_eq(s, "yellow") || str_eq(s, "green") || str_eq(
        s,
        "pink",
    ) || str_eq(s, "purple") || str_eq(s, "cyan") || str_eq(s, "orange")
}

fn refuse(msg: &str) -> (e: VcuError)
    ensures
        e.code == ErrorCode::InvalidInput,
        e.message@ == msg@,
{
    VcuError::coded(ErrorCode::InvalidInput, owned(msg))
}

fn later_check(method: &str, v: &JsonValue) -> (r: Result<(), VcuError>)
    ensures
        match later_error(method@, *v) {
            None => r is Ok,
            Some(m) => r matches Err(e) && e.code == ErrorCode::InvalidInput && e.message@ == m,
        },
{
    if str_eq(method, "group_tabs") && nonblank(v, "title").is_none() {
        return Err(refuse(TITLE_NEEDED));
    }
    if (get_field(v, "title").is_some() && nonblank(v, "title").is_none()) || (get_field(v, "session_name").is_some()
        && nonblank(v, "session_name").is_none()) {
        return Err(refuse(BLANK_TITLE));
    }
    match get_field(v, "color") {
        Some(c) => {
            let ok = match c {
                JsonValue::Str(s) => is_group_color(s.as_str()),
                _ => false,
            };
            if !ok {
                return Err(refuse(BAD_COLOR));
            }
        },
        None => {},
    }
    if not_bool_at(v, "collapsed") || not_bool_at(v, "active") || not_bool_at(v, "new_window") {
        return Err(refuse(NOT_BOOLEAN));
    }
    if str_eq(method, "open_tab") {
        let url = match nonblank(v, "url") {
            Some(u) => u,
            None => return Err(refuse(URL_NEEDED)),
        };
        let u = chars_of(url);
        if !(begins_str(&u, "http://") || begins_str(&u, "https://")) {
            return Err(refuse(URL_NEEDED));
        }
        let has_group = get_field(v, "group_id").is_some();
        if get_field(v, "session_name").is_some() && has_group {
            return Err(refuse(NAME_OR_GROUP));
        }
        let new_window = match get_field(v, "new_window") {
            Some(JsonValue::Bool(b)) => *b,
            _ => false,
        };
        if new_window && has_group {
            return Err(refuse(WINDOW_OR_GROUP));
        }
        if has_group && !valid_id_at(v, "group_id") {
            return Err(refuse(INVALID_GROUP));
        }
    }
    Ok(())
}

/// Checks a tab command's parameters (see `tab_params_error`): `Ok` when they pass,
/// else an invalid-input error naming the first rule they break.
pub fn validate_tab_management(method: &str, params: &JsonValue) -> (r: Result<(), VcuError>)
    ensures
        match tab_params_error(method@, *params) {
            None => r is Ok,
            Some(m) => r matches Err(e) && e.code == ErrorCode::InvalidInput && e.message@ == m,
        },
        (r matches Err(e) && e.message@ == BAD_COLOR@) ==> !(get(*params, "color"@) matches Some(JsonValue::Str(c))
            && (c@ == "grey"@ || c@ == "blue"@ || c@ == "red"@ || c@ == "yellow"@ || c@ == "green"@ || c@ == "pink"@
            || c@ == "purple"@ || c@ == "cyan"@ || c@ == "orange"@)),
{
    proof {
        lemma_group_colors_accepted(method@, *params);
        reveal_strlit("expected an object");
        reveal_strlit("tab_id must be a nonnegative integer string");
        reveal_strlit("group_id must be a nonnegative integer string");
        reveal_strlit("tab_ids must be a nonempty array of ID strings");
        reveal_strlit("title must be nonempty");
        reveal_strlit("group title must be nonempty");
        reveal_strlit("unsupported tab group color");
        reveal_strlit("collapsed and active must be booleans");
        reveal_strlit("http(s) url required");
        reveal_strlit("session_name and group_id are mutually exclusive");
        reveal_strlit("new_window and group_id are mutually exclusive");
        reveal_strlit("invalid group_id");
    }
    let is_obj = match params {
        JsonValue::Object(_) => true,
        _ => false,
    };
    if !is_obj {
        return Err(refuse(NOT_OBJECT));
    }
    if (str_eq(method, "select_tab") || str_eq(method, "close_tab")) && !valid_id_at(params, "tab_id") {
        return Err(refuse(BAD_TAB_ID));
    }
    if str_eq(method, "update_group") && !valid_id_at(params, "group_id") {
        return Err(refuse(BAD_GROUP_ID));
    }
    if (str_eq(method, "group_tabs") || str_eq(method, "ungroup_tabs")) && !tab_ids_at(params) {
        return Err(refuse(BAD_TAB_IDS));
    }
    later_check(method, params)
}

/// The text of an id: a string as it is, an integer in decimal; nothing for any other value.
pub open spec fn id_text(v: JsonValue) -> Option<Seq<char>> {
    match v {
        JsonValue::Str(s) => Some(s@),
        JsonValue::Number(JsonNumber::PosInt(n)) => Some(nat_decimal(n as nat)),
        JsonValue::Number(JsonNumber::NegInt(n)) => Some(decimal(n as int)),
        _ => None,
    }
}

/// The id under `key`, trimmed, when it is a string or an integer and not blank.
pub open spec fn trimmed_id(v: JsonValue, key: Seq<char>) -> Option<Seq<char>> {
    match get(v, key) {
        Some(x) => match id_text(x) {
            Some(t) => if trim(t).len() > 0 { Some(trim(t)) } else { None },
            None => None,
        },
        None => None,
    }
}

/// The ids of a list, trimmed, skipping values that are not ids and blank ones.
pub open spec fn ids_of(items: Seq<JsonValue>) -> Seq<Seq<char>>
    decreases items.len(),
{
    if items.len() == 0 {
        Seq::empty()
    } else {
        let rest = ids_of(items.drop_last());
        match id_text(items.last()) {
            Some(t) => if trim(t).len() > 0 { rest.push(trim(t)) } else { rest },
            None => rest,
        }
    }
}

fn id_text_of(v: &JsonValue) -> (r: Option<String>)
    ensures
        match (r, id_text(*v)) {
            (Some(a), Some(b)) => a@ == b,
            (None, None) => true,
            _ => false,
        },
{
    match v {
        JsonValue::Str(s) => Some(s.clone()),
        JsonValue::Number(JsonNumber::PosInt(n)) => Some(u64_string(*n)),
        JsonValue::Number(JsonNumber::NegInt(n)) => Some(string_of(&decimal_i64(*n))),
        _ => None,
    }
}

fn trimmed_id_at(v: &JsonValue, key: &str) -> (r: Option<String>)
    ensures
        match (r, trimmed_id(*v, key@)) {
            (Some(a), Some(b)) => a@ == b,
            (None, None) => true,
            _ => false,
        },
{
    match get_field(v, key) {
        Some(x) => match id_text_of(x) {
            Some(t) => {
                let tt = trim_str(t.as_str());
                if tt.unicode_len() > 0 {
                    Some(owned(tt))
                } else {
                    None
                }
            },
            None => None,
        },
        None => None,
    }
}

/// The `tab_id` parameter (see `trimmed_id`).
pub fn json_param_tab_id(params: &JsonValue) -> (r: Option<String>)
    ensures
        match (r, trimmed_id(*params, "tab_id"@)) {
            (Some(a), Some(b)) => a@ == b,
            (None, None) => true,
            _ => false,
        },
{
    trimmed_id_at(params, "tab_id")
}

/// The `group_id` of a listed group (see `trimmed_id`).
pub fn json_group_id(group: &JsonValue) -> (r: Option<String>)
    ensures
        match (r, trimmed_id(*group, "group_id"@)) {
            (Some(a), Some(b)) => a@ == b,
            (None, None) => true,
            _ => false,
        },
{
    trimmed_id_at(group, "group_id")
}

/// The `tab_id` of a listed tab as it stands (not trimmed), when not empty.
pub fn json_tab_id_value(tab: &JsonValue) -> (r: Option<String>)
    ensures
        match (r, get(*tab, "tab_id"@)) {
            (Some(a), Some(x)) => id_text(x) == Some(a@) && a@.len() > 0,
            (None, Some(x)) => match id_text(x) {
                Some(t) => t.len() == 0,
                None => true,
            },
            (Some(_), None) => false,
            (None, None) => true,
        },
{
    match get_field(tab, "tab_id") {
        Some(x) => match id_text_of(x) {
            Some(t) => if t.as_str().unicode_len() > 0 { Some(t) } else { None },
            None => None,
        },
        None => None,
    }
}

/// The `tab_ids` parameter: each string or integer id, trimmed, blank ones and other
/// values skipped; empty when there is no such list.
pub fn json_param_tab_ids(params: &JsonValue) -> (r: Vec<String>)
    ensures
        r@.map_values(|s: String| s@) == match get(*params, "tab_ids"@) {
            Some(JsonValue::Array(items)) => ids_of(items@),
            _ => Seq::empty(),
        },
{
    let mut out: Vec<String> = Vec::new();
    match get_field(params, "tab_ids") {
        Some(JsonValue::Array(items)) => {
            let mut i: usize = 0;
            while i < items.len()
                invariant
                    i <= items@.len(),
                    get(*params, "tab_ids"@) == Some(JsonValue::Array(*items)),
                    out@.map_values(|s: String| s@) == ids_of(items@.take(i as int)),
                decreases items.len() - i,
            {
                proof {
                    assert(items@.take(i + 1).drop_last() =~= items@.take(i as int));
                    assert(items@.take(i + 1).last() == items@[i as int]);
                }
                match id_text_of(&items[i]) {
                    Some(t) => {
                        let tt = trim_str(t.as_str());
                        if tt.unicode_len() > 0 {
                            let ghost before = out@;
                            out.push(owned(tt));
                            assert(out@.map_values(|s: String| s@) =~= before.map_values(|s: String| s@).push(tt@));
                        }
                    },
                    None => {},
                }
                i = i + 1;
            }
            assert(items@.take(i as int) =~= items@);
            out
        },
        _ => {
            assert(out@.map_values(|s: String| s@) =~= Seq::<Seq<char>>::empty());
            out
        },
    }
}

/// The parameters without their `browser` entry (which only picks the browser).
pub fn strip_browser_param(params: JsonValue) -> (r: JsonValue)
    ensures
        match params {
            JsonValue::Object(fields) => r matches JsonValue::Object(kept) && match first_where(
                fields@,
                |f: (String, JsonValue)| f.0@ == "browser"@,
            ) {
                Some(i) => kept@ == fields@.remove(i),
                None => kept@ == fields@,
            },
            _ => r == params,
        },
{
    match params {
        JsonValue::Object(fields) => {
            let ghost orig = fields@;
            let mut fields = fields;
            let mut i: usize = 0;
            while i < fields.len()
                invariant
                    i <= fields@.len(),
                    fields@ == orig,
                    params matches JsonValue::Object(f) && f@ == orig,
                    forall|k: int| 0 <= k < i ==> (#[trigger] fields@[k]).0@ != "browser"@,
                decreases fields.len() - i,
            {
                if str_eq(fields[i].0.as_str(), "browser") {
                    proof {
                        lemma_first_where(fields@, |f: (String, JsonValue)| f.0@ == "browser"@, i as int);
                    }
                    let _ = fields.remove(i);
                    return JsonValue::Object(fields);
                }
                i = i + 1;
            }
            proof {
                lemma_first_where_none(fields@, |f: (String, JsonValue)| f.0@ == "browser"@);
            }
            JsonValue::Object(fields)
        },
        other => other,
    }
}

} // verus!
