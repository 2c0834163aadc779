//! The latest-capture files a host vision model reads: which app ids may publish one,
//! and how the address a browser shows is written into the capture's JSON sidecar.
use vstd::prelude::*;
use crate::login_state::{first_where, lemma_first_where, lemma_first_where_none};
use crate::text::{begins, begins_str, has_str, lower, lower_of, seq_has, trim, trim_vec, chars_of, string_of};

verus! {

broadcast use vstd::string::group_string_axioms;

/// A login-state capture is published for Edge and Chrome windows only (ASCII case
/// ignored).
pub open spec fn login_latest_allowed_of(id: Seq<char>) -> bool {
    seq_has(lower(id), "edge"@) || seq_has(lower(id), "chrome"@)
}

pub fn login_latest_allowed(id: &str) -> (r: bool)
    ensures
        r == login_latest_allowed_of(id@),
{
    let l = lower_of(id);
    has_str(&l, "edge") || has_str(&l, "chrome")
}

/// A messenger capture is published for Feishu and Lark windows only: by either name
/// (ASCII case ignored) or by 飞书 in the id as it stands.
pub open spec fn feishu_latest_allowed_of(id: Seq<char>) -> bool {
    seq_has(lower(id), "feishu"@) || seq_has(lower(id), "lark"@) || seq_has(id, "飞书"@)
}

pub fn feishu_latest_allowed(id: &str) -> (r: bool)
    ensures
        r == feishu_latest_allowed_of(id@),
{
    let l = lower_of(id);
    has_str(&l, "feishu") || has_str(&l, "lark") || has_str(&chars_of(id), "飞书")
}

/// A parsed JSON document as the sidecar merge reads it: not JSON, `null`, an object
/// (each field's value kept as its compact JSON text), or any other value.
#[derive(Debug)]
pub enum JsonTop {
    NotJson,
    Null,
    Object(Vec<(String, String)>),
    Other,
}

pub ghost enum JsonTopV {
    NotJson,
    Null,
    Object(Seq<(Seq<char>, Seq<char>)>),
    Other,
}

pub open spec fn pairs_view(f: Seq<(String, String)>) -> Seq<(Seq<char>, Seq<char>)> {
    f.map_values(|e: (String, String)| (e.0@, e.1@))
}

pub open spec fn json_top_view(t: JsonTop) -> JsonTopV {
    match t {
        JsonTop::NotJson => JsonTopV::NotJson,
        JsonTop::Null => JsonTopV::Null,
        JsonTop::Object(f) => JsonTopV::Object(pairs_view(f@)),
        JsonTop::Other => JsonTopV::Other,
    }
}

/// What `serde_json::from_slice::<Value>` makes of `b`, seen as a `JsonTop`.
pub uninterp spec fn json_top_of(b: Seq<u8>) -> JsonTopV;

/// `serde_json::from_slice` into a `Value`, told apart by its kind; an object's fields
/// come with each value printed back as compact JSON text (`Value`'s `Display`).
#[verifier::external_body]
fn parse_json_top(b: &[u8]) -> (r: JsonTop)
    ensures
        json_top_view(r) == json_top_of(b@),
{
    match serde_json::from_slice::<serde_json::Value>(b) {
        Err(_) => JsonTop::NotJson,
        Ok(serde_json::Value::Null) => JsonTop::Null,
        Ok(serde_json::Value::Object(m)) => JsonTop::Object(m.iter().map(|(k, v)| (k.clone(), v.to_string())).collect()),
        Ok(_) => JsonTop::Other,
    }
}

/// The JSON text of a string value, as `serde_json` prints it (quoted and escaped).
pub uninterp spec fn json_string_text(s: Seq<char>) -> Seq<char>;

/// `serde_json::Value::String(s)` printed with `Display`.
#[verifier::external_body]
fn json_quote(s: &str) -> (r: String)
    ensures
        r@ == json_string_text(s@),
{
    serde_json::Value::String(s.to_string()).to_string()
}

/// What `serde_json::to_vec_pretty` prints for the object whose fields are these keys
/// with these values (each given as JSON text).
pub uninterp spec fn json_pretty_of(fields: Seq<(Seq<char>, Seq<char>)>) -> Seq<u8>;

/// `serde_json::to_vec_pretty` of the object built from the fields, each value text read
/// back with `serde_json::from_str`.
#[verifier::external_body]
fn json_pretty_object(fields: &[(String, String)]) -> (r: Vec<u8>)
    ensures
        r@ == json_pretty_of(pairs_view(fields@)),
{
    let m: serde_json::Map<String, serde_json::Value> = fields
        .iter()
        .map(|(k, v)| (k.clone(), serde_json::from_str(v).unwrap_or(serde_json::Value::Null)))
        .collect();
    serde_json::to_vec_pretty(&serde_json::Value::Object(m)).unwrap_or_default()
}

/// The fields with `key` set to `val`: its value replaced where it stands, else added
/// at the end.
pub open spec fn with_field(
    fields: Seq<(Seq<char>, Seq<char>)>,
    key: Seq<char>,
    val: Seq<char>,
) -> Seq<(Seq<char>, Seq<char>)> {
    match first_where(fields, |e: (Seq<char>, Seq<char>)| e.0 == key) {
        Some(i) => fields.update(i, (key, val)),
        None => fields.push((key, val)),
    }
}

/// An address merged into a sidecar: trimmed, and only an `http://` or `https://` one.
pub open spec fn web_address(url: Seq<char>) -> bool {
    begins(trim(url), "http://"@) || begins(trim(url), "https://"@)
}

/// The sidecar's fields with `page_url` set to the trimmed address: a `null` document
/// becomes an object holding just that field; a document that is not JSON takes no
/// address, and neither does an address that is not a web address.
pub open spec fn sidecar_fields_with_url(top: JsonTopV, url: Seq<char>) -> Option<Seq<(Seq<char>, Seq<char>)>> {
    if !web_address(url) {
        None
    } else {
        match top {
            JsonTopV::NotJson => None,
            JsonTopV::Null => Some(seq![("page_url"@, json_string_text(trim(url)))]),
            JsonTopV::Object(f) => Some(with_field(f, "page_url"@, json_string_text(trim(url)))),
            JsonTopV::Other => None,
        }
    }
}

fn web_address_exec(url: &str) -> (r: bool)
    ensures
        r == web_address(url@),
{
    let t = trim_vec(&chars_of(url));
    begins_str(&t, "http://") || begins_str(&t, "https://")
}

/// The fields of a parsed sidecar with `page_url` set (see `sidecar_fields_with_url`).
/// A document that is JSON but neither an object nor `null` is left out: setting a
/// field on it panics.
pub fn sidecar_with_page_url(top: JsonTop, url: &str) -> (r: Option<Vec<(String, String)>>)
    requires
        web_address(url@) ==> !(json_top_view(top) is Other),
    ensures
        match (r, sidecar_fields_with_url(json_top_view(top), url@)) {
            (Some(f), Some(g)) => pairs_view(f@) == g,
            (None, None) => true,
            _ => false,
        },
{
    proof {
        reveal_strlit("page_url");
    }
    if !web_address_exec(url) {
        return None;
    }
    let t = trim_vec(&chars_of(url));
    let value = json_quote(string_of(&t).as_str());
    match top {
        JsonTop::NotJson => None,
        JsonTop::Other => None,
        JsonTop::Null => {
            let mut f: Vec<(String, String)> = Vec::new();
            f.push((crate::text::owned("page_url"), value));
            proof {
                assert(pairs_view(f@) =~= seq![("page_url"@, json_string_text(trim(url@)))]);
            }
            Some(f)
        },
        JsonTop::Object(fields) => {
            let ghost whole = json_top_view(top);
            let mut f = fields;
            let ghost orig = pairs_view(f@);
            assert(whole == JsonTopV::Object(orig));
            let ghost p = |e: (Seq<char>, Seq<char>)| e.0 == "page_url"@;
            let mut i: usize = 0;
            while i < f.len()
                invariant
                    i <= f@.len(),
                    orig == pairs_view(f@),
                    whole == JsonTopV::Object(orig),
                    whole == json_top_view(top),
                    web_address(url@),
                    value@ == json_string_text(trim(url@)),
                    p == (|e: (Seq<char>, Seq<char>)| e.0 == "page_url"@),
                    forall|j: int| 0 <= j < i ==> !p(#[trigger] orig[j]),
                decreases f.len() - i,
            {
                if crate::text::str_eq(f[i].0.as_str(), "page_url") {
                    proof {
                        lemma_first_where(orig, p, i as int);
                    }
                    let key = crate::text::owned("page_url");
                    f.set(i, (key, value));
                    proof {
                        assert(pairs_view(f@) =~= orig.update(i as int, ("page_url"@, json_string_text(trim(url@)))));
                    }
                    return Some(f);
                }
                i = i + 1;
            }
            proof {
                lemma_first_where_none(orig, p);
            }
            f.push((crate::text::owned("page_url"), value));
            proof {
                assert(pairs_view(f@) =~= orig.push(("page_url"@, json_string_text(trim(url@)))));
            }
            Some(f)
        },
    }
}

/// The sidecar bytes with `page_url` set to the trimmed address, pretty-printed as
/// `serde_json` prints it; `None` when the address is not a web address, the sidecar is
/// not JSON, or it is JSON other than an object or `null` (which cannot take a field).
pub fn login_sidecar_with_page_url(sidecar: &[u8], url: &str) -> (r: Option<Vec<u8>>)
    ensures
        match sidecar_fields_with_url(json_top_of(sidecar@), url@) {
            Some(g) => r matches Some(b) && b@ == json_pretty_of(g),
            None => r is None,
        },
{
    if !web_address_exec(url) {
        return None;
    }
    let top = parse_json_top(sidecar);
    if let JsonTop::Other = top {
        return None;
    }
    match sidecar_with_page_url(top, url) {
        Some(f) => Some(json_pretty_object(f.as_slice())),
        None => None,
    }
}

} // verus!
