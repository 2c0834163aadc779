//! The request a vision call sends: the chat-completions endpoint under the model's
//! base URL, and a body that carries the prompt and the screenshot as a PNG data URL.
use vstd::prelude::*;
use crate::browser::{base64_encode, base64_standard_encoded};
use crate::browser::extension::{jstr, keys_of, lemma_get2, lemma_get3, lemma_get_first, obj2, obj3, str_at};
use crate::tab_params::{get, JsonNumber, JsonValue};
use crate::text::{cat, owned};

verus! {

broadcast use vstd::string::group_string_axioms;

pub const PNG_DATA_URL_HEAD: &'static str = "data:image/png;base64,";
pub const CHAT_COMPLETIONS_PATH: &'static str = "/chat/completions";
pub const VISION_MAX_TOKENS: u64 = 400;

/// The screenshot as the request carries it: a PNG data URL of its Base64 text.
pub fn vision_image_url(png: &[u8]) -> (r: String)
    ensures
        r@ == PNG_DATA_URL_HEAD@ + base64_standard_encoded(png@),
{
    cat(owned(PNG_DATA_URL_HEAD), base64_encode(png).as_str())
}

/// `s` without the `/` characters it ends with.
pub open spec fn strip_trailing_slashes(s: Seq<char>) -> Seq<char>
    decreases s.len(),
{
    if s.len() > 0 && s.last() == '/' {
        strip_trailing_slashes(s.drop_last())
    } else {
        s
    }
}

/// The endpoint a vision call posts to: the base URL without trailing slashes, then
/// `/chat/completions`.
pub fn vision_endpoint(base_url: &str) -> (r: String)
    ensures
        r@ == strip_trailing_slashes(base_url@) + CHAT_COMPLETIONS_PATH@,
{
    let v = crate::text::chars_of(base_url);
    let mut n: usize = v.len();
    assert(v@.take(n as int) =~= v@);
    while n > 0 && v[n - 1] == '/'
        invariant
            n <= v@.len(),
            strip_trailing_slashes(v@.take(n as int)) == strip_trailing_slashes(v@),
        decreases n,
    {
        proof {
            assert(v@.take(n as int).drop_last() =~= v@.take(n - 1));
        }
        n = n - 1;
    }
    let mut head: Vec<char> = Vec::new();
    let mut i: usize = 0;
    while i < n
        invariant
            n <= v@.len(),
            i <= n,
            head@ == v@.take(i as int),
        decreases n - i,
    {
        head.push(v[i]);
        proof {
            assert(v@.take(i + 1) =~= v@.take(i as int).push(v@[i as int]));
        }
        i = i + 1;
    }
    proof {
        assert(v@.take(n as int) =~= v@.take(n as int));
        assert(strip_trailing_slashes(v@.take(n as int)) == v@.take(n as int));
    }
    cat(crate::text::string_of(&head), CHAT_COMPLETIONS_PATH)
}

/// The text part of the message: the prompt.
pub open spec fn text_part_ok(p: JsonValue, prompt: Seq<char>) -> bool {
    keys_of(p) == seq!["type"@, "text"@] && str_at(p, "type"@, "text"@) && str_at(p, "text"@, prompt)
}

/// The image part of the message: the data URL under `image_url.url`.
pub open spec fn image_part_ok(p: JsonValue, url: Seq<char>) -> bool {
    keys_of(p) == seq!["type"@, "image_url"@] && str_at(p, "type"@, "image_url"@) && match get(p, "image_url"@) {
        Some(o) => keys_of(o) == seq!["url"@] && str_at(o, "url"@, url),
        None => false,
    }
}

/// The one user message: the prompt, then the image.
pub open spec fn message_ok(m: JsonValue, prompt: Seq<char>, url: Seq<char>) -> bool {
    keys_of(m) == seq!["role"@, "content"@] && str_at(m, "role"@, "user"@) && match get(m, "content"@) {
        Some(JsonValue::Array(parts)) => parts@.len() == 2 && text_part_ok(parts@[0], prompt) && image_part_ok(
            parts@[1],
            url,
        ),
        _ => false,
    }
}

/// The body of a vision call: the model, one user message with the prompt and the
/// image, and at most 400 tokens back.
pub open spec fn vision_body_ok(body: JsonValue, model: Seq<char>, prompt: Seq<char>, url: Seq<char>) -> bool {
    &&& keys_of(body) == seq!["model"@, "messages"@, "max_tokens"@]
    &&& str_at(body, "model"@, model)
    &&& get(body, "max_tokens"@) == Some(JsonValue::Number(JsonNumber::PosInt(VISION_MAX_TOKENS)))
    &&& match get(body, "messages"@) {
        Some(JsonValue::Array(ms)) => ms@.len() == 1 && message_ok(ms@[0], prompt, url),
        _ => false,
    }
}

/// A vision call: where it posts and what.
#[derive(Debug)]
pub struct VisionRequest {
    pub url: String,
    pub body: JsonValue,
}

fn obj1(k: &str, v: JsonValue) -> (o: JsonValue)
    ensures
        keys_of(o) == seq![k@],
        get(o, k@) == Some(v),
{
    let mut f: Vec<(String, JsonValue)> = Vec::new();
    f.push((owned(k), v));
    let o = JsonValue::Object(f);
    assert(keys_of(o) =~= seq![k@]);
    proof {
        lemma_get_first(o, 0);
    }
    o
}

/// The request describing a screenshot with model `model` at `base_url` (see
/// `vision_endpoint` and `vision_body_ok`).
pub fn vision_request(base_url: &str, model: &str, png: &[u8], prompt: &str) -> (r: VisionRequest)
    ensures
        r.url@ == strip_trailing_slashes(base_url@) + CHAT_COMPLETIONS_PATH@,
        vision_body_ok(r.body, model@, prompt@, PNG_DATA_URL_HEAD@ + base64_standard_encoded(png@)),
{
    proof {
        reveal_strlit("type");
        reveal_strlit("text");
        reveal_strlit("image_url");
        reveal_strlit("role");
        reveal_strlit("content");
        reveal_strlit("model");
        reveal_strlit("messages");
        reveal_strlit("max_tokens");
    }
    let image_url = vision_image_url(png);
    let text_part = obj2("type", jstr("text"), "text", jstr(prompt));
    proof {
        assert("type"@[1] != "text"@[1]);
        lemma_get2(text_part, "type"@, "text"@);
    }
    let url_obj = obj1("url", jstr(image_url.as_str()));
    let image_part = obj2("type", jstr("image_url"), "image_url", url_obj);
    proof {
        lemma_get2(image_part, "type"@, "image_url"@);
    }
    let mut parts: Vec<JsonValue> = Vec::new();
    parts.push(text_part);
    parts.push(image_part);
    let message = obj2("role", jstr("user"), "content", JsonValue::Array(parts));
    proof {
        assert("role"@.len() != "content"@.len());
        lemma_get2(message, "role"@, "content"@);
    }
    let mut messages: Vec<JsonValue> = Vec::new();
    messages.push(message);
    let body = obj3(
        "model",
        jstr(model),
        "messages",
        JsonValue::Array(messages),
        "max_tokens",
        JsonValue::Number(JsonNumber::PosInt(VISION_MAX_TOKENS)),
    );
    proof {
        assert("model"@.len() != "messages"@.len() && "model"@.len() != "max_tokens"@.len());
        assert("messages"@.len() != "max_tokens"@.len());
        lemma_get3(body, "model"@, "messages"@, "max_tokens"@);
    }
    VisionRequest { url: vision_endpoint(base_url), body }
}

} // verus!
