use vstd::prelude::*;
use vstd::string::StringSliceAdditionalSpecFns;
use vstd::utf8::{encode_utf8, encode_scalar, valid_utf8, decode_utf8};
use crate::azuqua::digest::{
    sha256_digest, lower_hex, sha256_new, sha256_input, sha256_input_str, sha256_result_str,
    MAX_HASHED_BYTES,
};
use crate::utils::{now_utc_iso8601, is_utc_text, is_clock_reading};
use crate::json_tree::{
    Json, json_text, stringify_json, json_parsed, json_parse_error_text, parse_json,
    has_long_fraction_spec,
};
use crate::error::{Error, ErrorKind};

verus! {

/// The HTTP verb of an invocation.
pub const POST_VERB: &'static str = "POST";
/// The header that carries the time of an invocation.
pub const TIMESTAMP_HEADER: &'static str = "x-api-timestamp";
/// The header that carries the signature of an invocation.
pub const SIG_HEADER: &'static str = "x-api-hash";
/// The header that carries the access key of an invocation.
pub const KEY_HEADER: &'static str = "x-api-accessKey";
/// The content type of an invocation's body.
pub const JSON_CONTENT_TYPE: &'static str = "application/json";

/// The address that invokes the flo with the given alias.
pub open spec fn invoke_route(alias: Seq<char>) -> Seq<char> {
    "https://api.azuqua.com/flo/"@ + alias + "/invoke"@
}

/// The address that invokes the flo with the given alias.
pub fn flo_invoke_route(alias: &str) -> (route: String)
    ensures
        route@ == invoke_route(alias@),
{
    String::from_str("https://api.azuqua.com/flo/").concat(alias).concat("/invoke")
}

/// The bytes whose digest signs a request: `POST:<path>:<timestamp>`.
pub open spec fn signed_bytes(path: Seq<char>, timestamp: Seq<char>) -> Seq<u8> {
    encode_utf8("POST"@) + seq![58u8] + encode_utf8(path) + seq![58u8] + encode_utf8(timestamp)
}

/// The signature of a request: the lower-case hexadecimal SHA-256 digest of
/// `POST:<path>:<timestamp>`.
pub open spec fn signature_of(path: Seq<char>, timestamp: Seq<char>) -> Seq<char> {
    lower_hex(sha256_digest(signed_bytes(path, timestamp)))
}

/// Signs a request. The secret and the payload take no part in the signature.
pub fn sign(secret: &str, path: &str, timestamp: &str, payload: &[u8]) -> (sig: String)
    requires
        path.spec_bytes().len() + timestamp.spec_bytes().len() + 6 <= MAX_HASHED_BYTES,
    ensures
        sig@ == signature_of(path@, timestamp@),
        sig@.len() == 64,
{
    let colon: [u8; 1] = [58u8];
    let mut hasher = sha256_new();
    proof {
        reveal_strlit("POST");
        vstd::utf8::is_ascii_chars_encode_utf8("POST"@);
    }
    sha256_input_str(&mut hasher, POST_VERB);
    sha256_input(&mut hasher, &colon);
    sha256_input_str(&mut hasher, path);
    sha256_input(&mut hasher, &colon);
    sha256_input_str(&mut hasher, timestamp);
    let sig = sha256_result_str(&mut hasher);
    assert(colon@ =~= seq![58u8]);
    sig
}

proof fn lemma_encode_utf8_len(s: Seq<char>)
    ensures
        encode_utf8(s).len() <= 4 * s.len(),
    decreases s.len(),
{
    if s.len() > 0 {
        assert(encode_scalar(s[0] as u32).len() <= 4);
        lemma_encode_utf8_len(s.drop_first());
    }
}

/// The headers of an invocation: the raw headers, in the order they are set,
/// the length of the body (`Content-Length`) and its type (`Content-Type`).
pub struct ApiHeaders {
    pub raw: Vec<(String, String)>,
    pub content_length: usize,
    pub content_type: String,
}

/// The headers of an invocation signed with `sig` at `timestamp` for `key`,
/// with a body of `length` bytes.
pub open spec fn headers_are(h: ApiHeaders, timestamp: Seq<char>, sig: Seq<char>, key: Seq<char>, length: int) -> bool {
    &&& h.raw@.len() == 3
    &&& h.raw@[0].0@ == TIMESTAMP_HEADER@ && h.raw@[0].1@ == timestamp
    &&& h.raw@[1].0@ == SIG_HEADER@ && h.raw@[1].1@ == sig
    &&& h.raw@[2].0@ == KEY_HEADER@ && h.raw@[2].1@ == key
    &&& h.content_length == length
    &&& h.content_type@ == JSON_CONTENT_TYPE@
}

/// The headers of an invocation: its time, signature and access key, the
/// length of its body, and the JSON content type.
pub fn add_headers(timestamp: &str, sig: &str, key: &str, payload: &[u8]) -> (h: ApiHeaders)
    ensures
        headers_are(h, timestamp@, sig@, key@, payload@.len() as int),
{
    let mut raw: Vec<(String, String)> = Vec::new();
    raw.push((String::from_str(TIMESTAMP_HEADER), String::from_str(timestamp)));
    raw.push((String::from_str(SIG_HEADER), String::from_str(sig)));
    raw.push((String::from_str(KEY_HEADER), String::from_str(key)));
    ApiHeaders { raw, content_length: payload.len(), content_type: String::from_str(JSON_CONTENT_TYPE) }
}

/// A request that invokes a flo: a `POST` of the body to the address, with
/// the headers.
pub struct InvokeRequest {
    pub method: String,
    pub uri: String,
    pub headers: ApiHeaders,
    pub body: String,
}

/// `r` invokes the flo `alias` with the JSON text `payload`, for `key`, at `now`.
pub open spec fn is_invoke_request(r: InvokeRequest, alias: Seq<char>, key: Seq<char>, payload: Seq<char>, now: Seq<char>) -> bool {
    &&& r.method@ == POST_VERB@
    &&& r.uri@ == invoke_route(alias)
    &&& r.body@ == payload
    &&& headers_are(r.headers, now, signature_of(invoke_route(alias), now), key, encode_utf8(payload).len() as int)
}

/// What `<hyper::Uri as FromStr>::from_str` makes of a text: `None` where it
/// accepts it as an address, else the `Debug` text of its error.
pub uninterp spec fn uri_parse_error(text: Seq<char>) -> Option<Seq<char>>;

/// `<hyper::Uri as FromStr>::from_str`, telling only whether the text is an
/// address and, where it is not, the `Debug` text of the error. Claimed: the
/// outcome depends on the text alone (`uri_parse_error`).
#[verifier::external_body]
fn check_uri(text: &str) -> (r: Result<(), String>)
    ensures
        match r {
            Ok(()) => uri_parse_error(text@) is None,
            Err(e) => uri_parse_error(text@) == Some(e@),
        },
{
    match text.parse::<hyper::Uri>() {
        Ok(_) => Ok(()),
        Err(e) => Err(format!("{:?}", e)),
    }
}

/// The outcome of invoking the flo `alias`: an error of Twitch kind carrying
/// the address parser's text where the flo's address is no valid address,
/// else a request that meets `ok`.
pub open spec fn invoke_outcome(r: Result<InvokeRequest, Error>, alias: Seq<char>, ok: spec_fn(InvokeRequest) -> bool) -> bool {
    match r {
        Ok(req) => uri_parse_error(invoke_route(alias)) is None && ok(req),
        Err(e) => uri_parse_error(invoke_route(alias)) matches Some(t) && e@ == (ErrorKind::TwitchError, t),
    }
}

/// The request that invokes the flo `alias` with the JSON text `payload`,
/// signed at the time `now`; an error where the flo's address is no valid
/// address, before anything is signed.
pub fn make_invoke_request_at(alias: &str, key: &str, secret: &str, payload: String, now: String) -> (r: Result<InvokeRequest, Error>)
    requires
        4 * (alias@.len() + 34) + encode_utf8(now@).len() + 6 <= MAX_HASHED_BYTES,
    ensures
        invoke_outcome(r, alias@, |req: InvokeRequest| is_invoke_request(req, alias@, key@, payload@, now@)),
{
    let uri = flo_invoke_route(alias);
    if let Err(e) = check_uri(uri.as_str()) {
        return Err(Error::new(ErrorKind::TwitchError, e));
    }
    proof {
        reveal_strlit("https://api.azuqua.com/flo/");
        reveal_strlit("/invoke");
        lemma_encode_utf8_len(uri@);
    }
    let sig = sign(secret, uri.as_str(), now.as_str(), payload.as_str().as_bytes());
    let headers = add_headers(now.as_str(), sig.as_str(), key, payload.as_str().as_bytes());
    Ok(InvokeRequest { method: String::from_str(POST_VERB), uri, headers, body: payload })
}

/// The request that invokes the flo `alias` with the JSON document
/// `payload`, stamped and signed with the current time (a reading of the
/// clock taken during the call); an error where the flo's address
/// is no valid address, before anything is signed.
pub fn make_invoke_request(alias: &str, key: &str, secret: &str, payload: &Json) -> (r: Result<InvokeRequest, Error>)
    requires
        4 * (alias@.len() + 34) + 39 <= MAX_HASHED_BYTES,
    ensures
        invoke_outcome(r, alias@, |req: InvokeRequest| exists|now: String| #[trigger] is_clock_reading(now) && is_utc_text(now@)
            && is_invoke_request(req, alias@, key@, json_text(*payload), now@)),
{
    let uri = flo_invoke_route(alias);
    if let Err(e) = check_uri(uri.as_str()) {
        return Err(Error::new(ErrorKind::TwitchError, e));
    }
    let text = stringify_json(payload);
    let now = now_utc_iso8601();
    let ghost reading = now;
    assert(is_clock_reading(reading));
    proof {
        vstd::utf8::is_ascii_chars_encode_utf8(now@);
    }
    make_invoke_request_at(alias, key, secret, text, now)
}

proof fn lemma_encode_utf8_append(a: Seq<char>, b: Seq<char>)
    ensures
        encode_utf8(a + b) == encode_utf8(a) + encode_utf8(b),
    decreases a.len(),
{
    if a.len() == 0 {
        assert(a + b =~= b);
        assert(encode_utf8(a) =~= Seq::<u8>::empty());
        assert(encode_utf8(a) + encode_utf8(b) =~= encode_utf8(b));
    } else {
        assert((a + b).drop_first() =~= a.drop_first() + b);
        lemma_encode_utf8_append(a.drop_first(), b);
        assert(encode_utf8(a + b) =~= encode_scalar(a[0] as u32) + encode_utf8(a.drop_first() + b));
        assert(encode_utf8(a) + encode_utf8(b) =~= encode_scalar(a[0] as u32) + (encode_utf8(a.drop_first()) + encode_utf8(b)));
    }
}

/// A request that invokes a flo, stamped with a reading of the clock: it is a
/// `POST` of the JSON text to `https://api.azuqua.com/flo/<alias>/invoke`;
/// its `x-api-timestamp` header is that reading, an ISO 8601 time in UTC; its
/// `x-api-hash` header is the lower-case hexadecimal SHA-256 digest of the
/// UTF-8 text `POST:<its own address>:<its own timestamp header>`; its
/// `x-api-accessKey` header is the key; it declares the body's length in
/// bytes and its JSON content type.
pub proof fn law_invoke_request_signed_with_its_clock_reading(
    req: InvokeRequest,
    alias: Seq<char>,
    key: Seq<char>,
    payload: Seq<char>,
    now: String,
)
    requires
        is_clock_reading(now),
        is_invoke_request(req, alias, key, payload, now@),
    ensures
        req.method@ == "POST"@,
        req.uri@ == "https://api.azuqua.com/flo/"@ + alias + "/invoke"@,
        req.body@ == payload,
        req.headers.raw@.len() == 3,
        req.headers.raw@[0].0@ == "x-api-timestamp"@,
        req.headers.raw@[0].1@ == now@,
        is_utc_text(req.headers.raw@[0].1@),
        req.headers.raw@[1].0@ == "x-api-hash"@,
        req.headers.raw@[1].1@ == lower_hex(sha256_digest(encode_utf8("POST:"@ + req.uri@ + ":"@ + req.headers.raw@[0].1@))),
        req.headers.raw@[2].0@ == "x-api-accessKey"@,
        req.headers.raw@[2].1@ == key,
        req.headers.content_length == encode_utf8(payload).len(),
        req.headers.content_type@ == "application/json"@,
{
    reveal_strlit("POST");
    reveal_strlit("POST:");
    reveal_strlit(":");
    let uri = req.uri@;
    let ts = now@;
    assert("POST:"@ =~= "POST"@ + ":"@);
    vstd::utf8::is_ascii_chars_encode_utf8(":"@);
    assert(encode_utf8(":"@)[0] == 58u8);
    assert(encode_utf8(":"@) =~= seq![58u8]);
    assert("POST:"@ + uri + ":"@ + ts =~= "POST"@ + (":"@ + (uri + (":"@ + ts))));
    lemma_encode_utf8_append(":"@, ts);
    lemma_encode_utf8_append(uri, ":"@ + ts);
    lemma_encode_utf8_append(":"@, uri + (":"@ + ts));
    lemma_encode_utf8_append("POST"@, ":"@ + (uri + (":"@ + ts)));
    assert(encode_utf8("POST:"@ + uri + ":"@ + ts) =~= signed_bytes(uri, ts));
}

/// The `Debug` text of the error `std::str::from_utf8` gives for bytes that
/// are no UTF-8.
pub uninterp spec fn utf8_error_text(bytes: Seq<u8>) -> Seq<char>;

/// `std::str::from_utf8`: the text the bytes encode, or the `Debug` text of
/// the error. Claimed, as std documents: it fails exactly where the bytes are
/// no valid UTF-8; the error's text depends on the bytes alone.
#[verifier::external_body]
fn utf8_text(bytes: &[u8]) -> (r: Result<&str, String>)
    ensures
        match r {
            Ok(text) => valid_utf8(bytes@) && text.spec_bytes() == bytes@,
            Err(e) => !valid_utf8(bytes@) && e@ == utf8_error_text(bytes@),
        },
{
    match std::str::from_utf8(bytes) {
        Ok(text) => Ok(text),
        Err(e) => Err(format!("{:?}", e)),
    }
}

/// The JSON document an invocation answered with: the body read as UTF-8
/// text, then as JSON; either failure is an unknown error carrying the
/// failure's debug text.
pub fn read_response(body: &[u8]) -> (r: Result<Json, Error>)
    requires
        valid_utf8(body@) ==> !has_long_fraction_spec(decode_utf8(body@)),
    ensures
        match r {
            Ok(doc) => valid_utf8(body@) && json_parsed(decode_utf8(body@)) == Some(doc),
            Err(e) => e@.0 == ErrorKind::Unknown && if valid_utf8(body@) {
                json_parsed(decode_utf8(body@)) is None && e@.1 == json_parse_error_text(decode_utf8(body@))
            } else {
                e@.1 == utf8_error_text(body@)
            },
        },
{
    let text = match utf8_text(body) {
        Ok(t) => t,
        Err(e) => {
            return Err(Error::new(ErrorKind::Unknown, e));
        },
    };
    proof {
        vstd::utf8::encode_utf8_decode_utf8(text@);
    }
    match parse_json(text) {
        Ok(doc) => Ok(doc),
        Err(e) => Err(Error::new(ErrorKind::Unknown, e)),
    }
}

} // verus!
