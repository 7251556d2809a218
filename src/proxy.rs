//! The proxy's steps from an input line to what is sent and what is written
//! back: decode, compose, plan the call, and report failures.

use vstd::prelude::*;
use vstd::string::*;
use crate::compose::{compose, url_join, same_authority, ComposeError, Origin};
use crate::envelope::{decode_envelope, lookup, field_name, is_token_char, pairs_view, DecodeError, Field, RequestEnvelope,
    DEFAULT_TIMEOUT};
use crate::error::{error_message, ProxyError};
use crate::json::{json_parse, json_text, json_view, lemma_object_view, parse_json, write_json, JsonValue, JsonView};

verus! {

/// Decodes one input line into a request envelope.
pub fn decode_request(line: &str) -> (r: Result<RequestEnvelope, ProxyError>)
    ensures
        match json_parse(line@) {
            None => r == Err::<RequestEnvelope, ProxyError>(ProxyError::Decode(DecodeError::NotJson)),
            Some(j) => match decode_envelope(j) {
                Ok(e) => r matches Ok(x) && x@ == e,
                Err(d) => r == Err::<RequestEnvelope, ProxyError>(ProxyError::Decode(d)),
            },
        },
{
    match parse_json(line) {
        None => Err(ProxyError::Decode(DecodeError::NotJson)),
        Some(j) => match RequestEnvelope::from_json(&j) {
            Ok(e) => Ok(e),
            Err(d) => Err(ProxyError::Decode(d)),
        },
    }
}

/// An envelope without a `timeout` member decodes to the default timeout.
pub proof fn lemma_missing_timeout_defaults(j: JsonValue)
    requires
        j matches JsonValue::Object(m) && lookup(m@, field_name(Field::Timeout)) is None,
        decode_envelope(j) is Ok,
    ensures
        decode_envelope(j)->Ok_0.timeout == DEFAULT_TIMEOUT,
{
}

/// A valid header name: one to 65535 token characters.
pub open spec fn is_header_name(s: Seq<char>) -> bool {
    1 <= s.len() <= 65535 && forall|i: int| 0 <= i < s.len() ==> is_token_char(#[trigger] s[i])
}

/// A valid header value: no control character but the tab.
pub open spec fn is_header_value(s: Seq<char>) -> bool {
    forall|i: int| 0 <= i < s.len() ==> (' ' <= #[trigger] s[i] && s[i] != '\x7f') || s[i] == '\t'
}

pub open spec fn is_header_pair(p: (Seq<char>, Seq<char>)) -> bool {
    is_header_name(p.0) && is_header_value(p.1)
}

pub open spec fn headers_valid(h: Seq<(Seq<char>, Seq<char>)>) -> bool {
    forall|i: int| 0 <= i < h.len() ==> #[trigger] is_header_pair(h[i])
}

/// Relies on reqwest::header::HeaderName::from_bytes, which accepts one to
/// 65535 token characters, in either case.
#[verifier::external_body]
fn header_name_valid(s: &str) -> (r: bool)
    ensures
        r == is_header_name(s@),
{
    reqwest::header::HeaderName::from_bytes(s.as_bytes()).is_ok()
}

/// Relies on reqwest::header::HeaderValue::from_str, which refuses exactly the
/// bytes below 32 but the tab, and 127.
#[verifier::external_body]
fn header_value_valid(s: &str) -> (r: bool)
    ensures
        r == is_header_value(s@),
{
    reqwest::header::HeaderValue::from_str(s).is_ok()
}

/// Whether every header can be sent as it is.
fn check_headers(h: &Vec<(String, String)>) -> (r: bool)
    ensures
        r == headers_valid(pairs_view(h@)),
{
    let mut i: usize = 0;
    while i < h.len()
        invariant
            0 <= i <= h.len(),
            forall|k: int| 0 <= k < i ==> #[trigger] is_header_pair(pairs_view(h@)[k]),
        decreases h.len() - i,
    {
        assert(pairs_view(h@)[i as int] == (h@[i as int].0@, h@[i as int].1@));
        if !header_name_valid(h[i].0.as_str()) || !header_value_valid(h[i].1.as_str()) {
            assert(!is_header_pair(pairs_view(h@)[i as int]));
            return false;
        }
        i = i + 1;
    }
    true
}

/// One outbound HTTP call, as the transport is to make it.
#[derive(Debug)]
pub struct DispatchPlan {
    pub method: String,
    pub url: String,
    pub headers: Vec<(String, String)>,
    pub body: Option<String>,
    pub timeout_secs: u64,
    pub stream: bool,
}

/// Maps an envelope onto the call to make: the composed URL, and the
/// envelope's method, headers, body, timeout and streaming intent unchanged.
/// Fails where the URL cannot be composed, then where a header is invalid.
pub fn plan(origin: &Origin, req: RequestEnvelope) -> (r: Result<DispatchPlan, ProxyError>)
    ensures
        match url_join(origin@.text, req.path_query@) {
            None => r == Err::<DispatchPlan, ProxyError>(ProxyError::Compose(ComposeError::Unresolvable)),
            Some(u) => if !same_authority(u, origin@) {
                r == Err::<DispatchPlan, ProxyError>(ProxyError::Compose(ComposeError::ForeignAuthority))
            } else if !headers_valid(pairs_view(req.headers@)) {
                r == Err::<DispatchPlan, ProxyError>(ProxyError::InvalidHeader)
            } else {
                r matches Ok(p) && p.url@ == u.text && p.method == req.method && p.headers == req.headers
                    && p.body == req.body && p.timeout_secs == req.timeout && p.stream == req.stream
            },
        },
{
    match compose(origin, req.path_query.as_str()) {
        Ok(u) => if !check_headers(&req.headers) {
            Err(ProxyError::InvalidHeader)
        } else {
            Ok(DispatchPlan {
            method: req.method,
            url: u.text,
            headers: req.headers,
            body: req.body,
            timeout_secs: req.timeout,
            stream: req.stream,
            })
        },
        Err(e) => Err(ProxyError::Compose(e)),
    }
}

/// The JSON form of a failure: an object whose one member `error` holds the message.
pub open spec fn error_json(message: Seq<char>) -> JsonView {
    JsonView::Object(seq![("error"@, JsonView::Str(message))])
}

/// The failure line for an error: an object whose one member `error` holds
/// the error's message.
pub fn error_line(e: &ProxyError) -> (r: String)
    ensures
        r@ == json_text(error_json(error_message(*e))),
{
    let mut object: Vec<(String, JsonValue)> = Vec::new();
    object.push((String::from_str("error"), JsonValue::Str(e.message())));
    let j = JsonValue::Object(object);
    proof {
        let expected = seq![("error"@, JsonView::Str(error_message(*e)))];
        assert forall|i: int| 0 <= i < expected.len() implies
            (object@[i].0@, json_view(object@[i].1)) == #[trigger] expected[i] by {
        }
        lemma_object_view(object, expected);
    }
    write_json(&j)
}

} // verus!
