//! The request envelope: one JSON object that names the HTTP call to make.

use vstd::prelude::*;
use vstd::string::*;
use crate::json::{JsonValue, JsonNumber};

verus! {

/// The timeout, in seconds, of an envelope that gives none.
pub const DEFAULT_TIMEOUT: u64 = 10;

/// The timeout used when an envelope has no `timeout` member.
pub fn default_timeout() -> (r: u64)
    ensures
        r == DEFAULT_TIMEOUT,
{
    DEFAULT_TIMEOUT
}

/// A member of the envelope.
#[derive(Clone, Copy, Debug, PartialEq, Eq, Structural)]
pub enum Field {
    Method,
    PathQuery,
    Stream,
    Headers,
    Body,
    Timeout,
}

/// Why a line is not a valid envelope.
#[derive(Clone, Copy, Debug, PartialEq, Eq, Structural)]
pub enum DecodeError {
    NotJson,
    NotObject,
    UnknownField,
    Missing(Field),
    WrongType(Field),
    InvalidMethod,
}

/// A decoded request envelope.
#[derive(Debug)]
pub struct RequestEnvelope {
    pub method: String,
    pub path_query: String,
    pub stream: bool,
    pub headers: Vec<(String, String)>,
    pub body: Option<String>,
    pub timeout: u64,
}

/// The mathematical content of a `RequestEnvelope`.
pub struct EnvelopeView {
    pub method: Seq<char>,
    pub path_query: Seq<char>,
    pub stream: bool,
    pub headers: Seq<(Seq<char>, Seq<char>)>,
    pub body: Option<Seq<char>>,
    pub timeout: u64,
}

pub open spec fn pairs_view(p: Seq<(String, String)>) -> Seq<(Seq<char>, Seq<char>)> {
    p.map_values(|x: (String, String)| (x.0@, x.1@))
}

pub open spec fn opt_view(o: Option<String>) -> Option<Seq<char>> {
    match o {
        Some(s) => Some(s@),
        None => None,
    }
}

impl View for RequestEnvelope {
    type V = EnvelopeView;

    open spec fn view(&self) -> EnvelopeView {
        EnvelopeView {
            method: self.method@,
            path_query: self.path_query@,
            stream: self.stream,
            headers: pairs_view(self.headers@),
            body: opt_view(self.body),
            timeout: self.timeout,
        }
    }
}

pub open spec fn field_name(f: Field) -> Seq<char> {
    match f {
        Field::Method => "method"@,
        Field::PathQuery => "path_query"@,
        Field::Stream => "stream"@,
        Field::Headers => "headers"@,
        Field::Body => "body"@,
        Field::Timeout => "timeout"@,
    }
}

pub open spec fn is_known_key(k: Seq<char>) -> bool {
    exists|f: Field| field_name(f) == k
}

/// The value of the last member named `key`, as a JSON object yields it.
pub open spec fn lookup(fields: Seq<(String, JsonValue)>, key: Seq<char>) -> Option<JsonValue>
    decreases fields.len(),
{
    if fields.len() == 0 {
        None
    } else if fields.last().0@ == key {
        Some(fields.last().1)
    } else {
        lookup(fields.drop_last(), key)
    }
}

/// The members of an object whose values are all strings, as pairs of text.
pub open spec fn string_members(fields: Seq<(String, JsonValue)>) -> Option<Seq<(Seq<char>, Seq<char>)>>
    decreases fields.len(),
{
    if fields.len() == 0 {
        Some(Seq::empty())
    } else {
        match (string_members(fields.drop_last()), fields.last().1) {
            (Some(acc), JsonValue::Str(s)) => Some(acc.push((fields.last().0@, s@))),
            _ => None,
        }
    }
}

/// A character that may stand in an HTTP token.
pub open spec fn is_token_char(c: char) -> bool {
    ('a' <= c && c <= 'z') || ('A' <= c && c <= 'Z') || ('0' <= c && c <= '9') || c == '!'
        || c == '#' || c == '$' || c == '%' || c == '&' || c == '\'' || c == '*' || c == '+'
        || c == '-' || c == '.' || c == '^' || c == '_' || c == '`' || c == '|' || c == '~'
}

/// A text that is a valid HTTP method: a non-empty token.
pub open spec fn is_method_token(s: Seq<char>) -> bool {
    s.len() > 0 && forall|i: int| 0 <= i < s.len() ==> is_token_char(#[trigger] s[i])
}

pub open spec fn text_member(fields: Seq<(String, JsonValue)>, f: Field) -> Result<Seq<char>, DecodeError> {
    match lookup(fields, field_name(f)) {
        None => Err(DecodeError::Missing(f)),
        Some(JsonValue::Str(s)) => Ok(s@),
        Some(_) => Err(DecodeError::WrongType(f)),
    }
}

pub open spec fn stream_member(fields: Seq<(String, JsonValue)>) -> Result<bool, DecodeError> {
    match lookup(fields, field_name(Field::Stream)) {
        None => Err(DecodeError::Missing(Field::Stream)),
        Some(JsonValue::Bool(b)) => Ok(b),
        Some(_) => Err(DecodeError::WrongType(Field::Stream)),
    }
}

pub open spec fn headers_member(fields: Seq<(String, JsonValue)>) -> Result<Seq<(Seq<char>, Seq<char>)>, DecodeError> {
    match lookup(fields, field_name(Field::Headers)) {
        None => Ok(Seq::empty()),
        Some(JsonValue::Object(m)) => match string_members(m@) {
            Some(h) => Ok(h),
            None => Err(DecodeError::WrongType(Field::Headers)),
        },
        Some(_) => Err(DecodeError::WrongType(Field::Headers)),
    }
}

pub open spec fn body_member(fields: Seq<(String, JsonValue)>) -> Result<Option<Seq<char>>, DecodeError> {
    match lookup(fields, field_name(Field::Body)) {
        None => Ok(None),
        Some(JsonValue::Null) => Ok(None),
        Some(JsonValue::Str(s)) => Ok(Some(s@)),
        Some(_) => Err(DecodeError::WrongType(Field::Body)),
    }
}

pub open spec fn timeout_member(fields: Seq<(String, JsonValue)>) -> Result<u64, DecodeError> {
    match lookup(fields, field_name(Field::Timeout)) {
        None => Ok(DEFAULT_TIMEOUT),
        Some(JsonValue::Number(JsonNumber::Unsigned(t))) => Ok(t),
        Some(_) => Err(DecodeError::WrongType(Field::Timeout)),
    }
}

/// The envelope that a JSON value describes, or the first thing wrong with it:
/// an unknown member, then the members in the order method, path_query,
/// stream, headers, body, timeout.
pub open spec fn decode_envelope(j: JsonValue) -> Result<EnvelopeView, DecodeError> {
    match j {
        JsonValue::Object(members) => decode_members(members@),
        _ => Err(DecodeError::NotObject),
    }
}

/// The envelope that the members of a JSON object describe.
pub open spec fn decode_members(fs: Seq<(String, JsonValue)>) -> Result<EnvelopeView, DecodeError> {
    if !(forall|i: int| 0 <= i < fs.len() ==> is_known_key(#[trigger] fs[i].0@)) {
        Err(DecodeError::UnknownField)
    } else {
        match text_member(fs, Field::Method) {
            Err(e) => Err(e),
            Ok(method) => if !is_method_token(method) {
                Err(DecodeError::InvalidMethod)
            } else {
                match text_member(fs, Field::PathQuery) {
                    Err(e) => Err(e),
                    Ok(path_query) => match stream_member(fs) {
                        Err(e) => Err(e),
                        Ok(stream) => match headers_member(fs) {
                            Err(e) => Err(e),
                            Ok(headers) => match body_member(fs) {
                                Err(e) => Err(e),
                                Ok(body) => match timeout_member(fs) {
                                    Err(e) => Err(e),
                                    Ok(timeout) => Ok(EnvelopeView { method, path_query, stream, headers, body, timeout }),
                                },
                            },
                        },
                    },
                }
            },
        }
    }
}

/// The member name of `f`.
fn key_of(f: Field) -> (r: String)
    ensures
        r@ == field_name(f),
{
    match f {
        Field::Method => String::from_str("method"),
        Field::PathQuery => String::from_str("path_query"),
        Field::Stream => String::from_str("stream"),
        Field::Headers => String::from_str("headers"),
        Field::Body => String::from_str("body"),
        Field::Timeout => String::from_str("timeout"),
    }
}

/// Whether `k` names a member of the envelope.
fn known_key(k: &String) -> (r: bool)
    ensures
        r == is_known_key(k@),
{
    let fields = [Field::Method, Field::PathQuery, Field::Stream, Field::Headers, Field::Body, Field::Timeout];
    let mut i: usize = 0;
    while i < 6
        invariant
            0 <= i <= 6,
            fields@ == seq![Field::Method, Field::PathQuery, Field::Stream, Field::Headers, Field::Body, Field::Timeout],
            forall|j: int| 0 <= j < i ==> field_name(#[trigger] fields@[j]) != k@,
        decreases 6 - i,
    {
        let name = key_of(fields[i]);
        if name == *k {
            return true;
        }
        i = i + 1;
    }
    proof {
        if is_known_key(k@) {
            let f = choose|f: Field| field_name(f) == k@;
            match f {
                Field::Method => assert(field_name(fields@[0]) == k@),
                Field::PathQuery => assert(field_name(fields@[1]) == k@),
                Field::Stream => assert(field_name(fields@[2]) == k@),
                Field::Headers => assert(field_name(fields@[3]) == k@),
                Field::Body => assert(field_name(fields@[4]) == k@),
                Field::Timeout => assert(field_name(fields@[5]) == k@),
            }
        }
    }
    false
}

/// The value of the last member of `fields` named `key`.
pub(crate) fn find_member<'a>(fields: &'a Vec<(String, JsonValue)>, key: &String) -> (r: Option<&'a JsonValue>)
    ensures
        match r {
            Some(v) => lookup(fields@, key@) == Some(*v),
            None => lookup(fields@, key@) is None,
        },
{
    let mut found: Option<&JsonValue> = None;
    let mut i: usize = 0;
    while i < fields.len()
        invariant
            0 <= i <= fields.len(),
            match found {
                Some(v) => lookup(fields@.subrange(0, i as int), key@) == Some(*v),
                None => lookup(fields@.subrange(0, i as int), key@) is None,
            },
        decreases fields.len() - i,
    {
        assert(fields@.subrange(0, i + 1).drop_last() == fields@.subrange(0, i as int));
        if fields[i].0 == *key {
            found = Some(&fields[i].1);
        }
        i = i + 1;
    }
    assert(fields@.subrange(0, fields.len() as int) == fields@);
    found
}

/// Relies on reqwest::Method::from_bytes, which accepts exactly the non-empty
/// texts made of HTTP token characters.
#[verifier::external_body]
fn method_is_valid(s: &str) -> (r: bool)
    ensures
        r == is_method_token(s@),
{
    reqwest::Method::from_bytes(s.as_bytes()).is_ok()
}

proof fn lemma_string_members_none_extends(fs: Seq<(String, JsonValue)>, n: int)
    requires
        0 <= n <= fs.len(),
        string_members(fs.subrange(0, n)) is None,
    ensures
        string_members(fs) is None,
    decreases fs.len(),
{
    if n == fs.len() {
        assert(fs.subrange(0, n) == fs);
    } else {
        assert(fs.drop_last().subrange(0, n) == fs.subrange(0, n));
        lemma_string_members_none_extends(fs.drop_last(), n);
    }
}

/// The members of an object as pairs of text, where every value is a string.
pub(crate) fn string_pairs(fields: &Vec<(String, JsonValue)>) -> (r: Option<Vec<(String, String)>>)
    ensures
        match r {
            Some(p) => string_members(fields@) == Some(pairs_view(p@)),
            None => string_members(fields@) is None,
        },
{
    let mut out: Vec<(String, String)> = Vec::new();
    let mut i: usize = 0;
    while i < fields.len()
        invariant
            0 <= i <= fields.len(),
            string_members(fields@.subrange(0, i as int)) == Some(pairs_view(out@)),
        decreases fields.len() - i,
    {
        let ghost before = out@;
        assert(fields@.subrange(0, i + 1).drop_last() == fields@.subrange(0, i as int));
        match &fields[i].1 {
            JsonValue::Str(v) => {
                out.push((fields[i].0.clone(), v.clone()));
                assert(pairs_view(out@) == pairs_view(before).push((fields@[i as int].0@, v@)));
            },
            _ => {
                proof {
                    lemma_string_members_none_extends(fields@, i + 1);
                }
                return None;
            },
        }
        i = i + 1;
    }
    assert(fields@.subrange(0, fields.len() as int) == fields@);
    Some(out)
}

fn text_of(fields: &Vec<(String, JsonValue)>, f: Field) -> (r: Result<String, DecodeError>)
    ensures
        match r {
            Ok(s) => text_member(fields@, f) == Ok::<Seq<char>, DecodeError>(s@),
            Err(e) => text_member(fields@, f) == Err::<Seq<char>, DecodeError>(e),
        },
{
    match find_member(fields, &key_of(f)) {
        None => Err(DecodeError::Missing(f)),
        Some(JsonValue::Str(s)) => Ok(s.clone()),
        Some(_) => Err(DecodeError::WrongType(f)),
    }
}

fn stream_of(fields: &Vec<(String, JsonValue)>) -> (r: Result<bool, DecodeError>)
    ensures
        r == stream_member(fields@),
{
    match find_member(fields, &key_of(Field::Stream)) {
        None => Err(DecodeError::Missing(Field::Stream)),
        Some(JsonValue::Bool(b)) => Ok(*b),
        Some(_) => Err(DecodeError::WrongType(Field::Stream)),
    }
}

fn headers_of(fields: &Vec<(String, JsonValue)>) -> (r: Result<Vec<(String, String)>, DecodeError>)
    ensures
        match r {
            Ok(h) => headers_member(fields@) == Ok::<Seq<(Seq<char>, Seq<char>)>, DecodeError>(pairs_view(h@)),
            Err(e) => headers_member(fields@) == Err::<Seq<(Seq<char>, Seq<char>)>, DecodeError>(e),
        },
{
    match find_member(fields, &key_of(Field::Headers)) {
        None => {
            let h: Vec<(String, String)> = Vec::new();
            assert(pairs_view(h@) =~= Seq::empty());
            Ok(h)
        },
        Some(JsonValue::Object(m)) => match string_pairs(m) {
            Some(h) => Ok(h),
            None => Err(DecodeError::WrongType(Field::Headers)),
        },
        Some(_) => Err(DecodeError::WrongType(Field::Headers)),
    }
}

fn body_of(fields: &Vec<(String, JsonValue)>) -> (r: Result<Option<String>, DecodeError>)
    ensures
        match r {
            Ok(b) => body_member(fields@) == Ok::<Option<Seq<char>>, DecodeError>(opt_view(b)),
            Err(e) => body_member(fields@) == Err::<Option<Seq<char>>, DecodeError>(e),
        },
{
    match find_member(fields, &key_of(Field::Body)) {
        None => Ok(None),
        Some(JsonValue::Null) => Ok(None),
        Some(JsonValue::Str(s)) => Ok(Some(s.clone())),
        Some(_) => Err(DecodeError::WrongType(Field::Body)),
    }
}

fn timeout_of(fields: &Vec<(String, JsonValue)>) -> (r: Result<u64, DecodeError>)
    ensures
        r == timeout_member(fields@),
{
    match find_member(fields, &key_of(Field::Timeout)) {
        None => Ok(default_timeout()),
        Some(JsonValue::Number(JsonNumber::Unsigned(t))) => Ok(*t),
        Some(_) => Err(DecodeError::WrongType(Field::Timeout)),
    }
}

impl RequestEnvelope {
    /// Reads an envelope out of a JSON value.
    pub fn from_json(j: &JsonValue) -> (r: Result<RequestEnvelope, DecodeError>)
        ensures
            match r {
                Ok(e) => decode_envelope(*j) == Ok::<EnvelopeView, DecodeError>(e@),
                Err(d) => decode_envelope(*j) == Err::<EnvelopeView, DecodeError>(d),
            },
    {
        match j {
            JsonValue::Object(m) => RequestEnvelope::from_members(m),
            _ => Err(DecodeError::NotObject),
        }
    }

    fn from_members(fields: &Vec<(String, JsonValue)>) -> (r: Result<RequestEnvelope, DecodeError>)
        ensures
            match r {
                Ok(e) => decode_members(fields@) == Ok::<EnvelopeView, DecodeError>(e@),
                Err(d) => decode_members(fields@) == Err::<EnvelopeView, DecodeError>(d),
            },
    {
        let mut i: usize = 0;
        while i < fields.len()
            invariant
                0 <= i <= fields.len(),
                forall|k: int| 0 <= k < i ==> is_known_key(#[trigger] fields@[k].0@),
            decreases fields.len() - i,
        {
            if !known_key(&fields[i].0) {
                assert(!is_known_key(fields@[i as int].0@));
                return Err(DecodeError::UnknownField);
            }
            i = i + 1;
        }
        let method = text_of(fields, Field::Method)?;
        if !method_is_valid(method.as_str()) {
            return Err(DecodeError::InvalidMethod);
        }
        let path_query = text_of(fields, Field::PathQuery)?;
        let stream = stream_of(fields)?;
        let headers = headers_of(fields)?;
        let body = body_of(fields)?;
        let timeout = timeout_of(fields)?;
        Ok(RequestEnvelope { method, path_query, stream, headers, body, timeout })
    }
}

} // verus!
