//! The response side: whether to buffer or stream, and the buffered JSON form.

use vstd::prelude::*;
use vstd::string::*;
use crate::envelope::{lookup, string_members, find_member, string_pairs};
use crate::json::{write_json, json_text, json_parse, parse_json};
use crate::json::{JsonValue, JsonNumber, JsonView, NumberView, json_view, lemma_object_view};
use crate::envelope::pairs_view;
use crate::error::ProxyError;

verus! {

/// How a response is handed back.
#[derive(Clone, Copy, Debug, PartialEq, Eq, Structural)]
pub enum OutputMode {
    /// Status, headers and body as one JSON line.
    Buffered,
    /// The body bytes as they arrive, with nothing added.
    Streamed,
}

/// An informational, success or redirect status (1xx, 2xx or 3xx).
pub open spec fn is_streamable_status(status: u16) -> bool {
    100 <= status && status <= 399
}

pub open spec fn output_mode(status: u16, stream: bool) -> OutputMode {
    if stream && is_streamable_status(status) {
        OutputMode::Streamed
    } else {
        OutputMode::Buffered
    }
}

/// Streams only where streaming was asked for and the status is 1xx, 2xx or
/// 3xx; every other response, errors included, is buffered.
pub fn route(status: u16, stream: bool) -> (r: OutputMode)
    ensures
        r == output_mode(status, stream),
{
    if stream && 100 <= status && status <= 399 {
        OutputMode::Streamed
    } else {
        OutputMode::Buffered
    }
}

/// A byte that a header value may hold as text: visible ASCII or a tab.
pub open spec fn is_visible(b: u8) -> bool {
    (32 <= b && b < 127) || b == 9
}

/// The text of a header value, where every byte is visible ASCII.
pub open spec fn visible_text(b: Seq<u8>) -> Option<Seq<char>> {
    if forall|i: int| 0 <= i < b.len() ==> is_visible(#[trigger] b[i]) {
        Some(b.map_values(|x: u8| x as char))
    } else {
        None
    }
}

/// Relies on reqwest::header::HeaderValue::from_bytes and its to_str, which
/// together accept exactly the values made of visible ASCII and tabs.
#[verifier::external_body]
fn header_text(value: &[u8]) -> (r: Option<String>)
    ensures
        match r {
            Some(s) => visible_text(value@) == Some(s@),
            None => visible_text(value@) is None,
        },
{
    let v = reqwest::header::HeaderValue::from_bytes(value).ok()?;
    v.to_str().ok().map(|s| s.to_string())
}

/// `acc` with the value of key `k` set to `v`: in place where `k` is there,
/// else appended.
pub open spec fn put(acc: Seq<(Seq<char>, Seq<char>)>, k: Seq<char>, v: Seq<char>) -> Seq<(Seq<char>, Seq<char>)> {
    if exists|i: int| 0 <= i < acc.len() && acc[i].0 == k {
        let i = choose|i: int| 0 <= i < acc.len() && acc[i].0 == k;
        acc.update(i, (k, v))
    } else {
        acc.push((k, v))
    }
}

/// One entry per name, in order of first appearance, holding the last value.
pub open spec fn collapse(pairs: Seq<(Seq<char>, Seq<char>)>) -> Seq<(Seq<char>, Seq<char>)>
    decreases pairs.len(),
{
    if pairs.len() == 0 {
        Seq::empty()
    } else {
        put(collapse(pairs.drop_last()), pairs.last().0, pairs.last().1)
    }
}

pub open spec fn keys_unique(s: Seq<(Seq<char>, Seq<char>)>) -> bool {
    forall|i: int, j: int| 0 <= i < s.len() && 0 <= j < s.len() && i != j ==> s[i].0 != s[j].0
}

/// The text of each header, where all of them are text.
pub open spec fn header_texts(raw: Seq<(String, Vec<u8>)>) -> Option<Seq<(Seq<char>, Seq<char>)>>
    decreases raw.len(),
{
    if raw.len() == 0 {
        Some(Seq::empty())
    } else {
        match (header_texts(raw.drop_last()), visible_text(raw.last().1@)) {
            (Some(acc), Some(t)) => Some(acc.push((raw.last().0@, t))),
            _ => None,
        }
    }
}

/// A response as it is handed back in buffered form.
#[derive(Debug)]
pub struct OutgoingResponse {
    pub status: u16,
    pub headers: Vec<(String, String)>,
    pub body: String,
}

pub struct ResponseView {
    pub status: u16,
    pub headers: Seq<(Seq<char>, Seq<char>)>,
    pub body: Seq<char>,
}

impl View for OutgoingResponse {
    type V = ResponseView;

    open spec fn view(&self) -> ResponseView {
        ResponseView {
            status: self.status,
            headers: crate::envelope::pairs_view(self.headers@),
            body: self.body@,
        }
    }
}

/// The position of header `k` in `acc`, if it is there.
fn find_header(acc: &Vec<(String, String)>, k: &String) -> (r: Option<usize>)
    ensures
        match r {
            Some(i) => i < acc@.len() && pairs_view(acc@)[i as int].0 == k@,
            None => forall|j: int| 0 <= j < acc@.len() ==> (#[trigger] pairs_view(acc@)[j]).0 != k@,
        },
{
    let mut i: usize = 0;
    while i < acc.len()
        invariant
            0 <= i <= acc.len(),
            forall|j: int| 0 <= j < i ==> (#[trigger] pairs_view(acc@)[j]).0 != k@,
        decreases acc.len() - i,
    {
        if acc[i].0 == *k {
            return Some(i);
        }
        i = i + 1;
    }
    None
}

/// Sets header `k` to `v`, in place where it is already there.
fn put_header(acc: &mut Vec<(String, String)>, k: String, v: String)
    requires
        keys_unique(pairs_view(old(acc)@)),
    ensures
        pairs_view(final(acc)@) == put(pairs_view(old(acc)@), k@, v@),
        keys_unique(pairs_view(final(acc)@)),
{
    let ghost a0 = pairs_view(acc@);
    let ghost kv = k@;
    let ghost vv = v@;
    match find_header(acc, &k) {
        Some(i) => {
            acc.set(i, (k, v));
            proof {
                let c = choose|j: int| 0 <= j < a0.len() && a0[j].0 == kv;
                assert(c == i);
                assert(pairs_view(acc@) =~= a0.update(i as int, (kv, vv)));
            }
        },
        None => {
            acc.push((k, v));
            assert(pairs_view(acc@) =~= a0.push((kv, vv)));
        },
    }
}

proof fn lemma_header_texts_none_extends(raw: Seq<(String, Vec<u8>)>, n: int)
    requires
        0 <= n <= raw.len(),
        header_texts(raw.subrange(0, n)) is None,
    ensures
        header_texts(raw) is None,
    decreases raw.len(),
{
    if n == raw.len() {
        assert(raw.subrange(0, n) == raw);
    } else {
        assert(raw.drop_last().subrange(0, n) == raw.subrange(0, n));
        lemma_header_texts_none_extends(raw.drop_last(), n);
    }
}

impl OutgoingResponse {
    /// Builds the buffered form of a response: each header's value as text,
    /// one entry per header name holding its last value. Fails where a value
    /// is not visible ASCII.
    pub fn build(status: u16, raw_headers: &Vec<(String, Vec<u8>)>, body: String) -> (r: Result<OutgoingResponse, ProxyError>)
        ensures
            match header_texts(raw_headers@) {
                None => r == Err::<OutgoingResponse, ProxyError>(ProxyError::Encoding),
                Some(t) => r matches Ok(x) && x@ == (ResponseView { status, headers: collapse(t), body: body@ }),
            },
    {
        let mut headers: Vec<(String, String)> = Vec::new();
        let mut i: usize = 0;
        assert(raw_headers@.subrange(0, 0) =~= Seq::<(String, Vec<u8>)>::empty());
        assert(pairs_view(headers@) =~= Seq::empty());
        while i < raw_headers.len()
            invariant
                0 <= i <= raw_headers.len(),
                header_texts(raw_headers@.subrange(0, i as int)) matches Some(t) && pairs_view(headers@) == collapse(t),
                keys_unique(pairs_view(headers@)),
            decreases raw_headers.len() - i,
        {
            let ghost t = header_texts(raw_headers@.subrange(0, i as int))->Some_0;
            assert(raw_headers@.subrange(0, i + 1).drop_last() == raw_headers@.subrange(0, i as int));
            match header_text(raw_headers[i].1.as_slice()) {
                Some(text) => {
                    let ghost x = (raw_headers@[i as int].0@, text@);
                    assert(t.push(x).drop_last() == t);
                    put_header(&mut headers, raw_headers[i].0.clone(), text);
                },
                None => {
                    proof {
                        lemma_header_texts_none_extends(raw_headers@, i + 1);
                    }
                    return Err(ProxyError::Encoding);
                },
            }
            i = i + 1;
        }
        assert(raw_headers@.subrange(0, raw_headers.len() as int) == raw_headers@);
        Ok(OutgoingResponse { status, headers, body })
    }
}

/// The members of a JSON object that hold exactly the given headers, as strings.
pub open spec fn is_header_members(m: Seq<(String, JsonValue)>, h: Seq<(Seq<char>, Seq<char>)>) -> bool {
    m.len() == h.len() && forall|i: int| 0 <= i < m.len() ==> #[trigger] m[i].0@ == h[i].0
        && (m[i].1 matches JsonValue::Str(s) && s@ == h[i].1)
}

/// The JSON form of a buffered response: an object with exactly the members
/// `status`, `headers` and `body`.
pub open spec fn is_response_json(j: JsonValue, v: ResponseView) -> bool {
    match j {
        JsonValue::Object(m) => m@.len() == 3
            && m@[0].0@ == "status"@ && m@[0].1 == JsonValue::Number(JsonNumber::Unsigned(v.status as u64))
            && m@[1].0@ == "headers"@ && (m@[1].1 matches JsonValue::Object(h) && is_header_members(h@, v.headers))
            && m@[2].0@ == "body"@ && (m@[2].1 matches JsonValue::Str(b) && b@ == v.body),
        _ => false,
    }
}

/// The headers as the members of a JSON object, each value a string.
pub open spec fn header_json(h: Seq<(Seq<char>, Seq<char>)>) -> Seq<(Seq<char>, JsonView)> {
    h.map_values(|p: (Seq<char>, Seq<char>)| (p.0, JsonView::Str(p.1)))
}

/// The JSON form of a response: `status`, `headers` and `body`, in that order.
pub open spec fn response_json(v: ResponseView) -> JsonView {
    JsonView::Object(
        seq![
            ("status"@, JsonView::Number(NumberView::Unsigned(v.status as u64))),
            ("headers"@, JsonView::Object(header_json(v.headers))),
            ("body"@, JsonView::Str(v.body)),
        ],
    )
}

proof fn lemma_response_view(j: JsonValue, v: ResponseView)
    requires
        is_response_json(j, v),
    ensures
        json_view(j) == response_json(v),
{
    if let JsonValue::Object(m) = j {
        if let JsonValue::Object(h) = m@[1].1 {
            assert forall|i: int| 0 <= i < header_json(v.headers).len() implies
                (h@[i].0@, json_view(h@[i].1)) == #[trigger] header_json(v.headers)[i] by {
                assert(h@[i].0@ == v.headers[i].0);
            }
            lemma_object_view(h, header_json(v.headers));
        }
        let expected = seq![
            ("status"@, JsonView::Number(NumberView::Unsigned(v.status as u64))),
            ("headers"@, JsonView::Object(header_json(v.headers))),
            ("body"@, JsonView::Str(v.body)),
        ];
        assert forall|i: int| 0 <= i < expected.len() implies
            (m@[i].0@, json_view(m@[i].1)) == #[trigger] expected[i] by {
        }
        lemma_object_view(m, expected);
    }
}

/// The response that a JSON value describes: its `status` an integer that
/// fits 16 bits, its `headers` an object of strings, its `body` a string.
pub open spec fn response_of(j: JsonValue) -> Option<ResponseView> {
    match j {
        JsonValue::Object(m) => match (lookup(m@, "status"@), lookup(m@, "headers"@), lookup(m@, "body"@)) {
            (Some(JsonValue::Number(JsonNumber::Unsigned(s))), Some(JsonValue::Object(h)), Some(JsonValue::Str(b))) =>
                if s <= 65535 {
                    match string_members(h@) {
                        Some(hs) => Some(ResponseView { status: s as u16, headers: hs, body: b@ }),
                        None => None,
                    }
                } else {
                    None
                },
            _ => None,
        },
        _ => None,
    }
}

proof fn lemma_header_members(m: Seq<(String, JsonValue)>, h: Seq<(Seq<char>, Seq<char>)>)
    requires
        is_header_members(m, h),
    ensures
        string_members(m) == Some(h),
    decreases m.len(),
{
    if m.len() > 0 {
        let n = m.len() - 1;
        assert(m[n].0@ == h[n].0);
        assert(is_header_members(m.drop_last(), h.drop_last())) by {
            assert forall|i: int| 0 <= i < m.drop_last().len() implies #[trigger] m.drop_last()[i].0@ == h.drop_last()[i].0
                && (m.drop_last()[i].1 matches JsonValue::Str(s) && s@ == h.drop_last()[i].1) by {
                assert(m[i].0@ == h[i].0);
            }
        }
        lemma_header_members(m.drop_last(), h.drop_last());
        assert(h.drop_last().push((h[n].0, h[n].1)) =~= h);
    } else {
        assert(h =~= Seq::empty());
    }
}

/// Decoding the JSON form of a response gives back the same status, headers
/// and body.
pub proof fn lemma_response_round_trip(j: JsonValue, v: ResponseView)
    requires
        is_response_json(j, v),
    ensures
        response_of(j) == Some(v),
{
    reveal_strlit("status");
    reveal_strlit("headers");
    reveal_strlit("body");
    if let JsonValue::Object(m) = j {
        let fs = m@;
        assert("body"@ != "headers"@) by {
            assert("body"@.len() != "headers"@.len());
        }
        assert("body"@ != "status"@) by {
            assert("body"@.len() != "status"@.len());
        }
        assert("headers"@ != "status"@) by {
            assert("headers"@.len() != "status"@.len());
        }
        assert(fs.last() == fs[2]);
        assert(fs.drop_last().drop_last().drop_last() =~= Seq::empty());
        assert(fs.drop_last().last() == fs[1]);
        assert(fs.drop_last().drop_last().last() == fs[0]);
        assert(lookup(fs, "body"@) == Some(fs[2].1));
        assert(lookup(fs.drop_last(), "headers"@) == Some(fs[1].1));
        assert(lookup(fs, "headers"@) == Some(fs[1].1));
        assert(lookup(fs.drop_last().drop_last(), "status"@) == Some(fs[0].1));
        assert(lookup(fs.drop_last(), "status"@) == Some(fs[0].1));
        assert(lookup(fs, "status"@) == Some(fs[0].1));
        if let JsonValue::Object(h) = fs[1].1 {
            lemma_header_members(h@, v.headers);
        }
    }
}

/// A request that does not ask for streaming is always answered in buffered
/// form, and that form holds the members `status`, `headers` and `body`
/// and no other.
pub proof fn lemma_no_stream_is_buffered(v: ResponseView)
    ensures
        output_mode(v.status, false) == OutputMode::Buffered,
        response_json(v) matches JsonView::Object(m) && m.len() == 3 && m[0].0 == "status"@
            && m[1].0 == "headers"@ && m[2].0 == "body"@,
{
}

/// A status of 400 or more is always answered in buffered form, whether
/// streaming was asked for or not.
pub proof fn lemma_error_status_is_buffered(status: u16, stream: bool)
    requires
        400 <= status,
    ensures
        output_mode(status, stream) == OutputMode::Buffered,
{
}

/// Streaming asked for, with an informational, success or redirect status,
/// is answered by streaming the body.
pub proof fn lemma_stream_on_success(status: u16)
    requires
        100 <= status <= 399,
    ensures
        output_mode(status, true) == OutputMode::Streamed,
{
}

fn key(s: &str) -> (r: String)
    ensures
        r@ == s@,
{
    String::from_str(s)
}

impl OutgoingResponse {
    /// The JSON form of this response.
    pub fn to_json(&self) -> (r: JsonValue)
        ensures
            is_response_json(r, self@),
            json_view(r) == response_json(self@),
    {
        let mut members: Vec<(String, JsonValue)> = Vec::new();
        let mut i: usize = 0;
        while i < self.headers.len()
            invariant
                0 <= i <= self.headers.len(),
                is_header_members(members@, pairs_view(self.headers@).subrange(0, i as int)),
            decreases self.headers.len() - i,
        {
            let ghost prev = members@;
            let ghost hv = pairs_view(self.headers@);
            members.push((self.headers[i].0.clone(), JsonValue::Str(self.headers[i].1.clone())));
            assert(members@[i as int].0@ == hv[i as int].0);
            i = i + 1;
            assert(is_header_members(members@, pairs_view(self.headers@).subrange(0, i as int))) by {
                assert forall|k: int| 0 <= k < members@.len() implies #[trigger] members@[k].0@ == pairs_view(self.headers@).subrange(0, i as int)[k].0
                    && (members@[k].1 matches JsonValue::Str(s) && s@ == pairs_view(self.headers@).subrange(0, i as int)[k].1) by {
                    if k < i - 1 {
                        assert(members@[k] == prev[k]);
                        assert(prev[k].0@ == hv.subrange(0, i - 1)[k].0);
                        assert(hv.subrange(0, i as int)[k] == hv.subrange(0, i - 1)[k]);
                    }
                }
            }
        }
        assert(pairs_view(self.headers@).subrange(0, i as int) == pairs_view(self.headers@));
        let mut object: Vec<(String, JsonValue)> = Vec::new();
        object.push((key("status"), JsonValue::Number(JsonNumber::Unsigned(self.status as u64))));
        object.push((key("headers"), JsonValue::Object(members)));
        object.push((key("body"), JsonValue::Str(self.body.clone())));
        let r = JsonValue::Object(object);
        proof {
            lemma_response_view(r, self@);
        }
        r
    }

    /// Reads a response back out of its JSON form.
    pub fn from_json(j: &JsonValue) -> (r: Option<OutgoingResponse>)
        ensures
            match r {
                Some(x) => response_of(*j) == Some(x@),
                None => response_of(*j) is None,
            },
    {
        let m = match j {
            JsonValue::Object(m) => m,
            _ => {
                return None;
            },
        };
        let status = match find_member(m, &key("status")) {
            Some(JsonValue::Number(JsonNumber::Unsigned(s))) => *s,
            _ => {
                return None;
            },
        };
        let h = match find_member(m, &key("headers")) {
            Some(JsonValue::Object(h)) => h,
            _ => {
                return None;
            },
        };
        let body = match find_member(m, &key("body")) {
            Some(JsonValue::Str(b)) => b.clone(),
            _ => {
                return None;
            },
        };
        if status > 65535 {
            return None;
        }
        match string_pairs(h) {
            Some(headers) => Some(OutgoingResponse { status: status as u16, headers, body }),
            None => None,
        }
    }

    /// Reads a response back out of a JSON text.
    pub fn from_json_line(line: &str) -> (r: Option<OutgoingResponse>)
        ensures
            match json_parse(line@) {
                None => r is None,
                Some(j) => match r {
                    Some(x) => response_of(j) == Some(x@),
                    None => response_of(j) is None,
                },
            },
    {
        match parse_json(line) {
            Some(j) => OutgoingResponse::from_json(&j),
            None => None,
        }
    }

    /// The JSON text of this response, as one line without its newline.
    pub fn to_json_line(&self) -> (r: String)
        ensures
            r@ == json_text(response_json(self@)),
    {
        write_json(&self.to_json())
    }

}

} // verus!
