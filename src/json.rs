//! A plain JSON value, and the calls into serde_json that read and write text.

use vstd::prelude::*;

verus! {

/// A JSON number: an unsigned integer, or any other number kept as its JSON text.
#[derive(Clone, Debug, PartialEq)]
pub enum JsonNumber {
    Unsigned(u64),
    Other(String),
}

/// A JSON value. Object members keep the order in which they were given.
#[derive(Debug)]
pub enum JsonValue {
    Null,
    Bool(bool),
    Number(JsonNumber),
    Str(String),
    Array(Vec<JsonValue>),
    Object(Vec<(String, JsonValue)>),
}

/// serde_json's dynamic value, carried only inside the conversions below.
#[verifier::external_type_specification]
#[verifier::external_body]
pub struct ExValue(serde_json::Value);

/// The mathematical content of a `JsonNumber`.
pub enum NumberView {
    Unsigned(u64),
    Other(Seq<char>),
}

/// The mathematical content of a `JsonValue`: the same tree, with text as
/// sequences of characters.
pub enum JsonView {
    Null,
    Bool(bool),
    Number(NumberView),
    Str(Seq<char>),
    Array(Seq<JsonView>),
    Object(Seq<(Seq<char>, JsonView)>),
}

pub open spec fn json_view(v: JsonValue) -> JsonView
    decreases v,
{
    match v {
        JsonValue::Null => JsonView::Null,
        JsonValue::Bool(b) => JsonView::Bool(b),
        JsonValue::Number(JsonNumber::Unsigned(u)) => JsonView::Number(NumberView::Unsigned(u)),
        JsonValue::Number(JsonNumber::Other(t)) => JsonView::Number(NumberView::Other(t@)),
        JsonValue::Str(s) => JsonView::Str(s@),
        JsonValue::Array(a) => JsonView::Array(
            Seq::new(a.len() as nat, |i: int| if 0 <= i < a.len() { json_view(a[i]) } else { JsonView::Null }),
        ),
        JsonValue::Object(m) => JsonView::Object(
            Seq::new(
                m.len() as nat,
                |i: int| if 0 <= i < m.len() { (m[i].0@, json_view(m[i].1)) } else { (Seq::empty(), JsonView::Null) },
            ),
        ),
    }
}

/// The view of an object is the sequence of its members' views.
pub proof fn lemma_object_view(m: Vec<(String, JsonValue)>, s: Seq<(Seq<char>, JsonView)>)
    requires
        m@.len() == s.len(),
        forall|i: int| 0 <= i < s.len() ==> (m@[i].0@, json_view(m@[i].1)) == #[trigger] s[i],
    ensures
        json_view(JsonValue::Object(m)) == JsonView::Object(s),
{
    if let JsonView::Object(t) = json_view(JsonValue::Object(m)) {
        assert forall|i: int| 0 <= i < s.len() implies t[i] == s[i] by {
            assert(s[i] == (m@[i].0@, json_view(m@[i].1)));
        }
        assert(t =~= s);
    }
}

/// What serde_json reads from a text: `None` where the text is not one JSON value.
pub uninterp spec fn json_parse(text: Seq<char>) -> Option<JsonValue>;

/// The compact JSON text that serde_json writes for a value.
pub uninterp spec fn json_text(v: JsonView) -> Seq<char>;

/// Relies on serde_json::from_str into serde_json::Value: the outcome depends
/// on the text alone.
#[verifier::external_body]
pub(crate) fn parse_json(text: &str) -> (r: Option<JsonValue>)
    ensures
        r == json_parse(text@),
{
    serde_json::from_str::<serde_json::Value>(text).ok().map(from_value)
}

/// Relies on serde_json::to_string of a serde_json::Value, which does not
/// fail: object keys are strings and the text is written into memory.
#[verifier::external_body]
pub(crate) fn write_json(v: &JsonValue) -> (r: String)
    ensures
        r@ == json_text(json_view(*v)),
{
    serde_json::to_string(&to_value(v)).unwrap_or_default()
}

/// Moves a serde_json::Value into a `JsonValue`, one variant for one.
#[verifier::external_body]
fn from_value(v: serde_json::Value) -> JsonValue {
    match v {
        serde_json::Value::Null => JsonValue::Null,
        serde_json::Value::Bool(b) => JsonValue::Bool(b),
        serde_json::Value::Number(n) => JsonValue::Number(match n.as_u64() {
            Some(u) => JsonNumber::Unsigned(u),
            None => JsonNumber::Other(n.to_string()),
        }),
        serde_json::Value::String(s) => JsonValue::Str(s),
        serde_json::Value::Array(a) => JsonValue::Array(a.into_iter().map(from_value).collect()),
        serde_json::Value::Object(m) => JsonValue::Object(m.into_iter().map(|(k, x)| (k, from_value(x))).collect()),
    }
}

/// Copies a `JsonValue` into a serde_json::Value, one variant for one. A
/// number kept as text goes back through serde_json's own number parser.
#[verifier::external_body]
fn to_value(v: &JsonValue) -> serde_json::Value {
    match v {
        JsonValue::Null => serde_json::Value::Null,
        JsonValue::Bool(b) => serde_json::Value::Bool(*b),
        JsonValue::Number(JsonNumber::Unsigned(u)) => serde_json::Value::from(*u),
        JsonValue::Number(JsonNumber::Other(t)) => t.parse().map_or(serde_json::Value::Null, serde_json::Value::Number),
        JsonValue::Str(s) => serde_json::Value::String(s.clone()),
        JsonValue::Array(a) => serde_json::Value::Array(a.iter().map(to_value).collect()),
        JsonValue::Object(m) => serde_json::Value::Object(m.iter().map(|(k, x)| (k.clone(), to_value(x))).collect()),
    }
}

} // verus!
