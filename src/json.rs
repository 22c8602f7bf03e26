//! A JSON value model that the dispatch logic can read, and the two calls into
//! serde_json that turn text into values and values into text.
use vstd::prelude::*;

verus! {

#[verifier::external_type_specification]
#[verifier::external_body]
pub struct ExNumber(serde_json::Number);

#[verifier::external_type_specification]
#[verifier::external_body]
pub struct ExValue(serde_json::Value);

/// A JSON number: integers as plain values, every other number as serde_json holds it.
#[derive(Debug, PartialEq)]
pub enum JsonNumber {
    /// A non-negative integer.
    PosInt(u64),
    /// A negative integer.
    NegInt(i64),
    /// Any other finite number, such as one written with a fraction or exponent.
    Float(serde_json::Number),
}

/// A JSON value; an object keeps its members in the order in which they came.
#[derive(Debug, PartialEq)]
pub enum JsonValue {
    Null,
    Bool(bool),
    Number(JsonNumber),
    Str(String),
    Array(Vec<JsonValue>),
    Object(Vec<(String, JsonValue)>),
}

/// What serde_json makes of a text: `None` where the text is not JSON.
pub uninterp spec fn parsed_json(text: Seq<char>) -> Option<JsonValue>;

/// The text that serde_json writes for a value.
pub uninterp spec fn json_text(v: JsonValue) -> Seq<char>;

/// Part of `parse_json`: relies on serde_json::Number::as_u64 and as_i64 to tell
/// the number's forms apart.
#[verifier::external_body]
fn number_from_serde(n: serde_json::Number) -> JsonNumber {
    match (n.as_u64(), n.as_i64()) {
        (Some(u), _) => JsonNumber::PosInt(u),
        (None, Some(i)) => JsonNumber::NegInt(i),
        _ => JsonNumber::Float(n),
    }
}

/// Part of `parse_json`: moves a serde_json::Value into the library's model, one
/// variant for one, members in serde_json::Map's iteration order (insertion order).
#[verifier::external_body]
fn from_serde(v: serde_json::Value) -> JsonValue {
    match v {
        serde_json::Value::Null => JsonValue::Null,
        serde_json::Value::Bool(b) => JsonValue::Bool(b),
        serde_json::Value::Number(n) => JsonValue::Number(number_from_serde(n)),
        serde_json::Value::String(s) => JsonValue::Str(s),
        serde_json::Value::Array(a) => JsonValue::Array(a.into_iter().map(from_serde).collect()),
        serde_json::Value::Object(o) => JsonValue::Object(
            o.into_iter().map(|(k, x)| (k, from_serde(x))).collect(),
        ),
    }
}

/// Part of `encode_json`: relies on serde_json::Number's conversions from u64 and i64.
#[verifier::external_body]
fn number_to_serde(n: &JsonNumber) -> serde_json::Number {
    match n {
        JsonNumber::PosInt(u) => (*u).into(),
        JsonNumber::NegInt(i) => (*i).into(),
        JsonNumber::Float(f) => f.clone(),
    }
}

/// Part of `encode_json`: moves a value of the library's model into a
/// serde_json::Value, one variant for one, members inserted in order.
#[verifier::external_body]
fn to_serde(v: &JsonValue) -> serde_json::Value {
    match v {
        JsonValue::Null => serde_json::Value::Null,
        JsonValue::Bool(b) => serde_json::Value::Bool(*b),
        JsonValue::Number(n) => serde_json::Value::Number(number_to_serde(n)),
        JsonValue::Str(s) => serde_json::Value::String(s.clone()),
        JsonValue::Array(a) => serde_json::Value::Array(a.iter().map(to_serde).collect()),
        JsonValue::Object(o) => serde_json::Value::Object(
            o.iter().map(|(k, x)| (k.clone(), to_serde(x))).collect(),
        ),
    }
}

/// Relies on serde_json::from_str: the outcome depends on the text alone.
#[verifier::external_body]
pub(crate) fn parse_json(text: &str) -> (r: Option<JsonValue>)
    ensures
        r == parsed_json(text@),
{
    serde_json::from_str::<serde_json::Value>(text).ok().map(from_serde)
}

/// Relies on serde_json::to_string, which cannot fail on a value with string keys.
#[verifier::external_body]
pub(crate) fn encode_json(v: &JsonValue) -> (r: String)
    ensures
        r@ == json_text(*v),
{
    serde_json::to_string(&to_serde(v)).unwrap_or_default()
}


/// Parses JSON text; `None` where the text is not JSON.
pub fn from_json_text(text: &str) -> (r: Option<JsonValue>)
    ensures
        r == parsed_json(text@),
{
    parse_json(text)
}

/// Writes a value as JSON text.
pub fn to_json_text(v: &JsonValue) -> (r: String)
    ensures
        r@ == json_text(*v),
{
    encode_json(v)
}

/// The value of the first member named `key`.
pub open spec fn field_of(members: Seq<(String, JsonValue)>, key: Seq<char>) -> Option<JsonValue>
    decreases members.len(),
{
    if members.len() == 0 {
        None
    } else if members[0].0@ == key {
        Some(members[0].1)
    } else {
        field_of(members.drop_first(), key)
    }
}

/// The string held by member `key`, if that member is a string.
pub open spec fn str_field(members: Seq<(String, JsonValue)>, key: Seq<char>) -> Option<Seq<char>> {
    match field_of(members, key) {
        Some(JsonValue::Str(s)) => Some(s@),
        _ => None,
    }
}

/// Member `key` read as an optional value: absent and `null` both read as `None`.
pub open spec fn optional_field(members: Seq<(String, JsonValue)>, key: Seq<char>) -> Option<JsonValue> {
    match field_of(members, key) {
        Some(JsonValue::Null) => None,
        other => other,
    }
}

pub proof fn lemma_field_of_suffix(members: Seq<(String, JsonValue)>, key: Seq<char>, i: int)
    requires
        0 <= i < members.len(),
    ensures
        field_of(members.subrange(i, members.len() as int), key) == (if members[i].0@ == key {
            Some(members[i].1)
        } else {
            field_of(members.subrange(i + 1, members.len() as int), key)
        }),
{
    let s = members.subrange(i, members.len() as int);
    assert(s.drop_first() =~= members.subrange(i + 1, members.len() as int));
    assert(s[0] == members[i]);
}

/// `null` reads as absent.
pub fn drop_null(v: Option<JsonValue>) -> (r: Option<JsonValue>)
    ensures
        r == (match v {
            Some(JsonValue::Null) => None,
            other => other,
        }),
{
    match v {
        Some(JsonValue::Null) => None,
        other => other,
    }
}

} // verus!
