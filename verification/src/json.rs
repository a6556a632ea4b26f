//! JSON values: the mathematical model of a `serde_json::Value`, and the calls
//! into `serde_json` that decode, build and read such values.
//!
//! Nothing in this file is proved. Each function states what the named
//! `serde_json` item does, and the rest of the library is verified against
//! these statements.

use serde_json::Value;
use vstd::prelude::*;

verus! {

/// A JSON number, in the three forms in which `serde_json` keeps one.
pub enum JsonNumber {
    /// A non-negative integer.
    PosInt(u64),
    /// A negative integer.
    NegInt(i64),
    /// Any other finite number, given by the bits of its binary64 form.
    Float(u64),
}

/// A JSON document as a mathematical value.
pub enum Json {
    Null,
    Bool(bool),
    Number(JsonNumber),
    Text(Seq<char>),
    Array(Seq<Json>),
    Object(Map<Seq<char>, Json>),
}

/// `serde_json::Value`, a JSON document. The library carries such values and
/// reads them only through the functions below.
#[verifier::external_type_specification]
#[verifier::external_body]
pub struct ExValue(serde_json::Value);

/// `serde_json::Error`, the failure of a decoding.
#[verifier::external_type_specification]
#[verifier::external_body]
pub struct ExJsonError(serde_json::Error);

/// `serde_json::Map`, the members of a JSON object.
#[verifier::external_type_specification]
#[verifier::external_body]
#[verifier::reject_recursive_types(K)]
#[verifier::reject_recursive_types(V)]
pub struct ExJsonMap<K, V>(serde_json::Map<K, V>);

/// The members of a JSON object under construction.
pub type Members = serde_json::Map<String, Value>;

/// The document that a `serde_json::Value` holds.
pub uninterp spec fn json_view(v: Value) -> Json;

/// The members that a `serde_json::Map` holds, by key.
pub uninterp spec fn object_members(m: Members) -> Map<Seq<char>, Json>;

/// The message of a `serde_json::Error`, as its `Display` impl writes it.
pub uninterp spec fn error_text(e: serde_json::Error) -> Seq<char>;

/// What `serde_json::from_slice` makes of a body: the document, or the message
/// of the error.
pub uninterp spec fn decoded_json(body: Seq<u8>) -> Result<Json, Seq<char>>;

/// The bits of the binary64 value to which Rust's `as` rounds the integer `i`.
/// `serde_json::Number::as_f64` converts a stored integer in this way.
pub uninterp spec fn integer_as_binary64(i: int) -> u64;

/// The member `key` of `j`, or `Null` where `j` is no object or has no such
/// member. This is how a `serde_json::Value` answers `value[key]`.
pub open spec fn json_field(j: Json, key: Seq<char>) -> Json {
    match j {
        Json::Object(members) => if members.dom().contains(key) {
            members[key]
        } else {
            Json::Null
        },
        _ => Json::Null,
    }
}

/// The documents of a list of values.
pub open spec fn json_views(items: Seq<Value>) -> Seq<Json> {
    items.map_values(|item: Value| json_view(item))
}

/// Calls `serde_json::from_slice` for a `Value`. The outcome depends on the
/// bytes alone: the same body gives the same document or the same error.
#[verifier::external_body]
pub(crate) fn decode(body: &[u8]) -> (decoded: Result<Value, serde_json::Error>)
    ensures
        match decoded {
            Ok(v) => decoded_json(body@) == Ok::<_, Seq<char>>(json_view(v)),
            Err(e) => decoded_json(body@) == Err::<Json, _>(error_text(e)),
        },
{
    serde_json::from_slice::<Value>(body)
}

/// Calls `to_string` on a `serde_json::Error`, which writes its message.
#[verifier::external_body]
pub(crate) fn describe(e: &serde_json::Error) -> (text: String)
    ensures
        text@ == error_text(*e),
{
    e.to_string()
}

/// Calls `serde_json::Value::from` on a string slice: a JSON string of the
/// same characters.
#[verifier::external_body]
pub(crate) fn text_value(s: &str) -> (v: Value)
    ensures
        json_view(v) == Json::Text(s@),
{
    Value::from(s)
}

/// Calls `serde_json::Value::from` on a `u64`: the JSON number that is this
/// non-negative integer.
#[verifier::external_body]
pub(crate) fn unsigned_value(n: u64) -> (v: Value)
    ensures
        json_view(v) == Json::Number(JsonNumber::PosInt(n)),
{
    Value::from(n)
}

/// Calls `serde_json::Value::from` on a `bool`: the JSON boolean.
#[verifier::external_body]
pub(crate) fn flag_value(b: bool) -> (v: Value)
    ensures
        json_view(v) == Json::Bool(b),
{
    Value::from(b)
}

/// Calls `serde_json::Value::from` on a vector of values: the JSON array of
/// these values, in order.
#[verifier::external_body]
pub(crate) fn array_value(items: Vec<Value>) -> (v: Value)
    ensures
        json_view(v) == Json::Array(json_views(items@)),
{
    Value::from(items)
}

/// Calls `serde_json::Map::new`: a map without members.
#[verifier::external_body]
pub(crate) fn empty_members() -> (m: Members)
    ensures
        object_members(m) == (Map::<Seq<char>, Json>::empty()),
{
    serde_json::Map::new()
}

/// Calls `serde_json::Map::insert`: the member is added, and replaces one of
/// the same key.
#[verifier::external_body]
pub(crate) fn insert_member(m: &mut Members, key: &str, value: Value)
    ensures
        object_members(*final(m)) == object_members(*old(m)).insert(key@, json_view(value)),
{
    m.insert(key.to_owned(), value);
}

/// Calls `serde_json::Value::from` on a map: the JSON object of its members.
#[verifier::external_body]
pub(crate) fn object_value(m: Members) -> (v: Value)
    ensures
        json_view(v) == Json::Object(object_members(m)),
{
    Value::from(m)
}

/// Indexes a `serde_json::Value` by a string, as `value[key]` does: the
/// member of that key where `v` is an object that has one, and otherwise a
/// null value.
#[verifier::external_body]
pub(crate) fn member<'a>(v: &'a Value, key: &str) -> (found: &'a Value)
    ensures
        json_view(*found) == json_field(json_view(*v), key@),
{
    &v[key]
}

/// Calls `serde_json::Value::as_str`: the characters of a JSON string, and
/// nothing for any other value.
#[verifier::external_body]
pub(crate) fn as_text<'a>(v: &'a Value) -> (text: Option<&'a str>)
    ensures
        match json_view(*v) {
            Json::Text(s) => text matches Some(t) && t@ == s,
            _ => text is None,
        },
{
    v.as_str()
}

/// Calls `serde_json::Value::as_f64`: the binary64 value of a JSON number,
/// given here by its bits, and nothing for any other value. A stored float
/// comes back as it is, a stored integer is converted.
#[verifier::external_body]
pub(crate) fn as_binary64(v: &Value) -> (bits: Option<u64>)
    ensures
        bits == match json_view(*v) {
            Json::Number(JsonNumber::Float(b)) => Some(b),
            Json::Number(JsonNumber::PosInt(n)) => Some(integer_as_binary64(n as int)),
            Json::Number(JsonNumber::NegInt(n)) => Some(integer_as_binary64(n as int)),
            _ => None,
        },
{
    match v.as_f64() {
        Some(x) => Some(x.to_bits()),
        None => None,
    }
}

} // verus!
