//! JSON values as the rest of the crate sees them.
//!
//! Values are `serde_json::Value`s, which the verifier cannot look into. This
//! module gives them a mathematical reading, [`Json`], and a thin layer of
//! accessors and constructors whose contracts are stated over that reading.
//! Those contracts are taken on trust from `serde_json`; everything built on
//! top of them is proved.

use serde_json::Value;
use vstd::prelude::*;

verus! {

/// `serde_json::Value`, carried as it is.
#[verifier::external_type_specification]
#[verifier::external_body]
pub struct ExValue(serde_json::Value);

/// `serde_json::Map`, carried as it is.
#[verifier::external_type_specification]
#[verifier::external_body]
#[verifier::reject_recursive_types(K)]
#[verifier::reject_recursive_types(V)]
pub struct ExObject<K, V>(serde_json::Map<K, V>);

/// A JSON number: an integer, or a binary floating-point number given by its
/// IEEE 754 bit pattern.
pub enum JsonNumber {
    Int(int),
    Float(u64),
}

/// The mathematical reading of a JSON document.
pub enum Json {
    Null,
    Bool(bool),
    Number(JsonNumber),
    Text(Seq<char>),
    Array(Seq<Json>),
    Object(Map<Seq<char>, Json>),
}

/// The document that a `serde_json::Value` holds.
pub uninterp spec fn json_of(v: serde_json::Value) -> Json;

/// The members that a `serde_json::Map` holds, by key.
pub uninterp spec fn members_of(m: serde_json::Map<String, serde_json::Value>) -> Map<Seq<char>, Json>;

/// An object without members.
pub open spec fn no_members() -> Map<Seq<char>, Json> {
    Map::empty()
}

/// The documents held by a run of values, in order.
pub open spec fn items_of(values: Seq<Value>) -> Seq<Json> {
    values.map_values(|v: Value| json_of(v))
}

/// `Value::is_null`: true exactly for the `Null` variant.
#[verifier::external_body]
pub(crate) fn is_null(v: &Value) -> (b: bool)
    ensures
        b == (json_of(*v) is Null),
{
    v.is_null()
}

/// A match on `Value::Object`: the map of an object is taken out, any other
/// variant is handed back as it came.
#[verifier::external_body]
pub(crate) fn into_object(v: Value) -> (r: Result<serde_json::Map<String, Value>, Value>)
    ensures
        match r {
            Ok(m) => json_of(v) == Json::Object(members_of(m)),
            Err(w) => w == v && !(json_of(v) is Object),
        },
{
    match v {
        Value::Object(m) => Ok(m),
        other => Err(other),
    }
}

/// `Map::get`: the value stored under `key`, if there is one.
#[verifier::external_body]
pub(crate) fn member<'a>(m: &'a serde_json::Map<String, Value>, key: &str) -> (r: Option<&'a Value>)
    ensures
        match r {
            Some(v) => members_of(*m).contains_key(key@) && members_of(*m)[key@] == json_of(*v),
            None => !members_of(*m).contains_key(key@),
        },
{
    m.get(key)
}

/// `Value::as_str`: the text of a `String` variant, `None` for any other.
#[verifier::external_body]
pub(crate) fn as_str<'a>(v: &'a Value) -> (r: Option<&'a str>)
    ensures
        match r {
            Some(s) => json_of(*v) == Json::Text(s@),
            None => !(json_of(*v) is Text),
        },
{
    v.as_str()
}

/// `Value::as_bool`: the flag of a `Bool` variant, `None` for any other.
#[verifier::external_body]
pub(crate) fn as_bool(v: &Value) -> (r: Option<bool>)
    ensures
        match r {
            Some(b) => json_of(*v) == Json::Bool(b),
            None => !(json_of(*v) is Bool),
        },
{
    v.as_bool()
}

/// `Value::as_u64`: the number, where it is an integer that is not negative;
/// `None` for negative integers, floating-point numbers and other variants.
#[verifier::external_body]
pub(crate) fn as_u64(v: &Value) -> (r: Option<u64>)
    ensures
        r == unsigned_of(json_of(*v)),
{
    v.as_u64()
}

/// `Value::as_array`: the elements of an `Array` variant, `None` for any
/// other.
#[verifier::external_body]
pub(crate) fn as_array<'a>(v: &'a Value) -> (r: Option<&'a Vec<Value>>)
    ensures
        match r {
            Some(items) => json_of(*v) == Json::Array(items_of(items@)),
            None => !(json_of(*v) is Array),
        },
{
    v.as_array()
}

/// The unsigned integer that a document stands for, if it is one.
pub open spec fn unsigned_of(j: Json) -> Option<u64> {
    match j {
        Json::Number(JsonNumber::Int(i)) if 0 <= i <= u64::MAX => Some(i as u64),
        _ => None,
    }
}

/// `Value::Null`.
#[verifier::external_body]
pub(crate) fn null_value() -> (v: Value)
    ensures
        json_of(v) == Json::Null,
{
    Value::Null
}

/// `Value::String` holding `text`.
#[verifier::external_body]
pub(crate) fn text_value(text: String) -> (v: Value)
    ensures
        json_of(v) == Json::Text(text@),
{
    Value::String(text)
}

/// `Value::from` on a `u16`: the `Number` variant holding that integer.
#[verifier::external_body]
pub(crate) fn number_value(n: u16) -> (v: Value)
    ensures
        json_of(v) == Json::Number(JsonNumber::Int(n as int)),
{
    Value::from(n)
}

/// `Value::Object` holding the map `m`.
#[verifier::external_body]
pub(crate) fn object_value(m: serde_json::Map<String, Value>) -> (v: Value)
    ensures
        json_of(v) == Json::Object(members_of(m)),
{
    Value::Object(m)
}

/// `Map::new`: a map without members.
#[verifier::external_body]
pub(crate) fn new_members() -> (m: serde_json::Map<String, Value>)
    ensures
        members_of(m) == no_members(),
{
    serde_json::Map::new()
}

/// `Map::insert`: stores `value` under `key`, replacing what was there.
#[verifier::external_body]
pub(crate) fn insert_member(m: &mut serde_json::Map<String, Value>, key: String, value: Value)
    ensures
        members_of(*final(m)) == members_of(*old(m)).insert(key@, json_of(value)),
{
    m.insert(key, value);
}

/// What `serde_json::from_str` makes of a text when asked for a `Value`:
/// the document, or `None` where the text is not one JSON document.
pub uninterp spec fn parsed_text(text: Seq<char>) -> Option<Json>;

/// What `serde_json::from_slice` makes of bytes when asked for a `Value`:
/// the document, or `None` where the bytes are not one JSON document.
pub uninterp spec fn parsed_bytes(bytes: Seq<u8>) -> Option<Json>;

/// The document of a value that may be absent.
pub open spec fn json_of_option(v: Option<Value>) -> Option<Json> {
    match v {
        Some(v) => Some(json_of(v)),
        None => None,
    }
}

/// `serde_json::from_str`, with the error dropped.
#[verifier::external_body]
pub(crate) fn parse_text(text: &str) -> (r: Option<Value>)
    ensures
        json_of_option(r) == parsed_text(text@),
{
    serde_json::from_str::<Value>(text).ok()
}

/// `serde_json::from_slice`, with the error dropped.
#[verifier::external_body]
pub(crate) fn parse_bytes(bytes: &[u8]) -> (r: Option<Value>)
    ensures
        json_of_option(r) == parsed_bytes(bytes@),
{
    serde_json::from_slice::<Value>(bytes).ok()
}

} // verus!
