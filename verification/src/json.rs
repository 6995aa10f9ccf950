//! JSON values as the protocol sees them.
//!
//! Packet bodies are `serde_json::Value`s. Verus cannot look inside one, so
//! this module gives each value a mathematical meaning, [`json_of`], and wraps
//! the handful of `serde_json` calls the protocol needs. The contracts on
//! those wrappers are assumptions about `serde_json` (built with its default,
//! key-sorted maps); everything built on them is proved.

use vstd::prelude::*;

verus! {

/// `serde_json::Value`, carried as an opaque value; [`json_of`] says what it holds.
#[verifier::external_type_specification]
#[verifier::external_body]
pub struct ExValue(serde_json::Value);

/// `serde_json::Error`, carried as an opaque value; nothing is read from it.
#[verifier::external_type_specification]
#[verifier::external_body]
pub struct ExError(serde_json::Error);

/// A JSON document as a mathematical value.
///
/// A number that `serde_json` holds as an integer is an `Int`: one written
/// without fraction or exponent, from -2^63 up to 2^64 - 1. Any other number
/// is a `Fraction`, told apart only by the bit pattern of the double it
/// denotes; the protocol carries such numbers but never computes on them.
pub enum Json {
    Null,
    Bool(bool),
    Int(int),
    Fraction(u64),
    Str(Seq<char>),
    Array(Seq<Json>),
    Object(Map<Seq<char>, Json>),
}

impl Json {
    /// The member stored under `key`, if this is an object that has one.
    pub open spec fn member(self, key: Seq<char>) -> Option<Json> {
        match self {
            Json::Object(m) => if m.contains_key(key) {
                Some(m[key])
            } else {
                None
            },
            _ => None,
        }
    }

    /// The object with `key` set to `value`; anything but an object is left alone.
    pub open spec fn with(self, key: Seq<char>, value: Json) -> Json {
        match self {
            Json::Object(m) => Json::Object(m.insert(key, value)),
            _ => self,
        }
    }

    pub open spec fn empty_object() -> Json {
        Json::Object(Map::empty())
    }

    pub open spec fn as_bool(self) -> Option<bool> {
        match self {
            Json::Bool(b) => Some(b),
            _ => None,
        }
    }

    /// The integer held, when it is one that fits in an `i64`.
    pub open spec fn as_i64(self) -> Option<i64> {
        match self {
            Json::Int(i) => if i64::MIN <= i <= i64::MAX {
                Some(i as i64)
            } else {
                None
            },
            _ => None,
        }
    }

    pub open spec fn as_str(self) -> Option<Seq<char>> {
        match self {
            Json::Str(s) => Some(s),
            _ => None,
        }
    }

    pub open spec fn as_array(self) -> Option<Seq<Json>> {
        match self {
            Json::Array(items) => Some(items),
            _ => None,
        }
    }

    pub open spec fn is_number(self) -> bool {
        self is Int || self is Fraction
    }
}

/// The JSON document that a `serde_json::Value` holds.
pub uninterp spec fn json_of(v: serde_json::Value) -> Json;

/// The compact text `serde_json` writes for a document.
pub uninterp spec fn json_text(document: Json) -> Seq<u8>;

/// The document `serde_json` reads from a text, `None` where it rejects the text.
pub uninterp spec fn json_parse(text: Seq<u8>) -> Option<Json>;

/// The documents held by a sequence of values, in order.
pub open spec fn json_seq(values: Seq<serde_json::Value>) -> Seq<Json> {
    values.map_values(|v: serde_json::Value| json_of(v))
}

/// `Value::get` with a string key: the member of an object, `None` for a
/// missing key and for anything that is not an object.
#[verifier::external_body]
pub(crate) fn member<'a>(v: &'a serde_json::Value, key: &str) -> (r: Option<&'a serde_json::Value>)
    ensures
        match r {
            Some(found) => json_of(*v).member(key@) == Some(json_of(*found)),
            None => json_of(*v).member(key@) is None,
        },
{
    v.get(key)
}

/// `Value::as_bool`: the boolean of a JSON boolean, `None` for anything else.
#[verifier::external_body]
pub(crate) fn as_bool(v: &serde_json::Value) -> (r: Option<bool>)
    ensures
        r == json_of(*v).as_bool(),
{
    v.as_bool()
}

/// `Value::as_i64`: the integer of a JSON integer within `i64`, `None` for
/// larger integers, for fractions and for anything that is not a number.
#[verifier::external_body]
pub(crate) fn as_i64(v: &serde_json::Value) -> (r: Option<i64>)
    ensures
        r == json_of(*v).as_i64(),
{
    v.as_i64()
}

/// `Value::as_str`: the characters of a JSON string, `None` for anything else.
#[verifier::external_body]
pub(crate) fn as_str<'a>(v: &'a serde_json::Value) -> (r: Option<&'a str>)
    ensures
        match r {
            Some(s) => json_of(*v).as_str() == Some(s@),
            None => json_of(*v).as_str() is None,
        },
{
    v.as_str()
}

/// `Value::as_array`: the items of a JSON array, `None` for anything else.
#[verifier::external_body]
pub(crate) fn as_array<'a>(v: &'a serde_json::Value) -> (r: Option<&'a Vec<serde_json::Value>>)
    ensures
        match r {
            Some(items) => json_of(*v).as_array() == Some(json_seq(items@)),
            None => json_of(*v).as_array() is None,
        },
{
    v.as_array()
}

/// `Value::is_null`.
#[verifier::external_body]
pub(crate) fn is_null(v: &serde_json::Value) -> (r: bool)
    ensures
        r == (json_of(*v) is Null),
{
    v.is_null()
}

/// `Value::is_object`.
#[verifier::external_body]
pub(crate) fn is_object(v: &serde_json::Value) -> (r: bool)
    ensures
        r == (json_of(*v) is Object),
{
    v.is_object()
}

/// `Value::is_number`: true for integers and fractions alike.
#[verifier::external_body]
pub(crate) fn is_number(v: &serde_json::Value) -> (r: bool)
    ensures
        r == json_of(*v).is_number(),
{
    v.is_number()
}

/// `Value::clone`: a second value holding the same document.
pub assume_specification[ <serde_json::Value as Clone>::clone ](v: &serde_json::Value) -> (r:
    serde_json::Value)
    ensures
        json_of(r) == json_of(*v),
;

/// `Value::from(bool)`.
#[verifier::external_body]
pub(crate) fn boolean(b: bool) -> (r: serde_json::Value)
    ensures
        json_of(r) == Json::Bool(b),
{
    serde_json::Value::from(b)
}

/// `Value::from(i64)`: the JSON integer with that value.
#[verifier::external_body]
pub(crate) fn integer(i: i64) -> (r: serde_json::Value)
    ensures
        json_of(r) == Json::Int(i as int),
{
    serde_json::Value::from(i)
}

/// `Value::from(&str)`: the JSON string with those characters.
#[verifier::external_body]
pub(crate) fn string(s: &str) -> (r: serde_json::Value)
    ensures
        json_of(r) == Json::Str(s@),
{
    serde_json::Value::from(s)
}

/// `Value::Array`: the JSON array of the given items, in order.
#[verifier::external_body]
pub(crate) fn array(items: Vec<serde_json::Value>) -> (r: serde_json::Value)
    ensures
        json_of(r) == Json::Array(json_seq(items@)),
{
    serde_json::Value::Array(items)
}

/// `Value::Object` over `Map::new`: the object without members.
#[verifier::external_body]
pub(crate) fn empty_object() -> (r: serde_json::Value)
    ensures
        json_of(r) == Json::empty_object(),
{
    serde_json::Value::Object(serde_json::Map::new())
}

/// `Map::insert` on the map of an object: sets one member, replacing an
/// earlier one of the same key and leaving every other member as it was.
#[verifier::external_body]
pub(crate) fn set_member(object: &mut serde_json::Value, key: &str, value: serde_json::Value)
    requires
        json_of(*old(object)) is Object,
    ensures
        json_of(*final(object)) == json_of(*old(object)).with(key@, json_of(value)),
{
    if let Some(members) = object.as_object_mut() {
        members.insert(key.to_owned(), value);
    }
}

/// `serde_json::to_vec` at type `Value`: the compact text of the document.
///
/// It does not fail on a `Value`: the text goes into a vector, every key of
/// an object is a string, and no number is infinite or NaN. The compact form
/// has no line feed (byte 10) in it: it puts no white space between tokens
/// and writes every control character of a string as an escape.
#[verifier::external_body]
pub(crate) fn to_text(v: &serde_json::Value) -> (r: Result<Vec<u8>, serde_json::Error>)
    ensures
        r is Ok,
        r matches Ok(text) ==> text@ == json_text(json_of(*v)),
        r matches Ok(text) ==> !text@.contains(10u8),
{
    serde_json::to_vec(v)
}

/// `serde_json::from_slice` at type `Value`: the document a text denotes, or
/// an error for a text that is not one JSON document.
#[verifier::external_body]
pub(crate) fn from_text(text: &[u8]) -> (r: Result<serde_json::Value, serde_json::Error>)
    ensures
        match r {
            Ok(v) => json_parse(text@) == Some(json_of(v)),
            Err(_) => json_parse(text@) is None,
        },
{
    serde_json::from_slice(text)
}

} // verus!
