//! Typed reads of the optional members of a packet body.
//!
//! A request body is an object whose members are all optional. A member that
//! is missing or `null` is absent; a member of the expected type is present;
//! a member of any other type makes the whole body malformed.

use vstd::prelude::*;
use crate::error::ProtocolError;
use crate::json::{as_bool, as_i64, as_str, is_null, is_number, json_of, member, Json};
use crate::text::joined;

verus! {

/// What is said of a member that is there but not of the type asked for.
pub const MISTYPED: &'static str = "body member has the wrong type";

/// What is said of a body that is no object at all.
pub const NOT_AN_OBJECT: &'static str = "not an object";

/// Why a body that is not a well-typed request is refused.
pub open spec fn reason(body: Json) -> Seq<char> {
    if body is Object {
        MISTYPED@
    } else {
        NOT_AN_OBJECT@
    }
}

/// `e` reports that `body` could not be parsed: it is a malformed-packet
/// error whose message is `prefix` followed by the reason, and so begins with
/// `prefix`.
pub open spec fn parse_failure(e: ProtocolError, prefix: Seq<char>, body: Json) -> bool {
    &&& e is MalformedPacket
    &&& e.message() == prefix + reason(body)
    &&& prefix.is_prefix_of(e.message())
}

/// The error for a body that is no object.
pub fn not_an_object() -> (e: ProtocolError)
    ensures
        e is MalformedPacket,
        e.message() == NOT_AN_OBJECT@,
{
    ProtocolError::MalformedPacket(NOT_AN_OBJECT.to_owned())
}

/// The malformed-packet error that says what `e` says, after `prefix`.
pub fn prefixed(prefix: &str, e: ProtocolError) -> (r: ProtocolError)
    ensures
        r is MalformedPacket,
        r.message() == prefix@ + e.message(),
        prefix@.is_prefix_of(r.message()),
{
    let message = match e {
        ProtocolError::MalformedPacket(m) => joined(prefix, m.as_str()),
        ProtocolError::Transport(m) => joined(prefix, m.as_str()),
        ProtocolError::Plugin(m) => joined(prefix, m.as_str()),
        ProtocolError::Transfer(m) => joined(prefix, m.as_str()),
        _ => joined(prefix, ""),
    };
    proof {
        reveal_strlit("");
        assert(message@ =~= prefix@ + e.message());
        assert(prefix@ =~= (prefix@ + e.message()).subrange(0, prefix@.len() as int));
    }
    ProtocolError::MalformedPacket(message)
}

/// An optional boolean member: `None` where the member has another type.
pub open spec fn opt_bool(body: Json, key: Seq<char>) -> Option<Option<bool>> {
    match body.member(key) {
        None => Some(None),
        Some(Json::Null) => Some(None),
        Some(Json::Bool(b)) => Some(Some(b)),
        Some(_) => None,
    }
}

/// A boolean member that counts as `false` when missing. Unlike an optional
/// member it may not be `null`.
pub open spec fn bool_or_false(body: Json, key: Seq<char>) -> Option<bool> {
    match body.member(key) {
        None => Some(false),
        Some(Json::Bool(b)) => Some(b),
        Some(_) => None,
    }
}

/// An optional integer member that must fit in 32 bits.
pub open spec fn opt_i32(body: Json, key: Seq<char>) -> Option<Option<i32>> {
    match body.member(key) {
        None => Some(None),
        Some(Json::Null) => Some(None),
        Some(Json::Int(i)) => if i32::MIN <= i <= i32::MAX {
            Some(Some(i as i32))
        } else {
            None
        },
        Some(_) => None,
    }
}

/// An optional string member.
pub open spec fn opt_str(body: Json, key: Seq<char>) -> Option<Option<Seq<char>>> {
    match body.member(key) {
        None => Some(None),
        Some(Json::Null) => Some(None),
        Some(Json::Str(s)) => Some(Some(s)),
        Some(_) => None,
    }
}

/// An optional numeric member, integer or not, kept as the JSON it came as.
pub open spec fn opt_number(body: Json, key: Seq<char>) -> Option<Option<Json>> {
    match body.member(key) {
        None => Some(None),
        Some(Json::Null) => Some(None),
        Some(j) => if j.is_number() {
            Some(Some(j))
        } else {
            None
        },
    }
}

/// The error for a member that is there but not of the type asked for.
fn mistyped() -> (e: ProtocolError)
    ensures
        e is MalformedPacket,
        e.message() == MISTYPED@,
{
    ProtocolError::MalformedPacket(MISTYPED.to_owned())
}

/// Reads an optional boolean member.
pub fn read_bool(body: &serde_json::Value, key: &str) -> (r: Result<Option<bool>, ProtocolError>)
    ensures
        match opt_bool(json_of(*body), key@) {
            Some(value) => r == Ok::<Option<bool>, ProtocolError>(value),
            None => r matches Err(e) && e is MalformedPacket && e.message() == MISTYPED@,
        },
{
    match member(body, key) {
        None => Ok(None),
        Some(found) => match as_bool(found) {
            Some(b) => Ok(Some(b)),
            None => if is_null(found) {
                Ok(None)
            } else {
                Err(mistyped())
            },
        },
    }
}

/// Reads a boolean member that defaults to `false`.
pub fn read_flag(body: &serde_json::Value, key: &str) -> (r: Result<bool, ProtocolError>)
    ensures
        match bool_or_false(json_of(*body), key@) {
            Some(value) => r == Ok::<bool, ProtocolError>(value),
            None => r matches Err(e) && e is MalformedPacket && e.message() == MISTYPED@,
        },
{
    match member(body, key) {
        None => Ok(false),
        Some(found) => match as_bool(found) {
            Some(b) => Ok(b),
            None => Err(mistyped()),
        },
    }
}

/// Reads an optional 32-bit integer member.
pub fn read_i32(body: &serde_json::Value, key: &str) -> (r: Result<Option<i32>, ProtocolError>)
    ensures
        match opt_i32(json_of(*body), key@) {
            Some(value) => r == Ok::<Option<i32>, ProtocolError>(value),
            None => r matches Err(e) && e is MalformedPacket && e.message() == MISTYPED@,
        },
{
    match member(body, key) {
        None => Ok(None),
        Some(found) => match as_i64(found) {
            Some(i) => if -2147483648 <= i && i <= 2147483647 {
                Ok(Some(i as i32))
            } else {
                Err(mistyped())
            },
            None => if is_null(found) {
                Ok(None)
            } else {
                Err(mistyped())
            },
        },
    }
}

/// Reads an optional string member.
pub fn read_str(body: &serde_json::Value, key: &str) -> (r: Result<Option<String>, ProtocolError>)
    ensures
        match opt_str(json_of(*body), key@) {
            Some(Some(s)) => r matches Ok(Some(text)) && text@ == s,
            Some(None) => r matches Ok(None),
            None => r matches Err(e) && e is MalformedPacket && e.message() == MISTYPED@,
        },
{
    match member(body, key) {
        None => Ok(None),
        Some(found) => match as_str(found) {
            Some(s) => Ok(Some(s.to_owned())),
            None => if is_null(found) {
                Ok(None)
            } else {
                Err(mistyped())
            },
        },
    }
}

/// Reads an optional numeric member without converting it.
pub fn read_number(body: &serde_json::Value, key: &str) -> (r: Result<
    Option<serde_json::Value>,
    ProtocolError,
>)
    ensures
        match opt_number(json_of(*body), key@) {
            Some(Some(j)) => r matches Ok(Some(v)) && json_of(v) == j,
            Some(None) => r matches Ok(None),
            None => r matches Err(e) && e is MalformedPacket && e.message() == MISTYPED@,
        },
{
    match member(body, key) {
        None => Ok(None),
        Some(found) => if is_number(found) {
            Ok(Some(found.clone()))
        } else if is_null(found) {
            Ok(None)
        } else {
            Err(mistyped())
        },
    }
}

} // verus!
