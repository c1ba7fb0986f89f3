//! The JSON body of a create or update request: a document with required
//! string fields `name` and `email` and an optional integer `id`.
//!
//! JSON syntax is serde_json's work, reached through the trusted field
//! accessors below. Each accessor's result is a function of the body text
//! and the key alone, so it carries a name that the contracts above it
//! speak of exactly; the field requirements themselves are checked here, in
//! verified code.

use vstd::prelude::*;
use crate::parse::{get_body, spec_body};

verus! {

/// The value of the string member under `key` of the JSON document `s`:
/// `None` when `s` is no JSON document, when it has no such member, or when
/// the member is no string.
pub uninterp spec fn spec_field_str(s: Seq<char>, key: Seq<char>) -> Option<Seq<char>>;

/// Relies on serde_json::from_str::<Value>, Value::get and Value::as_str in
/// a row: the string member of a document, missing or non-string members
/// and unparseable text giving `None`. The outcome depends on the text and
/// the key alone.
#[verifier::external_body]
fn field_str(s: &str, key: &str) -> (r: Option<String>)
    ensures
        r matches Some(v) ==> spec_field_str(s@, key@) == Some(v@),
        r is None ==> spec_field_str(s@, key@) is None,
{
    match serde_json::from_str::<serde_json::Value>(s) {
        Ok(doc) => match doc.get(key) {
            Some(member) => match member.as_str() {
                Some(text) => Some(text.to_owned()),
                None => None,
            },
            None => None,
        },
        Err(_) => None,
    }
}

/// The value of the integer member under `key` of the JSON document `s`,
/// when it fits `i64`: `None` when `s` is no JSON document, when it has no
/// such member, or when the member is no such integer.
pub uninterp spec fn spec_field_int(s: Seq<char>, key: Seq<char>) -> Option<int>;

/// Relies on serde_json::from_str::<Value>, Value::get and Value::as_i64 in
/// a row: the integer member of a document, missing and non-integer members
/// (floats among them), integers beyond `i64` and unparseable text giving
/// `None`. The outcome depends on the text and the key alone.
#[verifier::external_body]
fn field_i64(s: &str, key: &str) -> (r: Option<i64>)
    ensures
        r matches Some(v) ==> spec_field_int(s@, key@) == Some(v as int),
        r is None ==> spec_field_int(s@, key@) is None,
{
    match serde_json::from_str::<serde_json::Value>(s) {
        Ok(doc) => match doc.get(key) {
            Some(member) => member.as_i64(),
            None => None,
        },
        Err(_) => None,
    }
}

/// Whether the JSON document `s` has no member under `key`, or a `null`
/// one: the two shapes that leave an optional field unset. False when `s`
/// is no JSON document.
pub uninterp spec fn spec_field_absent(s: Seq<char>, key: Seq<char>) -> bool;

/// Relies on serde_json::from_str::<Value>, Value::get and Value::is_null
/// in a row. The outcome depends on the text and the key alone.
#[verifier::external_body]
fn field_absent_or_null(s: &str, key: &str) -> (r: bool)
    ensures
        r == spec_field_absent(s@, key@),
{
    match serde_json::from_str::<serde_json::Value>(s) {
        Ok(doc) => match doc.get(key) {
            Some(member) => member.is_null(),
            None => true,
        },
        Err(_) => false,
    }
}

/// The user record of a request body. `id` is absent on create
/// (server-assigned) and ignored by update, whose id comes from the path.
#[derive(Debug, Clone, PartialEq, Eq)]
pub struct User {
    pub id: Option<i32>,
    pub name: String,
    pub email: String,
}

/// A well-formed body: a JSON document with string members `name` and
/// `email`, whose `id`, unless absent or `null`, is an integer that fits
/// `i32`. Anything else is a malformed body.
pub open spec fn spec_user_ok(s: Seq<char>) -> bool {
    &&& spec_field_str(s, "name"@) is Some
    &&& spec_field_str(s, "email"@) is Some
    &&& (spec_field_absent(s, "id"@) || (spec_field_int(s, "id"@) matches Some(n)
        && -0x8000_0000 <= n <= 0x7FFF_FFFF))
}

/// The user record of a request: the body (everything after the last
/// header/body separator) deserialized. `None` is the malformed-body case,
/// exactly when the body is not well-formed; a returned record carries
/// exactly the body's field values.
pub fn get_user_request_body(request: &str) -> (r: Option<User>)
    ensures
        r is Some <==> spec_user_ok(spec_body(request@)),
        r matches Some(u) ==> ({
            let b = spec_body(request@);
            &&& spec_field_str(b, "name"@) == Some(u.name@)
            &&& spec_field_str(b, "email"@) == Some(u.email@)
            &&& (u.id matches Some(i) ==> !spec_field_absent(b, "id"@) && spec_field_int(b, "id"@)
                == Some(i as int))
            &&& (u.id is None ==> spec_field_absent(b, "id"@))
        }),
{
    let body = get_body(request);
    let name = match field_str(body, "name") {
        Some(text) => text,
        None => {
            return None;
        },
    };
    let email = match field_str(body, "email") {
        Some(text) => text,
        None => {
            return None;
        },
    };
    let id: Option<i32> = if field_absent_or_null(body, "id") {
        None
    } else {
        match field_i64(body, "id") {
            Some(n) => {
                if n < -0x8000_0000i64 || n > 0x7FFF_FFFFi64 {
                    return None;
                }
                Some(n as i32)
            },
            None => {
                return None;
            },
        }
    };
    Some(User { id, name, email })
}

} // verus!
