//! The calls into outside crates that the library makes: a fresh random
//! identifier and the current time, whose results depend on chance and on
//! the clock, so that their contracts state the shape every outcome has;
//! the reading of JSON text and std's quoted form of a string, whose
//! results are named.
use vstd::prelude::*;
use crate::json::{Json, JsonNumber, JsonV};
use serde_json::Value;

verus! {

/// A lowercase hexadecimal digit.
pub open spec fn is_lower_hex(c: char) -> bool {
    ('0' <= c && c <= '9') || ('a' <= c && c <= 'f')
}

/// The textual form of a random (version 4, RFC 4122 variant) UUID:
/// 36 characters, hyphens at 8, 13, 18 and 23, the version digit `4` at 14,
/// a variant digit `8`, `9`, `a` or `b` at 19, lowercase hex elsewhere.
pub open spec fn is_uuid_v4_text(s: Seq<char>) -> bool {
    &&& s.len() == 36
    &&& forall|i: int|
        0 <= i < 36 && i != 8 && i != 13 && i != 18 && i != 23 ==> is_lower_hex(#[trigger] s[i])
    &&& s[8] == '-' && s[13] == '-' && s[18] == '-' && s[23] == '-'
    &&& s[14] == '4'
    &&& (s[19] == '8' || s[19] == '9' || s[19] == 'a' || s[19] == 'b')
}

/// An RFC 3339 time written in UTC: it ends with the offset `+00:00`.
pub open spec fn is_utc_rfc3339_text(t: Seq<char>) -> bool {
    t.len() >= 6 && t.subrange(t.len() - 6, t.len() as int) == "+00:00"@
}

/// A fresh identifier: `uuid::Uuid::new_v4()` written with `to_string()`.
///
/// The uuid crate masks a random 128-bit number with the version and variant
/// bits and writes it in the hyphenated lowercase form; the contract claims
/// exactly that shape. Which identifier comes out is chance and is not stated;
/// two calls may return the same text as far as the contract goes. The crate
/// panics only when the system's random source fails.
#[verifier::external_body]
pub(crate) fn new_uuid() -> (r: String)
    ensures
        is_uuid_v4_text(r@),
{
    uuid::Uuid::new_v4().to_string()
}

/// The current time: `chrono::Utc::now()` written with `to_rfc3339()`.
///
/// chrono writes a UTC time with the offset `+00:00` at its end; the
/// contract claims only that suffix. The time itself is not stated. chrono
/// panics if the system clock stands before the Unix epoch.
#[verifier::external_body]
pub(crate) fn now_rfc3339() -> (r: String)
    ensures
        is_utc_rfc3339_text(r@),
{
    chrono::Utc::now().to_rfc3339()
}

/// A JSON value as `serde_json` holds it.
#[verifier::external_type_specification]
#[verifier::external_body]
pub struct ExJsonValue(serde_json::Value);

/// The value that a JSON text holds, as `serde_json` reads it; `None` when
/// the text is not JSON.
pub uninterp spec fn json_text_value(t: Seq<char>) -> Option<JsonV>;

/// The library's value of a `serde_json` value, member by member: integers
/// that fit `u64` or `i64` stay integers, other numbers keep their text.
#[verifier::external_body]
fn json_of_value(v: &Value) -> Json {
    match v {
        Value::Null => Json::Null,
        Value::Bool(b) => Json::Bool(*b),
        Value::Number(n) => Json::Number(match (n.as_u64(), n.as_i64()) {
            (Some(u), _) => JsonNumber::PosInt(u),
            (None, Some(i)) => JsonNumber::NegInt(i),
            _ => JsonNumber::Float(n.to_string()),
        }),
        Value::String(s) => Json::Str(s.clone()),
        Value::Array(a) => Json::Array(a.iter().map(json_of_value).collect()),
        Value::Object(m) => Json::Object(m.iter().map(|(k, x)| (k.clone(), json_of_value(x))).collect()),
    }
}

/// Reads a JSON text: `serde_json::from_str::<serde_json::Value>`, then the
/// value converted member by member.
///
/// The contract names the result: the same text always reads to the same
/// value, and `None` exactly when `serde_json` refuses the text. What value a
/// text reads to (serde_json's grammar, its handling of repeated keys and of
/// numbers) is not stated.
#[verifier::external_body]
pub(crate) fn parse_json_text(t: &str) -> (r: Option<Json>)
    ensures
        match r {
            Some(j) => json_text_value(t@) == Some(j@),
            None => json_text_value(t@) is None,
        },
{
    match serde_json::from_str::<serde_json::Value>(t) {
        Ok(v) => Some(json_of_value(&v)),
        Err(_) => None,
    }
}

/// How std writes a string with `{:?}`: in double quotes, with quotes,
/// backslashes and characters that do not print escaped.
pub uninterp spec fn debug_quoted_text(s: Seq<char>) -> Seq<char>;

/// A string as `format!("{:?}", s)` writes it.
///
/// The contract names the result: the same string is always written the
/// same way. Which characters std escapes, and how, is not stated.
#[verifier::external_body]
pub(crate) fn debug_quoted(s: &str) -> (r: String)
    ensures
        r@ == debug_quoted_text(s@),
{
    format!("{:?}", s)
}

} // verus!
