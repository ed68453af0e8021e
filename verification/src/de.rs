//! Reading single values out of a JSON document.

use crate::decimal::Decimal;
use crate::json::Json;
use crate::text::parse_u64;
use crate::text::u64_of_text;
use vstd::prelude::*;

verus! {

/// The amount that a JSON value holds. The exchange writes an amount as a
/// string or as a number; either way its text is what is read.
pub open spec fn decimal_of(value: Json) -> Option<Decimal> {
    match value {
        Json::Text(text) => Decimal::of_text(text@),
        Json::Number(text) => Decimal::of_text(text@),
        _ => None,
    }
}

/// The characters of a JSON string.
pub open spec fn text_of(value: Json) -> Option<Seq<char>> {
    match value {
        Json::Text(text) => Some(text@),
        _ => None,
    }
}

/// The `u64` that a JSON number holds: a number written with digits only.
pub open spec fn u64_of(value: Json) -> Option<u64> {
    match value {
        Json::Number(text) => u64_of_text(text@),
        _ => None,
    }
}

/// The amount in the member `key` of `doc`.
pub open spec fn decimal_member(doc: Json, key: Seq<char>) -> Option<Decimal> {
    match doc.member(key) {
        Some(value) => decimal_of(value),
        None => None,
    }
}

/// The string in the member `key` of `doc`.
pub open spec fn text_member(doc: Json, key: Seq<char>) -> Option<Seq<char>> {
    match doc.member(key) {
        Some(value) => text_of(value),
        None => None,
    }
}

/// The `u64` in the member `key` of `doc`.
pub open spec fn u64_member(doc: Json, key: Seq<char>) -> Option<u64> {
    match doc.member(key) {
        Some(value) => u64_of(value),
        None => None,
    }
}

/// Reads an amount from a JSON string or a JSON number.
pub fn deserialize_big_decimal(value: &Json) -> (r: Option<Decimal>)
    ensures
        r == decimal_of(*value),
{
    match value {
        Json::Text(text) => Decimal::parse(text.as_str()),
        Json::Number(text) => Decimal::parse(text.as_str()),
        _ => None,
    }
}

/// Reads a string.
pub fn deserialize_string(value: &Json) -> (r: Option<String>)
    ensures
        match r {
            Some(text) => text_of(*value) == Some(text@),
            None => text_of(*value) is None,
        },
{
    match value {
        Json::Text(text) => Some(text.clone()),
        _ => None,
    }
}

/// Reads a `u64`.
pub fn deserialize_u64(value: &Json) -> (r: Option<u64>)
    ensures
        r == u64_of(*value),
{
    match value {
        Json::Number(text) => parse_u64(text.as_str()),
        _ => None,
    }
}

/// Reads the amount in the member `key` of `doc`.
pub fn decimal_field(doc: &Json, key: &str) -> (r: Option<Decimal>)
    ensures
        r == decimal_member(*doc, key@),
{
    match doc.get(key) {
        Some(value) => deserialize_big_decimal(value),
        None => None,
    }
}

/// Reads the string in the member `key` of `doc`.
pub fn text_field(doc: &Json, key: &str) -> (r: Option<String>)
    ensures
        match r {
            Some(text) => text_member(*doc, key@) == Some(text@),
            None => text_member(*doc, key@) is None,
        },
{
    match doc.get(key) {
        Some(value) => deserialize_string(value),
        None => None,
    }
}

/// Reads the `u64` in the member `key` of `doc`.
pub fn u64_field(doc: &Json, key: &str) -> (r: Option<u64>)
    ensures
        r == u64_member(*doc, key@),
{
    match doc.get(key) {
        Some(value) => deserialize_u64(value),
        None => None,
    }
}

} // verus!
