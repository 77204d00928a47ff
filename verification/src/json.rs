//! JSON documents, parsed and held by `serde_json`.
//!
//! The functions marked `external_body` are the boundary to `serde_json`:
//! their contracts are taken from that crate's source and are not proved
//! here. Everything else is verified against them.

use vstd::prelude::*;

verus! {

/// `serde_json::Value`, taken as opaque: what a value holds is known only
/// through `document` and the functions below.
#[verifier::external_type_specification]
#[verifier::external_body]
pub struct ExValue(serde_json::Value);

/// Mathematical model of a JSON document.
pub enum Json {
    Null,
    Bool(bool),
    /// A number that is held as a 64-bit integer, signed or unsigned.
    Integer(int),
    /// Any other number.
    Inexact,
    Text(Seq<char>),
    Array(Seq<Json>),
    Object(Map<Seq<char>, Json>),
}

/// The document that a `serde_json::Value` holds.
pub uninterp spec fn document(value: serde_json::Value) -> Json;

/// The outcome of parsing a text as JSON: the document, or the parser's
/// description of the fault it stopped at.
pub uninterp spec fn parsed(text: Seq<char>) -> Result<Json, Seq<char>>;

/// The documents that a list of values holds, in order.
pub open spec fn documents(values: Seq<serde_json::Value>) -> Seq<Json> {
    Seq::new(values.len(), |i: int| document(values[i]))
}

/// The member of an object under a key, where there is one that is not
/// `null`. Anything but an object has no members.
pub open spec fn present(doc: Json, key: Seq<char>) -> Option<Json> {
    match doc {
        Json::Object(members) => if members.contains_key(key) && !(members[key] is Null) {
            Some(members[key])
        } else {
            None
        },
        _ => None,
    }
}

/// An optional member that has to be a string.
pub open spec fn text_member(doc: Json, key: Seq<char>) -> Result<Option<Seq<char>>, ()> {
    match present(doc, key) {
        None => Ok(None),
        Some(Json::Text(text)) => Ok(Some(text)),
        Some(_) => Err(()),
    }
}

/// An optional member that has to be an integer in the range of `i64`.
pub open spec fn integer_member(doc: Json, key: Seq<char>) -> Result<Option<i64>, ()> {
    match present(doc, key) {
        None => Ok(None),
        Some(Json::Integer(n)) => if i64::MIN <= n <= i64::MAX {
            Ok(Some(n as i64))
        } else {
            Err(())
        },
        Some(_) => Err(()),
    }
}

/// `serde_json::from_str` at type `Value`, with the error rendered by its
/// `Display` impl. Parsing reads nothing but the text, so the outcome is a
/// function of it.
#[verifier::external_body]
pub(crate) fn parse(text: &str) -> (r: Result<serde_json::Value, String>)
    ensures
        match r {
            Ok(value) => parsed(text@) == Ok::<Json, Seq<char>>(document(value)),
            Err(fault) => parsed(text@) == Err::<Json, Seq<char>>(fault@),
        },
{
    serde_json::from_str::<serde_json::Value>(text).map_err(|e| e.to_string())
}

/// `Value::is_object`.
#[verifier::external_body]
pub(crate) fn is_object(value: &serde_json::Value) -> (r: bool)
    ensures
        r == (document(*value) is Object),
{
    value.is_object()
}

/// `Value::is_null`.
#[verifier::external_body]
pub(crate) fn is_null(value: &serde_json::Value) -> (r: bool)
    ensures
        r == (document(*value) is Null),
{
    value.is_null()
}

/// `Value::get` with a string key: the member under that key if the value
/// is an object that has one, and nothing otherwise.
#[verifier::external_body]
pub(crate) fn member<'a>(value: &'a serde_json::Value, key: &str) -> (r: Option<
    &'a serde_json::Value,
>)
    ensures
        match r {
            Some(found) => document(*value) matches Json::Object(members) && members.contains_key(
                key@,
            ) && document(*found) == members[key@],
            None => !(document(*value) matches Json::Object(members) && members.contains_key(
                key@,
            )),
        },
{
    value.get(key)
}

/// `Value::as_str`: the text of a string, nothing for any other value.
#[verifier::external_body]
pub(crate) fn as_text<'a>(value: &'a serde_json::Value) -> (r: Option<&'a str>)
    ensures
        match r {
            Some(text) => document(*value) == Json::Text(text@),
            None => !(document(*value) is Text),
        },
{
    value.as_str()
}

/// `Value::as_i64`: the number if it is an integer in the range of `i64`,
/// nothing for any other value.
#[verifier::external_body]
pub(crate) fn as_integer(value: &serde_json::Value) -> (r: Option<i64>)
    ensures
        match r {
            Some(n) => document(*value) == Json::Integer(n as int),
            None => !(document(*value) matches Json::Integer(n) && i64::MIN <= n <= i64::MAX),
        },
{
    value.as_i64()
}

/// `Value::as_array`: the elements of an array, nothing for any other value.
#[verifier::external_body]
pub(crate) fn as_items<'a>(value: &'a serde_json::Value) -> (r: Option<&'a Vec<serde_json::Value>>)
    ensures
        match r {
            Some(items) => document(*value) == Json::Array(documents(items@)),
            None => !(document(*value) is Array),
        },
{
    value.as_array()
}

/// Looks up a member and treats `null` like an absent one.
pub fn read_member<'a>(value: &'a serde_json::Value, key: &str) -> (r: Option<
    &'a serde_json::Value,
>)
    ensures
        match r {
            Some(found) => present(document(*value), key@) == Some(document(*found)),
            None => present(document(*value), key@) is None,
        },
{
    match member(value, key) {
        Some(found) => if is_null(found) {
            None
        } else {
            Some(found)
        },
        None => None,
    }
}

/// Reads an optional string member.
pub fn read_text(value: &serde_json::Value, key: &str) -> (r: Result<Option<String>, ()>)
    ensures
        match r {
            Ok(Some(text)) => text_member(document(*value), key@) == Ok::<_, ()>(Some(text@)),
            Ok(None) => text_member(document(*value), key@) == Ok::<_, ()>(None::<Seq<char>>),
            Err(_) => text_member(document(*value), key@) is Err,
        },
{
    match read_member(value, key) {
        None => Ok(None),
        Some(found) => match as_text(found) {
            Some(text) => Ok(Some(text.to_owned())),
            None => Err(()),
        },
    }
}

/// Reads an optional integer member.
pub fn read_integer(value: &serde_json::Value, key: &str) -> (r: Result<Option<i64>, ()>)
    ensures
        r == integer_member(document(*value), key@),
{
    match read_member(value, key) {
        None => Ok(None),
        Some(found) => match as_integer(found) {
            Some(n) => Ok(Some(n)),
            None => Err(()),
        },
    }
}

} // verus!
