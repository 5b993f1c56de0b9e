//! What a response in JSON holds, read with `serde_json`.
//!
//! The library reads three things from a JSON text: the text itself where it
//! is one JSON string, and a named member of its top-level object as a string
//! or as an unsigned integer. Each is read by one function here, which Verus
//! takes on trust; what `serde_json` answers is given a name, so that the
//! contracts of the decoders can say which answer goes where.

use vstd::prelude::*;

verus! {

/// The string that `body` is as a JSON text: what `Value::as_str` gives of
/// the value that `serde_json::from_str` reads from `body`. It is nothing
/// where `body` is no JSON text, or a JSON text that is no string.
pub uninterp spec fn json_string(body: Seq<char>) -> Option<Seq<char>>;

/// The string that member `key` holds in the object that `body` is as a JSON
/// text: what `Value::get` and `Value::as_str` give of the value that
/// `serde_json::from_str` reads from `body`. It is nothing where `body` is no
/// JSON text or no object, where the object has no such member, or where the
/// member is no string.
pub uninterp spec fn json_string_member(body: Seq<char>, key: Seq<char>) -> Option<Seq<char>>;

/// The unsigned integer that member `key` holds in the object that `body`
/// is as a JSON text: what `Value::get` and `Value::as_u64` give of the value
/// that `serde_json::from_str` reads from `body`. It is nothing where `body`
/// is no JSON text or no object, where the object has no such member, or
/// where the member is no integer between 0 and 2^64 - 1.
pub uninterp spec fn json_unsigned_member(body: Seq<char>, key: Seq<char>) -> Option<u64>;

/// Reads `body` with `serde_json::from_str` into a `serde_json::Value` and
/// takes the value as a string with `Value::as_str`. The result is what these
/// calls return in turn, an error of the first turned into `None`.
#[verifier::external_body]
pub(crate) fn read_string(body: &str) -> (value: Option<String>)
    ensures
        value.deep_view() == json_string(body@),
{
    let document: serde_json::Value = serde_json::from_str(body).ok()?;
    document.as_str().map(str::to_owned)
}

/// Reads `body` with `serde_json::from_str` into a `serde_json::Value`, looks
/// member `key` up with `Value::get` and takes it as a string with
/// `Value::as_str`. The result is what these calls return in turn, an error
/// of the first turned into `None`.
#[verifier::external_body]
pub(crate) fn read_string_member(body: &str, key: &str) -> (value: Option<String>)
    ensures
        value.deep_view() == json_string_member(body@, key@),
{
    let document: serde_json::Value = serde_json::from_str(body).ok()?;
    document.get(key).and_then(serde_json::Value::as_str).map(str::to_owned)
}

/// Reads `body` with `serde_json::from_str` into a `serde_json::Value`, looks
/// member `key` up with `Value::get` and takes it as an unsigned integer with
/// `Value::as_u64`. The result is what these calls return in turn, an error
/// of the first turned into `None`.
#[verifier::external_body]
pub(crate) fn read_unsigned_member(body: &str, key: &str) -> (value: Option<u64>)
    ensures
        value == json_unsigned_member(body@, key@),
{
    let document: serde_json::Value = serde_json::from_str(body).ok()?;
    document.get(key).and_then(serde_json::Value::as_u64)
}

} // verus!
