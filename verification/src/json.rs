//! JSON documents, as `serde_json` reads them.
//!
//! A document is parsed by `serde_json` and stays a `serde_json::Value`. What
//! such a value holds is not visible to the verifier; the functions of this
//! module are the only way in, and the contract of each names what the call
//! of `serde_json` behind it returns. None of these contracts is proved.

use vstd::prelude::*;

verus! {

/// The type `serde_json::Value`, carried through as it is.
#[verifier::external_type_specification]
#[verifier::external_body]
pub struct ExValue(serde_json::Value);

/// The type `serde_json::Error`, carried through as it is.
#[verifier::external_type_specification]
#[verifier::external_body]
pub struct ExError(serde_json::Error);

/// The value that `serde_json::from_str` reads from `text`; `None` where it
/// reports an error.
pub uninterp spec fn parsed(text: Seq<char>) -> Option<serde_json::Value>;

/// What `Value::get` finds in `value` under the string `key`: the member of
/// that name, where `value` is an object and has one.
pub uninterp spec fn member(value: serde_json::Value, key: Seq<char>) -> Option<serde_json::Value>;

/// What `Value::as_str` returns for `value`: its text, where it is a string.
pub uninterp spec fn text_of(value: serde_json::Value) -> Option<Seq<char>>;

/// What `Value::as_array` returns for `value`: its items in order, where it
/// is an array.
pub uninterp spec fn items_of(value: serde_json::Value) -> Option<Seq<serde_json::Value>>;

/// The keys that `Map::keys` walks for `value`, in the order of the walk,
/// where `Value::as_object` finds that `value` is an object.
pub uninterp spec fn keys_of(value: serde_json::Value) -> Option<Seq<Seq<char>>>;

/// The texts that a list of strings spells.
pub open spec fn texts(list: Seq<String>) -> Seq<Seq<char>> {
    Seq::new(list.len(), |i: int| list[i]@)
}

/// Calls `serde_json::from_str` for a `Value`. The contract says that the
/// result depends on the text alone: it is the value, or the failure, that
/// [`parsed`] names for this text.
#[verifier::external_body]
pub(crate) fn parse(text: &str) -> (r: Result<serde_json::Value, serde_json::Error>)
    ensures
        match r {
            Ok(value) => parsed(text@) == Some(value),
            Err(_) => parsed(text@) is None,
        },
{
    serde_json::from_str::<serde_json::Value>(text)
}

/// Calls `Value::get` with a string key. The contract names the result
/// [`member`].
#[verifier::external_body]
pub(crate) fn get<'a>(value: &'a serde_json::Value, key: &str) -> (r: Option<&'a serde_json::Value>)
    ensures
        match r {
            Some(found) => member(*value, key@) == Some(*found),
            None => member(*value, key@) is None,
        },
{
    value.get(key)
}

/// Calls `Value::as_str`. The contract names the result [`text_of`].
#[verifier::external_body]
pub(crate) fn as_str<'a>(value: &'a serde_json::Value) -> (r: Option<&'a str>)
    ensures
        match r {
            Some(text) => text_of(*value) == Some(text@),
            None => text_of(*value) is None,
        },
{
    value.as_str()
}

/// Calls `Value::as_array`. The contract names the result [`items_of`].
#[verifier::external_body]
pub(crate) fn as_array<'a>(value: &'a serde_json::Value) -> (r: Option<&'a Vec<serde_json::Value>>)
    ensures
        match r {
            Some(items) => items_of(*value) == Some(items@),
            None => items_of(*value) is None,
        },
{
    value.as_array()
}

/// Calls `Value::as_object` and, on the map it finds, `Map::keys`; the keys
/// are copied out in the order in which they come. The contract names the
/// result [`keys_of`].
#[verifier::external_body]
pub(crate) fn keys(value: &serde_json::Value) -> (r: Option<Vec<String>>)
    ensures
        match r {
            Some(list) => keys_of(*value) == Some(texts(list@)),
            None => keys_of(*value) is None,
        },
{
    value.as_object().map(|object| object.keys().cloned().collect())
}

} // verus!
