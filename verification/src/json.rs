//! The JSON values of `serde_json`, as far as the gateway's envelopes need
//! them.
//!
//! Nothing in this file is proved: each function hands its arguments to
//! `serde_json` and states what that crate's documentation and source say of
//! the result. The rest of the library reads JSON through [`json_shape`], and
//! knows the values it writes by the names given here.
use vstd::prelude::*;

verus! {

/// A JSON value of `serde_json`.
#[verifier::external_type_specification]
#[verifier::external_body]
pub struct ExValue(serde_json::Value);

/// The error with which `serde_json` refuses a text or a value.
#[verifier::external_type_specification]
#[verifier::external_body]
pub struct ExJsonError(serde_json::Error);

/// What a JSON value is, one level deep: the members of an object and the
/// items of an array are values themselves.
pub enum JsonShape {
    Null,
    Bool(bool),
    /// A number; the integer itself where it lies between zero and `u64::MAX`.
    Number(Option<u64>),
    Text(Seq<char>),
    List(Seq<serde_json::Value>),
    Object(Map<Seq<char>, serde_json::Value>),
}

/// The shape of a `serde_json::Value`: its variant, and what the accessors
/// `is_null`, `as_u64`, `as_str`, `as_array` and `get` find in it.
pub uninterp spec fn json_shape(value: serde_json::Value) -> JsonShape;

/// The value that `serde_json::from_str` reads from a text, or `None` where it
/// reports an error.
pub uninterp spec fn json_parsed(text: Seq<char>) -> Option<serde_json::Value>;

/// The text that `serde_json::to_string` writes for a value.
pub uninterp spec fn json_rendered(value: serde_json::Value) -> Seq<char>;

/// The value that `Value::from` makes of a number that may be missing.
pub uninterp spec fn json_number(n: Option<u64>) -> serde_json::Value;

/// The value that `Value::from` makes of a text that may be missing.
pub uninterp spec fn json_text(text: Option<Seq<char>>) -> serde_json::Value;

/// The value that `Value::from` makes of a vector of values.
pub uninterp spec fn json_list(items: Seq<serde_json::Value>) -> serde_json::Value;

/// The value that `Map::from_iter` and `Value::from` make of a list of
/// entries, each a key and a value.
pub uninterp spec fn json_object(entries: Seq<(Seq<char>, serde_json::Value)>) -> serde_json::Value;

/// The member of an object under a key, if the value is an object and has one.
pub open spec fn json_member(value: serde_json::Value, key: Seq<char>) -> Option<
    serde_json::Value,
> {
    match json_shape(value) {
        JsonShape::Object(members) => if members.contains_key(key) {
            Some(members[key])
        } else {
            None
        },
        _ => None,
    }
}

/// A list of entries with the text of each key in place of the key.
pub open spec fn keyed(entries: Seq<(String, serde_json::Value)>) -> Seq<
    (Seq<char>, serde_json::Value),
> {
    entries.map_values(|entry: (String, serde_json::Value)| (entry.0@, entry.1))
}

/// The map that holds each entry of a list under its key.
pub open spec fn members_of(entries: Seq<(Seq<char>, serde_json::Value)>) -> Map<
    Seq<char>,
    serde_json::Value,
>
    decreases entries.len(),
{
    if entries.len() == 0 {
        Map::empty()
    } else {
        members_of(entries.drop_last()).insert(entries.last().0, entries.last().1)
    }
}

/// Whether no two entries of a list share a key.
pub open spec fn distinct_keys(entries: Seq<(Seq<char>, serde_json::Value)>) -> bool {
    forall|i: int, j: int|
        0 <= i < j < entries.len() ==> (#[trigger] entries[i]).0 != (#[trigger] entries[j]).0
}

/// `Value::clone`, which `derive` wrote: the copy is the same value.
pub assume_specification[ <serde_json::Value as Clone>::clone ](
    value: &serde_json::Value,
) -> (res: serde_json::Value)
    ensures
        res == *value,
;

/// `serde_json::from_str` at the type `Value`: parses a whole text as one JSON
/// value. The same text always gives the same outcome, which [`json_parsed`]
/// names.
#[verifier::external_body]
pub(crate) fn parse_value(text: &str) -> (res: Result<serde_json::Value, serde_json::Error>)
    ensures
        match res {
            Ok(value) => json_parsed(text@) == Some(value),
            Err(_) => json_parsed(text@) is None,
        },
{
    serde_json::from_str::<serde_json::Value>(text)
}

/// `serde_json::to_string` on a `Value`: the compact JSON text of the value,
/// which [`json_rendered`] names. It does not fail on a `Value`: the text is
/// written into memory, every key of an object is a string, and every number
/// is finite.
#[verifier::external_body]
pub(crate) fn render_value(value: &serde_json::Value) -> (res: Result<String, serde_json::Error>)
    ensures
        res is Ok,
        res matches Ok(text) ==> text@ == json_rendered(*value),
{
    serde_json::to_string(value)
}

/// `Value::get` with a string key: the member of an object under that key;
/// `None` where the value is no object or has no such member.
#[verifier::external_body]
pub(crate) fn value_get<'a>(value: &'a serde_json::Value, key: &str) -> (res: Option<
    &'a serde_json::Value,
>)
    ensures
        match res {
            Some(member) => json_member(*value, key@) == Some(*member),
            None => json_member(*value, key@) is None,
        },
{
    value.get(key)
}

/// `Value::is_null`: whether the value is JSON's `null`.
#[verifier::external_body]
pub(crate) fn value_is_null(value: &serde_json::Value) -> (res: bool)
    ensures
        res == (json_shape(*value) is Null),
{
    value.is_null()
}

/// `Value::as_u64`: the integer, where the value is a number that is an
/// integer between zero and `u64::MAX`.
#[verifier::external_body]
pub(crate) fn value_as_u64(value: &serde_json::Value) -> (res: Option<u64>)
    ensures
        res == match json_shape(*value) {
            JsonShape::Number(n) => n,
            _ => None,
        },
{
    value.as_u64()
}

/// `Value::as_str`: the text, where the value is a string.
#[verifier::external_body]
pub(crate) fn value_as_str<'a>(value: &'a serde_json::Value) -> (res: Option<&'a str>)
    ensures
        match res {
            Some(text) => json_shape(*value) == JsonShape::Text(text@),
            None => !(json_shape(*value) is Text),
        },
{
    value.as_str()
}

/// `Value::as_array`: the items, where the value is an array.
#[verifier::external_body]
pub(crate) fn value_as_array<'a>(value: &'a serde_json::Value) -> (res: Option<
    &'a Vec<serde_json::Value>,
>)
    ensures
        match res {
            Some(items) => json_shape(*value) == JsonShape::List(items@),
            None => !(json_shape(*value) is List),
        },
{
    value.as_array()
}

/// `Value::from` on an `Option<u64>`: the number with that value, or `null`
/// where there is none. The same number always gives the same value, which
/// [`json_number`] names.
#[verifier::external_body]
pub(crate) fn value_from_number(n: Option<u64>) -> (res: serde_json::Value)
    ensures
        res == json_number(n),
        json_shape(res) == match n {
            Some(n) => JsonShape::Number(Some(n)),
            None => JsonShape::Null,
        },
{
    serde_json::Value::from(n)
}

/// `Value::from` on an `Option<String>`: the string with that text, or
/// `null` where there is none. The same text always gives the same value,
/// which [`json_text`] names.
#[verifier::external_body]
pub(crate) fn value_from_text(text: Option<String>) -> (res: serde_json::Value)
    ensures
        res == json_text(
            match text {
                Some(text) => Some(text@),
                None => None,
            },
        ),
        json_shape(res) == match text {
            Some(text) => JsonShape::Text(text@),
            None => JsonShape::Null,
        },
{
    serde_json::Value::from(text)
}

/// `Value::from` on a `Vec<Value>`: the array of those items, in their order.
/// The same items always give the same value, which [`json_list`] names.
#[verifier::external_body]
pub(crate) fn value_from_items(items: Vec<serde_json::Value>) -> (res: serde_json::Value)
    ensures
        res == json_list(items@),
        json_shape(res) == JsonShape::List(items@),
{
    serde_json::Value::from(items)
}

/// `Map::from_iter`, then `Value::from`: the object that holds each entry
/// under its key, in the order of the entries. Only asked for entries with
/// distinct keys. The same entries always give the same value, which
/// [`json_object`] names.
#[verifier::external_body]
pub(crate) fn value_from_entries(entries: Vec<(String, serde_json::Value)>) -> (res:
    serde_json::Value)
    requires
        distinct_keys(keyed(entries@)),
    ensures
        res == json_object(keyed(entries@)),
        json_shape(res) == JsonShape::Object(members_of(keyed(entries@))),
{
    serde_json::Value::from(serde_json::Map::from_iter(entries))
}

} // verus!
