//! JSON documents, read through serde_json.
use vstd::prelude::*;

verus! {

/// What a JSON value holds. A number is kept as the `i64` it denotes, where
/// it denotes one: that is all the library reads of numbers.
pub enum JsonData {
    Null,
    Bool(bool),
    Number(Option<i64>),
    Text(Seq<char>),
    List(Seq<JsonData>),
    Object(Map<Seq<char>, JsonData>),
}

/// serde_json's JSON value, opaque here: its contents are `json_data`.
#[verifier::external_type_specification]
#[verifier::external_body]
pub struct ExValue(serde_json::Value);

/// serde_json's error, carried through unread.
#[verifier::external_type_specification]
#[verifier::external_body]
pub struct ExError(serde_json::Error);

/// The contents of a `serde_json::Value`.
pub uninterp spec fn json_data(v: serde_json::Value) -> JsonData;

/// The value that serde_json reads from `text`, or `None` where `text` is not
/// a JSON document.
pub uninterp spec fn parsed_json(text: Seq<char>) -> Option<JsonData>;

/// Relies on `serde_json::from_str`, reading a whole document as a `Value`.
#[verifier::external_body]
pub(crate) fn parse_value(text: &str) -> (r: Result<serde_json::Value, serde_json::Error>)
    ensures
        r is Ok <==> parsed_json(text@) is Some,
        r matches Ok(v) ==> parsed_json(text@) == Some(json_data(v)),
{
    serde_json::from_str::<serde_json::Value>(text)
}

/// Relies on `serde_json::Value::get` with a string key: the member of an
/// object under that key, and `None` for a missing key or a value that is not
/// an object.
#[verifier::external_body]
pub(crate) fn member<'a>(v: &'a serde_json::Value, key: &str) -> (r: Option<&'a serde_json::Value>)
    ensures
        r is Some <==> (json_data(*v) matches JsonData::Object(o) && o.contains_key(key@)),
        r matches Some(x) ==> json_data(*v)->Object_0[key@] == json_data(*x),
{
    v.get(key)
}

/// Relies on `serde_json::Value::as_str`: the text of a string value.
pub assume_specification<'a>[ serde_json::Value::as_str ](v: &'a serde_json::Value) -> (r: Option<&'a str>)
    ensures
        r is Some <==> json_data(*v) is Text,
        r matches Some(s) ==> json_data(*v) == JsonData::Text(s@),
;

/// Relies on `serde_json::Value::as_i64`: the integer of a number value that
/// fits in an `i64`.
pub assume_specification[ serde_json::Value::as_i64 ](v: &serde_json::Value) -> (r: Option<i64>)
    ensures
        r == (match json_data(*v) {
            JsonData::Number(n) => n,
            _ => None,
        }),
;

/// Relies on `serde_json::Value::as_array`: the elements of an array value.
pub assume_specification<'a>[ serde_json::Value::as_array ](v: &'a serde_json::Value) -> (r: Option<&'a Vec<serde_json::Value>>)
    ensures
        r is Some <==> json_data(*v) is List,
        r matches Some(a) ==> json_data(*v) == JsonData::List(
            a@.map_values(|x: serde_json::Value| json_data(x)),
        ),
;

} // verus!
