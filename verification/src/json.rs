//! The boundary to `serde_json`: a mathematical model of JSON documents, and
//! the calls into the crate that the library makes, each with the contract
//! that the rest of the library relies on. Nothing in this file is proved;
//! every contract restates what the crate's source shows.

use vstd::prelude::*;
use serde_json::Value;

verus! {

/// `serde_json::Value`: one JSON document. What it holds is told by
/// [`json_of`].
#[verifier::external_type_specification]
#[verifier::external_body]
pub struct ExValue(serde_json::Value);

/// `serde_json::Map`: the fields of one JSON object. What it holds is told
/// by [`entries_of`].
#[verifier::external_type_specification]
#[verifier::external_body]
#[verifier::reject_recursive_types(K)]
#[verifier::reject_recursive_types(V)]
pub struct ExMap<K, V>(serde_json::Map<K, V>);

/// `serde_json::Error`: what the parser reports for a text that is no JSON
/// document.
#[verifier::external_type_specification]
#[verifier::external_body]
pub struct ExError(serde_json::Error);

/// An open mapping from field names to JSON values: the payload of a message.
pub type DynamicMap = serde_json::Map<String, serde_json::Value>;

/// A JSON number, in the three forms that the parser tells apart.
pub enum JsonNumber {
    /// A non-negative integer that fits 64 bits.
    Natural(u64),
    /// A negative integer that fits 64 bits.
    Negative(i64),
    /// Any other number, named by its 64-bit pattern.
    Fraction(u64),
}

/// A JSON document as a mathematical value.
pub enum Json {
    Null,
    Bool(bool),
    Number(JsonNumber),
    String(Seq<char>),
    Array(Seq<Json>),
    Object(Map<Seq<char>, Json>),
}

/// The fields of a JSON object: names to documents.
pub type Fields = Map<Seq<char>, Json>;

/// The document that a `serde_json::Value` holds.
pub uninterp spec fn json_of(value: serde_json::Value) -> Json;

/// The fields that a `serde_json::Map` holds.
pub uninterp spec fn entries_of(map: DynamicMap) -> Fields;

/// The document that `serde_json::from_str` reads from a text, or `None`
/// where it reports an error.
pub uninterp spec fn parsed_json(text: Seq<char>) -> Option<Json>;

/// The compact text that `serde_json` writes for a document.
pub uninterp spec fn json_text(document: Json) -> Seq<char>;

/// The object without fields.
pub open spec fn no_fields() -> Fields {
    Map::empty()
}

/// The documents that a sequence of values holds, in order.
pub open spec fn jsons_of(values: Seq<Value>) -> Seq<Json> {
    values.map_values(|value: Value| json_of(value))
}

/// `serde_json::Map::new`: a map without fields.
#[verifier::external_body]
pub(crate) fn map_new() -> (map: DynamicMap)
    ensures
        entries_of(map) == no_fields(),
{
    serde_json::Map::new()
}

/// `serde_json::Map::insert`: the map holds `value` under `key` afterwards,
/// whether or not the key was present, and its other fields stay.
#[verifier::external_body]
pub(crate) fn map_insert(map: &mut DynamicMap, key: String, value: Value)
    ensures
        entries_of(*final(map)) == entries_of(*old(map)).insert(key@, json_of(value)),
{
    map.insert(key, value);
}

/// `serde_json::Map::remove`: the map no longer holds `key` afterwards, and
/// its other fields stay.
#[verifier::external_body]
pub(crate) fn map_remove(map: &mut DynamicMap, key: &str)
    ensures
        entries_of(*final(map)) == entries_of(*old(map)).remove(key@),
{
    map.remove(key);
}

/// `serde_json::Map::get`: the value under `key`, or `None` where the map has
/// no such field.
#[verifier::external_body]
pub(crate) fn map_get<'a>(map: &'a DynamicMap, key: &str) -> (found: Option<&'a Value>)
    ensures
        found is Some <==> entries_of(*map).contains_key(key@),
        found is Some ==> json_of(*found.unwrap()) == entries_of(*map)[key@],
{
    map.get(key)
}

/// `Clone` for `serde_json::Map`: the copy holds the same fields.
pub assume_specification[ <serde_json::Map<String, serde_json::Value> as Clone>::clone ](
    map: &serde_json::Map<String, serde_json::Value>,
) -> (copy: serde_json::Map<String, serde_json::Value>)
    ensures
        entries_of(copy) == entries_of(*map),
;

/// The variant `Value::Null`.
#[verifier::external_body]
pub(crate) fn value_null() -> (value: Value)
    ensures
        json_of(value) == Json::Null,
{
    Value::Null
}

/// The variant `Value::String`, holding `text`.
#[verifier::external_body]
pub(crate) fn value_string(text: String) -> (value: Value)
    ensures
        json_of(value) == Json::String(text@),
{
    Value::String(text)
}

/// `From<u64>` for `Value`: the number `n`, kept as a non-negative integer.
#[verifier::external_body]
pub(crate) fn value_number(n: u64) -> (value: Value)
    ensures
        json_of(value) == Json::Number(JsonNumber::Natural(n)),
{
    Value::from(n)
}

/// The variant `Value::Object`, holding `map`.
#[verifier::external_body]
pub(crate) fn value_object(map: DynamicMap) -> (value: Value)
    ensures
        json_of(value) == Json::Object(entries_of(map)),
{
    Value::Object(map)
}

/// `Value::is_null`: whether the value is `null`.
#[verifier::external_body]
pub(crate) fn value_is_null(value: &Value) -> (null: bool)
    ensures
        null == (json_of(*value) is Null),
{
    value.is_null()
}

/// `Value::as_str`: the text of a string value, `None` for any other value.
#[verifier::external_body]
pub(crate) fn value_as_str<'a>(value: &'a Value) -> (text: Option<&'a str>)
    ensures
        text is Some <==> json_of(*value) is String,
        text is Some ==> json_of(*value) == Json::String(text.unwrap()@),
{
    value.as_str()
}

/// `Value::as_u64`: the number of a value that holds a non-negative integer,
/// `None` for any other value.
#[verifier::external_body]
pub(crate) fn value_as_u64(value: &Value) -> (number: Option<u64>)
    ensures
        number is Some <==> json_of(*value) matches Json::Number(JsonNumber::Natural(_)),
        number is Some ==> json_of(*value) == Json::Number(JsonNumber::Natural(number.unwrap())),
{
    value.as_u64()
}

/// `Value::as_array`: the items of an array value, `None` for any other
/// value.
#[verifier::external_body]
pub(crate) fn value_as_array<'a>(value: &'a Value) -> (items: Option<&'a Vec<Value>>)
    ensures
        items is Some <==> json_of(*value) is Array,
        items is Some ==> json_of(*value) == Json::Array(jsons_of(items.unwrap()@)),
{
    value.as_array()
}

/// `Value::as_object`: the map of an object value, `None` for any other
/// value.
#[verifier::external_body]
pub(crate) fn value_as_object<'a>(value: &'a Value) -> (map: Option<&'a DynamicMap>)
    ensures
        map is Some <==> json_of(*value) is Object,
        map is Some ==> json_of(*value) == Json::Object(entries_of(*map.unwrap())),
{
    value.as_object()
}

/// `serde_json::from_str` at `Value`: reads one JSON document from `text`.
/// Whether it succeeds, and the document it reads, depend on the text alone.
#[verifier::external_body]
pub(crate) fn parse_json(text: &str) -> (outcome: Result<Value, serde_json::Error>)
    ensures
        outcome is Ok <==> parsed_json(text@) is Some,
        outcome is Ok ==> parsed_json(text@) == Some(json_of(outcome.unwrap())),
{
    serde_json::from_str::<Value>(text)
}

/// `Display` for `Value`: the compact JSON text of the document.
#[verifier::external_body]
pub(crate) fn render_json(value: &Value) -> (text: String)
    ensures
        text@ == json_text(json_of(*value)),
{
    value.to_string()
}

} // verus!
