//! Typed access to the fields of a payload.

use vstd::prelude::*;
use vstd::string::*;
use crate::json::{
    entries_of, json_of, jsons_of, map_get, value_as_array, value_as_str, value_as_u64,
    value_is_null, DynamicMap, Fields, Json, JsonNumber,
};
use crate::protocol::payload::{text_of, texts_of};

verus! {

/// The text of a document that is a string.
pub open spec fn string_of(document: Json) -> Option<Seq<char>> {
    match document {
        Json::String(text) => Some(text),
        _ => None,
    }
}

/// The text of the field `name`, where `fields` has it and it is a string.
pub open spec fn string_field(fields: Fields, name: Seq<char>) -> Option<Seq<char>> {
    if fields.contains_key(name) {
        string_of(fields[name])
    } else {
        None
    }
}

/// The texts of a sequence of documents that are all strings.
pub open spec fn strings_of(items: Seq<Json>) -> Option<Seq<Seq<char>>> {
    if forall|i: int| 0 <= i < items.len() ==> (#[trigger] items[i]) is String {
        Some(Seq::new(items.len(), |i: int| string_of(items[i]).unwrap()))
    } else {
        None
    }
}

/// The texts of the field `name`, where `fields` has it and it is an array
/// of strings.
pub open spec fn strings_field(fields: Fields, name: Seq<char>) -> Option<Seq<Seq<char>>> {
    if fields.contains_key(name) {
        match fields[name] {
            Json::Array(items) => strings_of(items),
            _ => None,
        }
    } else {
        None
    }
}

/// The text of the optional field `name`: none where `fields` lacks it or
/// holds `null` under it, its text where it is a string. `None` where the
/// field holds anything else.
pub open spec fn optional_text(fields: Fields, name: Seq<char>) -> Option<Option<Seq<char>>> {
    if !fields.contains_key(name) {
        Some(None)
    } else {
        match fields[name] {
            Json::Null => Some(None),
            Json::String(text) => Some(Some(text)),
            _ => None,
        }
    }
}

/// The identifier in the optional field `name`: none where `fields` lacks
/// it or holds `null` under it, its number where it is a non-negative integer
/// that fits an identifier. `None` where the field holds anything else.
pub open spec fn optional_id(fields: Fields, name: Seq<char>) -> Option<Option<usize>> {
    if !fields.contains_key(name) {
        Some(None)
    } else {
        match fields[name] {
            Json::Null => Some(None),
            Json::Number(JsonNumber::Natural(n)) => if n <= usize::MAX {
                Some(Some(n as usize))
            } else {
                None
            },
            _ => None,
        }
    }
}

/// The view of an optional string that was read or refused.
pub open spec fn read_text_of(read: Option<Option<String>>) -> Option<Option<Seq<char>>> {
    match read {
        Some(text) => Some(text_of(text)),
        None => None,
    }
}

/// The view of an optional list of strings.
pub open spec fn list_of(list: Option<Vec<String>>) -> Option<Seq<Seq<char>>> {
    match list {
        Some(l) => Some(texts_of(l@)),
        None => None,
    }
}

/// Reads the field `name` of a payload as a string.
pub fn get_string(data: &DynamicMap, name: &str) -> (text: Option<String>)
    ensures
        text_of(text) == string_field(entries_of(*data), name@),
{
    match map_get(data, name) {
        Some(value) => match value_as_str(value) {
            Some(text) => Some(String::from_str(text)),
            None => None,
        },
        None => None,
    }
}

/// Reads the optional field `name` of a payload as a string.
pub fn get_optional_text(data: &DynamicMap, name: &str) -> (text: Option<Option<String>>)
    ensures
        read_text_of(text) == optional_text(entries_of(*data), name@),
{
    match map_get(data, name) {
        None => Some(None),
        Some(value) => if value_is_null(value) {
            Some(None)
        } else {
            match value_as_str(value) {
                Some(text) => Some(Some(String::from_str(text))),
                None => None,
            }
        },
    }
}

/// Reads the optional field `name` of a payload as an identifier.
pub fn get_optional_id(data: &DynamicMap, name: &str) -> (id: Option<Option<usize>>)
    ensures
        id == optional_id(entries_of(*data), name@),
{
    match map_get(data, name) {
        None => Some(None),
        Some(value) => if value_is_null(value) {
            Some(None)
        } else {
            match value_as_u64(value) {
                Some(n) => if n <= usize::MAX as u64 {
                    Some(Some(n as usize))
                } else {
                    None
                },
                None => None,
            }
        },
    }
}

/// Reads the field `name` of a payload as an array of strings.
pub fn get_strings(data: &DynamicMap, name: &str) -> (list: Option<Vec<String>>)
    ensures
        list_of(list) == strings_field(entries_of(*data), name@),
{
    match map_get(data, name) {
        Some(value) => match value_as_array(value) {
            Some(items) => {
                let ghost docs = jsons_of(items@);
                let mut list: Vec<String> = Vec::new();
                let mut i: usize = 0;
                while i < items.len()
                    invariant
                        i <= items@.len(),
                        docs == jsons_of(items@),
                        entries_of(*data).contains_key(name@),
                        entries_of(*data)[name@] == Json::Array(docs),
                        list@.len() == i,
                        forall|j: int| 0 <= j < i ==> (#[trigger] docs[j]) is String,
                        forall|j: int|
                            0 <= j < i ==> Some((#[trigger] list@[j])@) == string_of(docs[j]),
                    decreases items@.len() - i,
                {
                    assert(docs[i as int] == json_of(items@[i as int]));
                    match value_as_str(&items[i]) {
                        Some(text) => {
                            list.push(String::from_str(text));
                        },
                        None => {
                            assert(!(docs[i as int] is String));
                            return None;
                        },
                    }
                    i += 1;
                }
                assert(texts_of(list@) =~= strings_of(docs).unwrap());
                Some(list)
            },
            None => None,
        },
        None => None,
    }
}

} // verus!
