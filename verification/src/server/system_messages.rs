//! The messages of the initialization handshake.

use vstd::prelude::*;
use vstd::string::*;
use serde_json::Value;
use crate::json::{entries_of, json_of, value_null, DynamicMap, Fields, Json};
use crate::protocol::fields::{get_string, get_strings, string_field, strings_field};
use crate::protocol::payload::texts_of;

verus! {

/// The request that tells a node its identity and its peers.
#[derive(Debug)]
pub struct InitMessage {
    pub node_id: String,
    pub node_ids: Vec<String>,
}

/// The acknowledgement of an [`InitMessage`]. It carries no fields.
#[derive(Clone, Copy, Debug, PartialEq, Eq)]
pub struct InitOkMessage;

impl InitMessage {
    /// Whether `fields` has the shape of the request: it names the node in a
    /// string field `node_id` and its peers in a field `node_ids` that is an
    /// array of strings. Other fields are passed over.
    pub open spec fn accepts(fields: Fields) -> bool {
        string_field(fields, "node_id"@) is Some && strings_field(fields, "node_ids"@) is Some
    }

    /// Whether `self` is what `fields` reads as.
    pub open spec fn read_from(&self, fields: Fields) -> bool {
        &&& Some(self.node_id@) == string_field(fields, "node_id"@)
        &&& Some(texts_of(self.node_ids@)) == strings_field(fields, "node_ids"@)
    }

    /// What is wrong with `fields` as a request, or `None` where they have
    /// its shape.
    pub open spec fn refusal(fields: Fields) -> Option<Seq<char>> {
        if string_field(fields, "node_id"@) is None {
            Some("field `node_id` must be a string"@)
        } else if strings_field(fields, "node_ids"@) is None {
            Some("field `node_ids` must be an array of strings"@)
        } else {
            None
        }
    }

    /// Reads the request from a payload, or says what is wrong with a
    /// payload that does not have its shape.
    pub fn from_payload(data: &DynamicMap) -> (value: Result<InitMessage, String>)
        ensures
            value is Ok <==> InitMessage::accepts(entries_of(*data)),
            value matches Ok(init) ==> init.read_from(entries_of(*data)),
            value matches Err(cause) ==> Some(cause@) == InitMessage::refusal(entries_of(*data)),
    {
        match get_string(data, "node_id") {
            Some(node_id) => match get_strings(data, "node_ids") {
                Some(node_ids) => Ok(InitMessage { node_id, node_ids }),
                None => Err(String::from_str("field `node_ids` must be an array of strings")),
            },
            None => Err(String::from_str("field `node_id` must be a string")),
        }
    }
}

impl InitOkMessage {
    /// Writes the acknowledgement: a value without fields is written as
    /// `null`, which stands for the payload without fields.
    pub fn to_value(&self) -> (value: Value)
        ensures
            json_of(value) == Json::Null,
    {
        value_null()
    }
}

impl Clone for InitMessage {
    fn clone(&self) -> (copy: InitMessage)
        ensures
            copy.node_id@ == self.node_id@,
            texts_of(copy.node_ids@) == texts_of(self.node_ids@),
    {
        let mut node_ids: Vec<String> = Vec::new();
        let mut i: usize = 0;
        while i < self.node_ids.len()
            invariant
                i <= self.node_ids@.len(),
                node_ids@.len() == i,
                forall|j: int| 0 <= j < i ==> (#[trigger] node_ids@[j])@ == self.node_ids@[j]@,
            decreases self.node_ids@.len() - i,
        {
            node_ids.push(self.node_ids[i].clone());
            i += 1;
        }
        assert(texts_of(node_ids@) =~= texts_of(self.node_ids@));
        InitMessage { node_id: self.node_id.clone(), node_ids }
    }
}

} // verus!
