//! Conversion between typed payloads and the open mapping that a message
//! carries.

use vstd::prelude::*;
use vstd::string::*;
use serde_json::Value;
use crate::json::{
    entries_of, json_of, map_new, no_fields, value_as_object, value_is_null, DynamicMap, Fields,
    Json,
};
use crate::protocol::errors::{ErrorKind, ErrorMessage, ErrorMessageView};
use crate::protocol::payload::Message;

verus! {

/// The open mapping that a document stands for as a payload: the fields of
/// an object, no fields for `null`, and `None` for any other document.
pub open spec fn payload_fields(document: Json) -> Option<Fields> {
    match document {
        Json::Null => Some(no_fields()),
        Json::Object(fields) => Some(fields),
        _ => None,
    }
}

/// The error that reports a payload that is no open mapping.
pub open spec fn not_an_object() -> ErrorMessageView {
    ErrorMessageView::of(ErrorKind::Crash, "message content must serialize to an object"@)
}

/// The error that reports a payload of a message of kind `kind` that does
/// not have the shape asked for, with what the decoder said of it as the
/// cause.
pub open spec fn shape_mismatch(kind: Seq<char>, cause: Seq<char>) -> ErrorMessageView {
    ErrorMessageView {
        code: ErrorKind::MalformedRequest.spec_code(),
        text: "failed to deserialize message `"@ + kind + "`"@,
        cause: Some(cause),
    }
}

/// The decoder that reads a payload as the open mapping that it is. It
/// accepts every payload.
pub fn open_mapping(data: &DynamicMap) -> (value: Result<DynamicMap, String>)
    ensures
        value matches Ok(map) && entries_of(map) == entries_of(*data),
{
    Ok(data.clone())
}

/// Reads the payload of `msg` with `decode`, which says what is wrong with
/// a payload that does not have the shape that it reads. Fails with
/// `MalformedRequest`, naming the kind of the message and carrying what the
/// decoder said as the cause, exactly where `decode` fails.
pub fn deserialize_message_content<T, F: Fn(&DynamicMap) -> Result<T, String>>(
    msg: &Message,
    decode: F,
) -> (content: Result<T, ErrorMessage>)
    requires
        call_requires(decode, (&msg.body.content.data,)),
    ensures
        content matches Ok(value) ==> call_ensures(
            decode,
            (&msg.body.content.data,),
            Ok::<T, String>(value),
        ),
        content matches Err(error) ==> exists|cause: String|
            #[trigger] call_ensures(decode, (&msg.body.content.data,), Err::<T, String>(cause))
                && error@ == shape_mismatch(msg@.kind, cause@),
{
    match decode(&msg.body.content.data) {
        Ok(value) => Ok(value),
        Err(cause) => {
            let mut text = String::from_str("failed to deserialize message `");
            text.append(msg.kind());
            text.append("`");
            let error = ErrorMessage::new(ErrorKind::MalformedRequest, text.as_str()).with_cause(
                cause.as_str(),
            );
            assert(call_ensures(decode, (&msg.body.content.data,), Err::<T, String>(cause))
                && error@ == shape_mismatch(msg@.kind, cause@));
            Err(error)
        },
    }
}

/// The document that a serializer gave, or `Crash` where it gave none:
/// what cannot be written as a document is no payload.
pub fn written(outcome: Result<Value, serde_json::Error>) -> (document: Result<Value, ErrorMessage>)
    ensures
        match outcome {
            Ok(value) => document matches Ok(d) && d == value,
            Err(_) => document matches Err(error) && error@ == not_an_object(),
        },
{
    match outcome {
        Ok(value) => Ok(value),
        Err(_) => Err(
            ErrorMessage::new(ErrorKind::Crash, "message content must serialize to an object"),
        ),
    }
}

/// Reads a document as the open mapping of a payload. An object gives its
/// fields and `null` gives no fields; any other document fails with `Crash`.
pub fn serialize_message_content(data: &Value) -> (content: Result<DynamicMap, ErrorMessage>)
    ensures
        content is Ok <==> payload_fields(json_of(*data)) is Some,
        content matches Ok(map) ==> Some(entries_of(map)) == payload_fields(json_of(*data)),
        content matches Err(error) ==> error@ == not_an_object(),
{
    if value_is_null(data) {
        Ok(map_new())
    } else {
        match value_as_object(data) {
            Some(map) => Ok(map.clone()),
            None => Err(
                ErrorMessage::new(ErrorKind::Crash, "message content must serialize to an object"),
            ),
        }
    }
}

} // verus!
