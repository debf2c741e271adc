//! The wire format: an envelope is one JSON object with an optional `src`,
//! an optional `dest` and a `body`. The body is one object that holds the
//! optional `msg_id` and `in_reply_to`, the discriminator under `type` and,
//! beside them, every field of the payload.

use vstd::prelude::*;
use vstd::string::*;
use serde_json::Value;
use crate::json::{
    json_of, json_text, map_get, map_insert, map_new, map_remove, no_fields, parse_json,
    parsed_json, render_json, value_as_object, value_number, value_object, value_string, Fields,
    Json, JsonNumber,
};
use crate::protocol::errors::{ErrorKind, ErrorMessage, ErrorMessageView};
use crate::protocol::fields::{
    get_optional_id, get_optional_text, get_string, optional_id, optional_text, string_field,
};
use crate::protocol::payload::{Message, MessageBody, MessageContent, MessageView};

verus! {

/// Whether `name` is one of the names that the body keeps for itself and
/// that no field of a payload may have.
pub open spec fn reserved(name: Seq<char>) -> bool {
    name == "msg_id"@ || name == "in_reply_to"@ || name == "type"@
}

/// The fields of `fields` whose names are not reserved.
pub open spec fn without_reserved(fields: Fields) -> Fields {
    fields.remove("msg_id"@).remove("in_reply_to"@).remove("type"@)
}

/// The document that stands for the identifier `id`.
pub open spec fn id_document(id: usize) -> Json {
    Json::Number(JsonNumber::Natural(id as u64))
}

/// `fields` with `document` under `name` where there is one.
pub open spec fn with_optional(fields: Fields, name: Seq<char>, document: Option<Json>) -> Fields {
    match document {
        Some(d) => fields.insert(name, d),
        None => fields,
    }
}

/// The document of an optional text.
pub open spec fn text_document(text: Option<Seq<char>>) -> Option<Json> {
    match text {
        Some(t) => Some(Json::String(t)),
        None => None,
    }
}

/// The document of an optional identifier.
pub open spec fn optional_id_document(id: Option<usize>) -> Option<Json> {
    match id {
        Some(i) => Some(id_document(i)),
        None => None,
    }
}

impl MessageView {
    /// No field of the payload has a reserved name.
    pub open spec fn well_formed(self) -> bool {
        forall|name: Seq<char>| reserved(name) ==> !self.payload.contains_key(name)
    }
}

/// The envelope that a document stands for, or `None` where the document is
/// no well-formed envelope. An absent `src`, `dest`, `msg_id` or
/// `in_reply_to` may be left out or be `null`. Whatever else the body holds
/// beside its reserved names is the payload; whatever else the envelope
/// holds beside `src`, `dest` and `body` is passed over.
pub open spec fn decoded_envelope(document: Json) -> Option<MessageView> {
    match document {
        Json::Object(top) => {
            if optional_text(top, "src"@) is Some && optional_text(top, "dest"@) is Some
                && top.contains_key("body"@) {
                match top["body"@] {
                    Json::Object(body) => {
                        if optional_id(body, "msg_id"@) is Some && optional_id(
                            body,
                            "in_reply_to"@,
                        ) is Some && string_field(body, "type"@) is Some {
                            Some(
                                MessageView {
                                    src: optional_text(top, "src"@).unwrap(),
                                    dest: optional_text(top, "dest"@).unwrap(),
                                    msg_id: optional_id(body, "msg_id"@).unwrap(),
                                    in_reply_to: optional_id(body, "in_reply_to"@).unwrap(),
                                    kind: string_field(body, "type"@).unwrap(),
                                    payload: without_reserved(body),
                                },
                            )
                        } else {
                            None
                        }
                    },
                    _ => None,
                }
            } else {
                None
            }
        },
        _ => None,
    }
}

/// The body that an envelope is written with: the fields of its payload,
/// the discriminator and, where present, the identifiers. A field of the
/// payload with a reserved name is not written.
pub open spec fn encoded_body(message: MessageView) -> Fields {
    with_optional(
        with_optional(
            without_reserved(message.payload).insert("type"@, Json::String(message.kind)),
            "msg_id"@,
            optional_id_document(message.msg_id),
        ),
        "in_reply_to"@,
        optional_id_document(message.in_reply_to),
    )
}

/// The document that an envelope is written as.
pub open spec fn encoded_envelope(message: MessageView) -> Json {
    Json::Object(
        with_optional(
            with_optional(
                no_fields().insert("body"@, Json::Object(encoded_body(message))),
                "src"@,
                text_document(message.src),
            ),
            "dest"@,
            text_document(message.dest),
        ),
    )
}

/// The error that reports a document that is no well-formed envelope.
pub open spec fn malformed_envelope() -> ErrorMessageView {
    ErrorMessageView::of(ErrorKind::MalformedRequest, "message is not a well-formed envelope"@)
}

/// What a line of input is read as: the envelope that it holds, the error
/// for a document that is no envelope, or `None` for a line that is no JSON
/// document.
pub open spec fn received(line: Seq<char>) -> Option<Result<MessageView, ErrorMessageView>> {
    match parsed_json(line) {
        Some(document) => Some(
            match decoded_envelope(document) {
                Some(message) => Ok(message),
                None => Err(malformed_envelope()),
            },
        ),
        None => None,
    }
}

/// The names of the envelope and of the body are pairwise different.
pub proof fn lemma_names_differ()
    ensures
        "msg_id"@ != "in_reply_to"@,
        "msg_id"@ != "type"@,
        "in_reply_to"@ != "type"@,
        "src"@ != "dest"@,
        "src"@ != "body"@,
        "dest"@ != "body"@,
{
    reveal_strlit("msg_id");
    reveal_strlit("in_reply_to");
    reveal_strlit("type");
    reveal_strlit("src");
    reveal_strlit("dest");
    reveal_strlit("body");
    assert("msg_id"@.len() == 6);
    assert("in_reply_to"@.len() == 11);
    assert("type"@.len() == 4);
    assert("src"@.len() == 3);
    assert("dest"@[0] == 'd');
    assert("body"@[0] == 'b');
}

/// The body of a document that stands for an envelope.
pub open spec fn body_of(document: Json) -> Fields
    recommends
        decoded_envelope(document) is Some,
{
    match document {
        Json::Object(top) => match top["body"@] {
            Json::Object(body) => body,
            _ => no_fields(),
        },
        _ => no_fields(),
    }
}

/// Writing an envelope and reading it back gives the envelope again, with
/// every field of its payload and every value, as long as no field of the
/// payload has a reserved name. Such a field would be left out.
pub proof fn lemma_encode_then_decode(message: MessageView)
    ensures
        decoded_envelope(encoded_envelope(message)) == Some(
            MessageView { payload: without_reserved(message.payload), ..message },
        ),
        message.well_formed() ==> decoded_envelope(encoded_envelope(message)) == Some(message),
{
    lemma_names_differ();
    let body = encoded_body(message);
    let top = encoded_envelope(message)->Object_0;
    assert(top.contains_key("body"@));
    assert(top["body"@] == Json::Object(body));
    assert(optional_text(top, "src"@) == Some(message.src));
    assert(optional_text(top, "dest"@) == Some(message.dest));
    assert(string_field(body, "type"@) == Some(message.kind));
    assert(optional_id(body, "msg_id"@) == Some(message.msg_id));
    assert(optional_id(body, "in_reply_to"@) == Some(message.in_reply_to));
    assert(without_reserved(body) =~= without_reserved(message.payload));
    if message.well_formed() {
        assert(reserved("msg_id"@) && reserved("in_reply_to"@) && reserved("type"@));
        assert(without_reserved(message.payload) =~= message.payload);
    }
}

/// Reading an envelope from a document and writing it again keeps every
/// field of the payload with its value: beside the reserved names, the body
/// that is written holds exactly the fields of the body that was read. The
/// envelope that was read has no field with a reserved name in its payload,
/// and reading what was written gives it again.
pub proof fn lemma_decode_then_encode(document: Json)
    requires
        decoded_envelope(document) is Some,
    ensures
        decoded_envelope(document).unwrap().well_formed(),
        forall|name: Seq<char>|
            !reserved(name) ==> (#[trigger] encoded_body(
                decoded_envelope(document).unwrap(),
            ).contains_key(name) <==> body_of(document).contains_key(name)),
        forall|name: Seq<char>|
            !reserved(name) && body_of(document).contains_key(name) ==> #[trigger] encoded_body(
                decoded_envelope(document).unwrap(),
            )[name] == body_of(document)[name],
        decoded_envelope(encoded_envelope(decoded_envelope(document).unwrap())) == decoded_envelope(
            document,
        ),
{
    lemma_names_differ();
    let message = decoded_envelope(document).unwrap();
    assert(message.payload == without_reserved(body_of(document)));
    lemma_encode_then_decode(message);
}

fn malformed() -> (error: ErrorMessage)
    ensures
        error@ == malformed_envelope(),
{
    ErrorMessage::new(ErrorKind::MalformedRequest, "message is not a well-formed envelope")
}

/// Reads an envelope from a JSON document. Fails with `MalformedRequest`
/// exactly where the document is no well-formed envelope.
pub fn decode_message(value: &Value) -> (decoded: Result<Message, ErrorMessage>)
    ensures
        match decoded_envelope(json_of(*value)) {
            Some(message) => decoded matches Ok(m) && m@ == message,
            None => decoded matches Err(error) && error@ == malformed_envelope(),
        },
{
    let top = match value_as_object(value) {
        Some(top) => top,
        None => {
            return Err(malformed());
        },
    };
    let src = match get_optional_text(top, "src") {
        Some(src) => src,
        None => {
            return Err(malformed());
        },
    };
    let dest = match get_optional_text(top, "dest") {
        Some(dest) => dest,
        None => {
            return Err(malformed());
        },
    };
    let body = match map_get(top, "body") {
        Some(value) => match value_as_object(value) {
            Some(body) => body,
            None => {
                return Err(malformed());
            },
        },
        None => {
            return Err(malformed());
        },
    };
    let msg_id = match get_optional_id(body, "msg_id") {
        Some(id) => id,
        None => {
            return Err(malformed());
        },
    };
    let in_reply_to = match get_optional_id(body, "in_reply_to") {
        Some(id) => id,
        None => {
            return Err(malformed());
        },
    };
    let kind = match get_string(body, "type") {
        Some(kind) => kind,
        None => {
            return Err(malformed());
        },
    };
    let mut data = body.clone();
    map_remove(&mut data, "msg_id");
    map_remove(&mut data, "in_reply_to");
    map_remove(&mut data, "type");
    Ok(Message { src, dest, body: MessageBody { msg_id, in_reply_to, content: MessageContent { kind, data } } })
}

/// Writes an envelope as a JSON document.
pub fn encode_message(msg: &Message) -> (value: Value)
    ensures
        json_of(value) == encoded_envelope(msg@),
{
    let mut body = msg.body.content.data.clone();
    map_remove(&mut body, "msg_id");
    map_remove(&mut body, "in_reply_to");
    map_remove(&mut body, "type");
    map_insert(&mut body, String::from_str("type"), value_string(msg.body.content.kind.clone()));
    match msg.body.msg_id {
        Some(id) => {
            map_insert(&mut body, String::from_str("msg_id"), value_number(id as u64));
        },
        None => {},
    }
    match msg.body.in_reply_to {
        Some(id) => {
            map_insert(&mut body, String::from_str("in_reply_to"), value_number(id as u64));
        },
        None => {},
    }
    let mut top = map_new();
    map_insert(&mut top, String::from_str("body"), value_object(body));
    match &msg.src {
        Some(src) => {
            map_insert(&mut top, String::from_str("src"), value_string(src.clone()));
        },
        None => {},
    }
    match &msg.dest {
        Some(dest) => {
            map_insert(&mut top, String::from_str("dest"), value_string(dest.clone()));
        },
        None => {},
    }
    value_object(top)
}

/// Reads an envelope from one line of input. Fails with `MalformedRequest`
/// where the line is no JSON document, with the text of the parser, and
/// where the document is no well-formed envelope.
pub fn parse_message(line: &str) -> (decoded: Result<Message, ErrorMessage>)
    ensures
        match received(line@) {
            Some(Ok(message)) => decoded matches Ok(m) && m@ == message,
            Some(Err(error)) => decoded matches Err(e) && e@ == error,
            None => decoded matches Err(e) && e@ == ErrorMessageView::of(
                ErrorKind::MalformedRequest,
                e@.text,
            ),
        },
{
    match parse_json(line) {
        Ok(value) => decode_message(&value),
        Err(error) => {
            let text = error.to_string();
            Err(ErrorMessage::new(ErrorKind::MalformedRequest, text.as_str()))
        },
    }
}

/// Writes an envelope as one line of output.
pub fn render_message(msg: &Message) -> (line: String)
    ensures
        line@ == json_text(encoded_envelope(msg@)),
{
    let value = encode_message(msg);
    render_json(&value)
}

} // verus!
