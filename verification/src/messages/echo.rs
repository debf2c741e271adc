//! The echo handler: it answers every `echo` with an `echo_ok` that carries
//! the same text.

use vstd::prelude::*;
use vstd::string::*;
use serde_json::Value;
use crate::json::{
    entries_of, json_of, map_insert, map_new, no_fields, value_object, value_string, DynamicMap,
    Fields, Json,
};
use crate::protocol::context::{no_message, outcome_of, ContextView, MessageContext};
use crate::protocol::errors::{ErrorMessage, ErrorMessageView};
use crate::protocol::fields::{get_string, string_field};
use crate::protocol::handler::MessageHandler;
use crate::protocol::handler::slice_texts_of;
use crate::protocol::serialization::shape_mismatch;

verus! {

/// The payload of `echo` and of `echo_ok`: one text.
#[derive(Debug, PartialEq)]
pub struct EchoMessageContent {
    pub echo: String,
}

/// The payload that carries the text `echo`.
pub open spec fn echo_fields(echo: Seq<char>) -> Fields {
    no_fields().insert("echo"@, Json::String(echo))
}

impl EchoMessageContent {
    /// Writes the payload.
    pub fn to_value(&self) -> (value: Value)
        ensures
            json_of(value) == Json::Object(echo_fields(self.echo@)),
    {
        let mut map = map_new();
        map_insert(&mut map, String::from_str("echo"), value_string(self.echo.clone()));
        value_object(map)
    }

    /// Reads the payload, or says what is wrong with a payload that carries
    /// no text under `echo`. Other fields are passed over.
    pub fn from_payload(data: &DynamicMap) -> (value: Result<EchoMessageContent, String>)
        ensures
            match string_field(entries_of(*data), "echo"@) {
                Some(echo) => value matches Ok(content) && content.echo@ == echo,
                None => value matches Err(cause) && cause@ == no_text(),
            },
    {
        match get_string(data, "echo") {
            Some(echo) => Ok(EchoMessageContent { echo }),
            None => Err(String::from_str("field `echo` must be a string")),
        }
    }
}

/// What is wrong with a payload that carries no text under `echo`.
pub open spec fn no_text() -> Seq<char> {
    "field `echo` must be a string"@
}

/// The echo handler. It has no state.
#[derive(Debug)]
pub struct EchoMessageHandler;

/// What the echo handler does on the context `ctx`: it fails where no
/// inbound message is present or its payload carries no text under `echo`,
/// and else replies with an `echo_ok` that carries the same text.
pub open spec fn echoed(ctx: ContextView) -> (Result<(), ErrorMessageView>, ContextView) {
    match ctx.inbound {
        None => (Err(no_message()), ctx),
        Some(m) => match string_field(m.payload, "echo"@) {
            None => (Err(shape_mismatch(m.kind, no_text())), ctx),
            Some(echo) => ctx.sent(
                "echo_ok"@,
                Json::Object(echo_fields(echo)),
                m.src,
                m.msg_id,
            ),
        },
    }
}

impl MessageHandler for EchoMessageHandler {
    fn new() -> Self {
        EchoMessageHandler
    }

    fn get_handled_messages() -> (kinds: Vec<&'static str>)
        ensures
            slice_texts_of(kinds@) == seq!["echo"@],
    {
        let mut kinds: Vec<&'static str> = Vec::new();
        kinds.push("echo");
        assert(slice_texts_of(kinds@) =~= seq!["echo"@]);
        kinds
    }

    /// The echo handler has no state to change.
    open spec fn steady(&self) -> bool {
        true
    }

    /// The echo handler takes no notice of the node: it succeeds and leaves
    /// the context as it was.
    open spec fn initialized(
        &self,
        node_id: Seq<char>,
        node_ids: Seq<Seq<char>>,
        before: ContextView,
        after: ContextView,
        outcome: Result<(), ErrorMessageView>,
    ) -> bool {
        outcome is Ok && after == before
    }

    open spec fn handled(
        &self,
        before: ContextView,
        after: ContextView,
        outcome: Result<(), ErrorMessageView>,
    ) -> bool {
        (outcome, after) == echoed(before)
    }

    fn init(&mut self, node_id: &str, node_ids: &[String], ctx: &mut MessageContext) -> (outcome:
        Result<(), ErrorMessage>)
    {
        Ok(())
    }

    fn handle(&mut self, ctx: &mut MessageContext) -> (outcome: Result<(), ErrorMessage>)
        ensures
            (outcome_of(outcome), final(ctx)@) == echoed(old(ctx)@),
    {
        let msg = match ctx.message_content(EchoMessageContent::from_payload) {
            Ok(msg) => msg,
            Err(error) => {
                return Err(error);
            },
        };
        let mut exchange = crate::echo::EchoMessageHandler::new();
        match exchange.handle(crate::echo::EchoMessageContent::Echo { echo: msg.echo }) {
            Ok(Some(crate::echo::EchoMessageContent::EchoOk { echo })) => ctx.reply(
                "echo_ok",
                &(EchoMessageContent { echo }).to_value(),
            ),
            Ok(_) => Ok(()),
            Err(error) => Err(error),
        }
    }
}

} // verus!
