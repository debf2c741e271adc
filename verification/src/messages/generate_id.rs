//! The identifier handler: it answers every `generate` with a fresh
//! identifier that no other node hands out.

use vstd::prelude::*;
use vstd::string::*;
use serde_json::Value;
use crate::json::{
    json_of, map_insert, map_new, no_fields, value_null, value_object, value_string, Fields, Json,
};
use crate::protocol::context::{outcome_of, ContextView, MessageContext};
use crate::protocol::errors::{ErrorKind, ErrorMessage, ErrorMessageView};
use crate::protocol::handler::MessageHandler;
use crate::protocol::handler::slice_texts_of;
use crate::server::handler::not_supported;
use crate::text::{parse_number, parsed_number, str_eq};
use crate::unique::{
    fraction_nanos, random_clock_sequence, since_epoch, timestamp_at, uuid_text, uuid_v6,
    whole_seconds,
};

verus! {

/// The request for an identifier. It carries no fields.
#[derive(Clone, Copy, Debug, PartialEq, Eq)]
pub struct GenerateIdMessageContent;

/// The answer to a request for an identifier.
#[derive(Debug, PartialEq)]
pub struct GenerateIdOkMessageContent {
    pub id: String,
}

impl GenerateIdMessageContent {
    /// Writes the request: a value without fields is written as `null`.
    pub fn to_value(&self) -> (value: Value)
        ensures
            json_of(value) == Json::Null,
    {
        value_null()
    }
}

/// The payload that carries the identifier `id`.
pub open spec fn id_fields(id: Seq<char>) -> Fields {
    no_fields().insert("id"@, Json::String(id))
}

impl GenerateIdOkMessageContent {
    /// Writes the answer.
    pub fn to_value(&self) -> (value: Value)
        ensures
            json_of(value) == Json::Object(id_fields(self.id@)),
    {
        let mut map = map_new();
        map_insert(&mut map, String::from_str("id"), value_string(self.id.clone()));
        value_object(map)
    }
}

/// The number that the name of a node carries behind its first character,
/// or `None` where what stands there is no decimal numeral.
pub open spec fn node_number(node_id: Seq<char>) -> Option<usize> {
    if node_id.len() == 0 {
        None
    } else {
        parsed_number(node_id.skip(1))
    }
}

/// The six low bytes of `n`, lowest first.
pub open spec fn low_bytes(n: nat) -> Seq<u8> {
    seq![
        (n % 256) as u8,
        ((n / 256) % 256) as u8,
        ((n / 65536) % 256) as u8,
        ((n / 16777216) % 256) as u8,
        ((n / 4294967296) % 256) as u8,
        ((n / 1099511627776) % 256) as u8,
    ]
}

/// The error that reports the name of a node that carries no number.
pub open spec fn unnumbered_node(node_id: Seq<char>) -> ErrorMessageView {
    ErrorMessageView {
        code: ErrorKind::MalformedRequest.spec_code(),
        text: "failed to parse node id `"@ + node_id + "`"@,
        cause: Some("invalid decimal number"@),
    }
}

/// The error that reports a request that arrived before the handler was
/// told the node.
pub open spec fn node_unknown() -> ErrorMessageView {
    ErrorMessageView::of(ErrorKind::TemporarilyUnavailable, "node not initialized"@)
}

/// The error that reports a system clock that stands before 1970, from
/// which no identifier can be made.
pub open spec fn clock_fault() -> ErrorMessageView {
    ErrorMessageView::of(ErrorKind::Crash, "system clock stands before 1970"@)
}

/// What the handler that knows its node does with a `generate` on the
/// context `before`: it replies with a `generate_ok` that carries an
/// identifier of 36 characters, as far as another envelope can be sent; or
/// it fails with `Crash`, and sends nothing, on a system whose clock stands
/// before 1970.
pub open spec fn generated(
    before: ContextView,
    after: ContextView,
    outcome: Result<(), ErrorMessageView>,
) -> bool {
    ||| outcome == Err::<(), ErrorMessageView>(clock_fault()) && after == before
    ||| exists|id: Seq<char>|
        id.len() == 36 && (outcome, after) == #[trigger] before.sent(
            "generate_ok"@,
            Json::Object(id_fields(id)),
            before.reply_dest(),
            before.reply_to(),
        )
}

/// The identifier handler. It keeps the six bytes that stand for the local
/// node in every identifier, once it was told the node, and the clock
/// sequence that tells identifiers of one instant apart.
pub struct GenerateIdMessageHandler {
    node_id: Option<[u8; 6]>,
    ctx: uuid::ContextV1,
}

impl GenerateIdMessageHandler {
    /// The bytes that stand for the local node, once known.
    pub closed spec fn node(&self) -> Option<Seq<u8>> {
        match self.node_id {
            Some(bytes) => Some(bytes@),
            None => None,
        }
    }

    /// Replies to the inbound message with the identifier `id`.
    pub fn reply_with(ctx: &mut MessageContext, id: String) -> (outcome: Result<(), ErrorMessage>)
        requires
            old(ctx)@.wf(),
        ensures
            final(ctx)@.wf(),
            final(ctx)@.continues(old(ctx)@),
            (outcome_of(outcome), final(ctx)@) == old(ctx)@.sent(
                "generate_ok"@,
                Json::Object(id_fields(id@)),
                old(ctx)@.reply_dest(),
                old(ctx)@.reply_to(),
            ),
    {
        ctx.reply("generate_ok", &(GenerateIdOkMessageContent { id }).to_value())
    }

    /// Answers a request with a fresh identifier of the local node. Fails
    /// with `TemporarilyUnavailable`, and sends nothing, before the handler
    /// was told the node; fails with `Crash`, and sends nothing, on a system
    /// whose clock stands before 1970.
    fn handle_generate_id(&mut self, ctx: &mut MessageContext) -> (outcome: Result<
        (),
        ErrorMessage,
    >)
        requires
            old(ctx)@.wf(),
        ensures
            final(ctx)@.wf(),
            final(ctx)@.continues(old(ctx)@),
            final(self).node() == old(self).node(),
            old(self).node() is None ==> outcome_of(outcome) == Err::<(), ErrorMessageView>(
                node_unknown(),
            ) && final(ctx)@ == old(ctx)@,
            old(self).node() is Some ==> generated(old(ctx)@, final(ctx)@, outcome_of(outcome)),
    {
        match &self.node_id {
            Some(node_id) => match since_epoch() {
                None => Err(
                    ErrorMessage::new(ErrorKind::Crash, "system clock stands before 1970"),
                ),
                Some(elapsed) => {
                    let ts = timestamp_at(
                        &self.ctx,
                        whole_seconds(&elapsed),
                        fraction_nanos(&elapsed),
                    );
                    let uuid = uuid_text(&uuid_v6(ts, node_id));
                    let ghost id = uuid@;
                    let outcome = GenerateIdMessageHandler::reply_with(ctx, uuid);
                    assert((outcome_of(outcome), ctx@) == old(ctx)@.sent(
                        "generate_ok"@,
                        Json::Object(id_fields(id)),
                        old(ctx)@.reply_dest(),
                        old(ctx)@.reply_to(),
                    ));
                    outcome
                },
            },
            None => Err(
                ErrorMessage::new(ErrorKind::TemporarilyUnavailable, "node not initialized"),
            ),
        }
    }
}

impl MessageHandler for GenerateIdMessageHandler {
    fn new() -> (handler: Self)
        ensures
            handler.node() is None,
    {
        GenerateIdMessageHandler { node_id: None, ctx: random_clock_sequence() }
    }

    fn get_handled_messages() -> (kinds: Vec<&'static str>)
        ensures
            slice_texts_of(kinds@) == seq!["generate"@],
    {
        let mut kinds: Vec<&'static str> = Vec::new();
        kinds.push("generate");
        assert(slice_texts_of(kinds@) =~= seq!["generate"@]);
        kinds
    }

    /// The handler leaves the context as it was; it succeeds where the name
    /// of the node carries a number behind its first character, and fails
    /// with `MalformedRequest` where it carries none.
    open spec fn initialized(
        &self,
        node_id: Seq<char>,
        node_ids: Seq<Seq<char>>,
        before: ContextView,
        after: ContextView,
        outcome: Result<(), ErrorMessageView>,
    ) -> bool {
        &&& after == before
        &&& match node_number(node_id) {
            Some(_) => outcome is Ok,
            None => outcome == Err::<(), ErrorMessageView>(unnumbered_node(node_id)),
        }
    }

    /// Learns the bytes that stand for the local node from the number that
    /// its name carries behind its first character. Fails with
    /// `MalformedRequest`, and keeps what it knew, where the name carries no
    /// number.
    fn init(&mut self, node_id: &str, node_ids: &[String], ctx: &mut MessageContext) -> (outcome:
        Result<(), ErrorMessage>)
        ensures
            final(ctx)@ == old(ctx)@,
            old(self).initialized(
                node_id@,
                crate::protocol::payload::texts_of(node_ids@),
                old(ctx)@,
                final(ctx)@,
                outcome_of(outcome),
            ),
            match node_number(node_id@) {
                Some(n) => outcome is Ok && final(self).node() == Some(low_bytes(n as nat)),
                None => outcome_of(outcome) == Err::<(), ErrorMessageView>(
                    unnumbered_node(node_id@),
                ) && final(self).node() == old(self).node(),
            },
    {
        let n = node_id.unicode_len();
        let parsed = if n == 0 {
            None
        } else {
            let digits = node_id.substring_char(1, n);
            assert(digits@ =~= node_id@.skip(1));
            parse_number(digits)
        };
        match parsed {
            Some(number) => {
                let m = number as u64;
                let bytes: [u8; 6] = [
                    (m % 256) as u8,
                    ((m / 256) % 256) as u8,
                    ((m / 65536) % 256) as u8,
                    ((m / 16777216) % 256) as u8,
                    ((m / 4294967296) % 256) as u8,
                    ((m / 1099511627776) % 256) as u8,
                ];
                assert(bytes@ =~= low_bytes(number as nat));
                self.node_id = Some(bytes);
                Ok(())
            },
            None => {
                let mut text = String::from_str("failed to parse node id `");
                text.append(node_id);
                text.append("`");
                Err(
                    ErrorMessage::new(ErrorKind::MalformedRequest, text.as_str()).with_cause(
                        "invalid decimal number",
                    ),
                )
            },
        }
    }

    /// A message other than `generate` fails with `NotSupported`, and a
    /// `generate` before the handler was told the node fails with
    /// `TemporarilyUnavailable`; neither sends. Else the handler does what
    /// [`generated`] says.
    open spec fn handled(
        &self,
        before: ContextView,
        after: ContextView,
        outcome: Result<(), ErrorMessageView>,
    ) -> bool {
        if before.kind() != "generate"@ {
            outcome == Err::<(), ErrorMessageView>(not_supported(before.kind())) && after == before
        } else if self.node() is None {
            outcome == Err::<(), ErrorMessageView>(node_unknown()) && after == before
        } else {
            generated(before, after, outcome)
        }
    }

    /// Answers `generate` with a fresh identifier; any other message fails
    /// with `NotSupported`.
    fn handle(&mut self, ctx: &mut MessageContext) -> (outcome: Result<(), ErrorMessage>)
        ensures
            final(self).node() == old(self).node(),
            old(ctx)@.kind() != "generate"@ ==> outcome_of(outcome) == Err::<
                (),
                ErrorMessageView,
            >(not_supported(old(ctx)@.kind())) && final(ctx)@ == old(ctx)@,
            old(ctx)@.kind() == "generate"@ && old(self).node() is None ==> outcome_of(outcome)
                == Err::<(), ErrorMessageView>(node_unknown()) && final(ctx)@ == old(ctx)@,
            old(ctx)@.kind() == "generate"@ && old(self).node() is Some ==> generated(
                old(ctx)@,
                final(ctx)@,
                outcome_of(outcome),
            ),
    {
        if str_eq(ctx.message_kind(), "generate") {
            self.handle_generate_id(ctx)
        } else {
            let mut text = String::from_str("message type ");
            text.append(ctx.message_kind());
            text.append(" not supported");
            Err(ErrorMessage::new(ErrorKind::NotSupported, text.as_str()))
        }
    }
}

} // verus!
