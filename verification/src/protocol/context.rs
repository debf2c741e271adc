//! The message context: the state of one dispatch cycle. It gives read
//! access to the inbound envelope and lets handlers answer: every answer goes
//! through the output sequencer into an ordered, append-only buffer.

use vstd::prelude::*;
use vstd::string::*;
use serde_json::Value;
use crate::json::{entries_of, json_of, DynamicMap, Json};
use crate::protocol::errors::{ErrorKind, ErrorMessage, ErrorMessageView};
use crate::protocol::payload::{messages_of, texts_of, Message, MessageView};
use crate::protocol::serialization::{
    deserialize_message_content, payload_fields, serialize_message_content,
};
use crate::server::sender::{slice_text_of, MaelstromServerMessageSender, SenderView};

verus! {

/// The view of an optional message.
pub open spec fn message_of(message: Option<Message>) -> Option<MessageView> {
    match message {
        Some(m) => Some(m@),
        None => None,
    }
}

/// The view of the outcome of an operation that answers nothing or fails.
pub open spec fn outcome_of(outcome: Result<(), ErrorMessage>) -> Result<(), ErrorMessageView> {
    match outcome {
        Ok(_) => Ok(()),
        Err(error) => Err(error@),
    }
}

/// The error that reports that no inbound message is present.
pub open spec fn no_message() -> ErrorMessageView {
    ErrorMessageView::of(ErrorKind::MalformedRequest, "message not available"@)
}

/// The error that reports that the identifiers of outbound envelopes have
/// run out.
pub open spec fn exhausted() -> ErrorMessageView {
    ErrorMessageView::of(ErrorKind::Crash, "outbound message identifiers are exhausted"@)
}

/// What a [`MessageContext`] holds, as plain values.
pub struct ContextView {
    /// The inbound envelope, absent in a context that only reports a
    /// transport failure.
    pub inbound: Option<MessageView>,
    /// The sequencer, with the outbound buffer as its queue.
    pub sender: SenderView,
}

impl ContextView {
    /// The sequencer of the context is well-formed.
    pub open spec fn wf(self) -> bool {
        self.sender.wf()
    }

    /// The discriminator of the inbound message, empty without one.
    pub open spec fn kind(self) -> Seq<char> {
        match self.inbound {
            Some(m) => m.kind,
            None => Seq::empty(),
        }
    }

    /// The sender of the inbound message: the destination of a reply.
    pub open spec fn reply_dest(self) -> Option<Seq<char>> {
        match self.inbound {
            Some(m) => m.src,
            None => None,
        }
    }

    /// The identifier of the inbound message: what a reply is in reply to.
    pub open spec fn reply_to(self) -> Option<usize> {
        match self.inbound {
            Some(m) => m.msg_id,
            None => None,
        }
    }

    /// The outbound buffer.
    pub open spec fn outbound(self) -> Seq<MessageView> {
        self.sender.queue
    }

    /// The outcome of sending one envelope of kind `kind` whose payload is
    /// written as `document`, and the context afterwards. A document that is
    /// no open mapping fails with `Crash`, and so does a sequencer without
    /// identifiers left; a failed send leaves the context as it was.
    pub open spec fn sent(
        self,
        kind: Seq<char>,
        document: Json,
        dest: Option<Seq<char>>,
        in_reply_to: Option<usize>,
    ) -> (Result<(), ErrorMessageView>, ContextView) {
        match payload_fields(document) {
            None => (Err(crate::protocol::serialization::not_an_object()), self),
            Some(fields) => if self.sender.remaining() < 1 {
                (Err(exhausted()), self)
            } else {
                (
                    Ok(()),
                    ContextView {
                        sender: self.sender.after_send(kind, fields, dest, in_reply_to),
                        ..self
                    },
                )
            },
        }
    }

    /// The context after an `error` reply that reports `error` to the
    /// sender of the inbound message.
    pub open spec fn reported(self, error: ErrorMessageView) -> ContextView {
        self.sent(
            "error"@,
            Json::Object(error.fields()),
            self.reply_dest(),
            self.reply_to(),
        ).1
    }

    /// The outcome of one fan-out of kind `kind` whose payload is written as
    /// `document`, and the context afterwards. Either every peer gets its
    /// envelope or, on failure, none does.
    pub open spec fn fanned_out(self, kind: Seq<char>, document: Json) -> (
        Result<(), ErrorMessageView>,
        ContextView,
    ) {
        match payload_fields(document) {
            None => (Err(crate::protocol::serialization::not_an_object()), self),
            Some(fields) => if self.sender.remaining() < self.sender.peers.len() {
                (Err(exhausted()), self)
            } else {
                (Ok(()), ContextView { sender: self.sender.after_fan_out(kind, fields), ..self })
            },
        }
    }

    /// This context is what `before` became by sending: the inbound message,
    /// the node and the peers are the same, the buffer of `before` is the
    /// start of this buffer, the sequencer moved on by one identifier for
    /// each envelope that was added, and every added envelope carries the
    /// local node as its source.
    pub open spec fn continues(self, before: ContextView) -> bool {
        &&& self.inbound == before.inbound
        &&& self.sender.local_id == before.sender.local_id
        &&& self.sender.peers == before.sender.peers
        &&& before.sender.queue.is_prefix_of(self.sender.queue)
        &&& self.sender.next_id == before.sender.next_id + (self.sender.queue.len()
            - before.sender.queue.len())
        &&& forall|i: int|
            before.sender.queue.len() <= i < self.sender.queue.len() ==> (
            #[trigger] self.sender.queue[i]).src == self.sender.local_id
    }
}

/// Continuation is transitive: a context that continues one that continues
/// a third continues the third.
pub proof fn lemma_continues_transitive(
    first: ContextView,
    second: ContextView,
    third: ContextView,
)
    requires
        second.continues(first),
        third.continues(second),
    ensures
        third.continues(first),
{
    assert forall|i: int|
        first.sender.queue.len() <= i < third.sender.queue.len() implies (
    #[trigger] third.sender.queue[i]).src == third.sender.local_id by {
        if i < second.sender.queue.len() {
            assert(third.sender.queue[i] == second.sender.queue[i]);
        }
    }
}

/// The state of one dispatch cycle.
pub struct MessageContext {
    msg: Option<Message>,
    sender: MaelstromServerMessageSender,
}

impl View for MessageContext {
    type V = ContextView;

    closed spec fn view(&self) -> ContextView {
        ContextView { inbound: message_of(self.msg), sender: self.sender@ }
    }
}

impl MessageContext {
    /// A context around `msg` with a sequencer of its own that has sent
    /// nothing and knows no node.
    pub fn new(msg: Option<Message>) -> (ctx: Self)
        ensures
            ctx@.wf(),
            ctx@.inbound == message_of(msg),
            ctx@.sender == (SenderView {
                local_id: None,
                peers: Seq::empty(),
                next_id: 1,
                queue: Seq::empty(),
            }),
    {
        MessageContext { msg, sender: MaelstromServerMessageSender::new() }
    }

    /// A context without an inbound message, as used to report a transport
    /// failure.
    pub fn empty() -> (ctx: Self)
        ensures
            ctx@.wf(),
            ctx@.inbound is None,
            ctx@.sender == (SenderView {
                local_id: None,
                peers: Seq::empty(),
                next_id: 1,
                queue: Seq::empty(),
            }),
    {
        MessageContext::new(None)
    }

    /// The same context around `msg`.
    pub fn with_message(self, msg: Message) -> (ctx: Self)
        ensures
            ctx@ == (ContextView { inbound: Some(msg@), ..self@ }),
    {
        MessageContext { msg: Some(msg), sender: self.sender }
    }

    /// The same context with `sender` as its sequencer.
    pub fn with_sender(self, sender: MaelstromServerMessageSender) -> (ctx: Self)
        ensures
            ctx@ == (ContextView { sender: sender@, ..self@ }),
    {
        MessageContext { msg: self.msg, sender }
    }

    /// The same context with `node_ids` as the known peers.
    pub fn with_node_ids(self, node_ids: &[String]) -> (ctx: Self)
        ensures
            ctx@ == (ContextView {
                sender: SenderView { peers: texts_of(node_ids@), ..self@.sender },
                ..self@
            }),
    {
        let mut ctx = self;
        ctx.sender.set_node_ids(node_ids);
        ctx
    }

    /// Tells the context the identity of the local node and its peers.
    /// Envelopes are stamped with that identity from now on.
    pub fn set_node(&mut self, node_id: &str, node_ids: &[String])
        ensures
            final(self)@ == (ContextView {
                sender: SenderView {
                    local_id: Some(node_id@),
                    peers: texts_of(node_ids@),
                    ..old(self)@.sender
                },
                ..old(self)@
            }),
    {
        self.sender.set_node_id(node_id);
        self.sender.set_node_ids(node_ids);
    }

    /// How many more envelopes can be sent before the identifiers run out.
    pub fn remaining(&self) -> (left: usize)
        ensures
            left == self@.sender.remaining(),
    {
        self.sender.remaining()
    }

    /// Ends the cycle: hands back the sequencer, with what is still
    /// buffered.
    pub fn into_sender(self) -> (sender: MaelstromServerMessageSender)
        ensures
            sender@ == self@.sender,
    {
        self.sender
    }

    /// The known peers.
    pub fn available_node_ids(&self) -> (peers: &Vec<String>)
        ensures
            texts_of(peers@) == self@.sender.peers,
    {
        self.sender.node_ids()
    }

    /// The destination of the inbound message.
    pub fn message_dest(&self) -> (dest: Option<&str>)
        ensures
            slice_text_of(dest) == (match self@.inbound {
                Some(m) => m.dest,
                None => None,
            }),
    {
        match &self.msg {
            Some(msg) => match &msg.dest {
                Some(dest) => Some(dest.as_str()),
                None => None,
            },
            None => None,
        }
    }

    /// The sender of the inbound message.
    pub fn message_src(&self) -> (src: Option<&str>)
        ensures
            slice_text_of(src) == self@.reply_dest(),
    {
        match &self.msg {
            Some(msg) => match &msg.src {
                Some(src) => Some(src.as_str()),
                None => None,
            },
            None => None,
        }
    }

    /// The discriminator of the inbound message, or the empty string where
    /// no inbound message is present.
    pub fn message_kind(&self) -> (kind: &str)
        ensures
            kind@ == self@.kind(),
    {
        match &self.msg {
            Some(msg) => msg.kind(),
            None => {
                proof {
                    reveal_strlit("");
                }
                assert(""@ =~= Seq::<char>::empty());
                ""
            },
        }
    }

    /// The identifier of the inbound message.
    pub fn message_id(&self) -> (id: Option<usize>)
        ensures
            id == self@.reply_to(),
    {
        match &self.msg {
            Some(msg) => msg.body.msg_id,
            None => None,
        }
    }

    /// The identifier that the inbound message is in reply to.
    pub fn message_in_reply_to(&self) -> (id: Option<usize>)
        ensures
            id == (match self@.inbound {
                Some(m) => m.in_reply_to,
                None => None,
            }),
    {
        match &self.msg {
            Some(msg) => msg.body.in_reply_to,
            None => None,
        }
    }

    /// The payload of the inbound message.
    pub closed spec fn inbound_payload(&self) -> DynamicMap {
        self.msg.unwrap().body.content.data
    }

    /// Reads the payload of the inbound message with `decode`, which says
    /// what is wrong with a payload that does not have the shape that it
    /// reads. Fails with `MalformedRequest` where no inbound message is
    /// present and where `decode` fails; what the decoder said is the cause.
    pub fn message_content<T, F: Fn(&DynamicMap) -> Result<T, String>>(&self, decode: F) -> (content:
        Result<T, ErrorMessage>)
        requires
            forall|data: &DynamicMap| call_requires(decode, (data,)),
        ensures
            self@.inbound matches Some(m) ==> entries_of(self.inbound_payload()) == m.payload,
            content matches Ok(value) ==> self@.inbound is Some && call_ensures(
                decode,
                (&self.inbound_payload(),),
                Ok::<T, String>(value),
            ),
            content matches Err(error) ==> match self@.inbound {
                Some(m) => exists|cause: String|
                    #[trigger] call_ensures(
                        decode,
                        (&self.inbound_payload(),),
                        Err::<T, String>(cause),
                    ) && error@ == crate::protocol::serialization::shape_mismatch(m.kind, cause@),
                None => error@ == no_message(),
            },
    {
        match &self.msg {
            Some(msg) => {
                let content = deserialize_message_content(msg, decode);
                proof {
                    if content is Err {
                        let error = content->Err_0;
                        let cause = choose|cause: String|
                            #[trigger] call_ensures(
                                decode,
                                (&msg.body.content.data,),
                                Err::<T, String>(cause),
                            ) && error@ == crate::protocol::serialization::shape_mismatch(
                                msg@.kind,
                                cause@,
                            );
                        assert(call_ensures(
                            decode,
                            (&self.inbound_payload(),),
                            Err::<T, String>(cause),
                        ));
                    }
                }
                content
            },
            None => Err(ErrorMessage::new(ErrorKind::MalformedRequest, "message not available")),
        }
    }

    /// Sends one envelope to the sender of the inbound message, in reply to
    /// it.
    pub fn reply(&mut self, kind: &str, data: &Value) -> (outcome: Result<
        (),
        ErrorMessage,
    >)
        requires
            old(self)@.wf(),
        ensures
            final(self)@.wf(),
            final(self)@.continues(old(self)@),
            (outcome_of(outcome), final(self)@) == old(self)@.sent(
                kind@,
                json_of(*data),
                old(self)@.reply_dest(),
                old(self)@.reply_to(),
            ),
    {
        let in_reply_to = self.message_id();
        let dest = match &self.msg {
            Some(msg) => match &msg.src {
                Some(src) => Some(src.clone()),
                None => None,
            },
            None => None,
        };
        match dest {
            Some(d) => self.send(kind, data, Some(d.as_str()), in_reply_to),
            None => self.send(kind, data, None, in_reply_to),
        }
    }

    /// Sends one envelope without a destination and in reply to nothing.
    /// This is no fan-out: no peer is addressed.
    pub fn broadcast(&mut self, kind: &str, data: &Value) -> (outcome: Result<
        (),
        ErrorMessage,
    >)
        requires
            old(self)@.wf(),
        ensures
            final(self)@.wf(),
            final(self)@.continues(old(self)@),
            (outcome_of(outcome), final(self)@) == old(self)@.sent(
                kind@,
                json_of(*data),
                None,
                None,
            ),
    {
        self.send(kind, data, None, None)
    }

    /// Sends one envelope to every known peer, in the order of the peers,
    /// each with the same payload and an identifier of its own, in reply to
    /// nothing.
    pub fn fan_out(&mut self, kind: &str, data: &Value) -> (outcome: Result<
        (),
        ErrorMessage,
    >)
        requires
            old(self)@.wf(),
        ensures
            final(self)@.wf(),
            final(self)@.continues(old(self)@),
            (outcome_of(outcome), final(self)@) == old(self)@.fanned_out(kind@, json_of(*data)),
    {
        match serialize_message_content(data) {
            Err(error) => Err(error),
            Ok(map) => {
                if self.sender.remaining() < self.sender.node_ids().len() {
                    Err(
                        ErrorMessage::new(
                            ErrorKind::Crash,
                            "outbound message identifiers are exhausted",
                        ),
                    )
                } else {
                    self.sender.fan_out(kind, map);
                    Ok(())
                }
            },
        }
    }

    /// Replies with an `error` envelope that carries the code and the text
    /// of `error`.
    pub fn error(&mut self, error: &ErrorMessage) -> (outcome: Result<(), ErrorMessage>)
        requires
            old(self)@.wf(),
        ensures
            final(self)@.wf(),
            final(self)@.continues(old(self)@),
            final(self)@ == old(self)@.reported(error@),
            outcome_of(outcome) == old(self)@.sent(
                "error"@,
                Json::Object(error@.fields()),
                old(self)@.reply_dest(),
                old(self)@.reply_to(),
            ).0,
    {
        let payload = error.to_value();
        self.reply("error", &payload)
    }

    /// Takes the buffered outbound envelopes, in the order in which they
    /// were sent. The buffer is empty afterwards.
    pub fn drain(&mut self) -> (messages: Vec<Message>)
        requires
            old(self)@.wf(),
        ensures
            final(self)@.wf(),
            messages_of(messages@) == old(self)@.outbound(),
            final(self)@ == (ContextView {
                sender: SenderView { queue: Seq::empty(), ..old(self)@.sender },
                ..old(self)@
            }),
    {
        self.sender.drain()
    }

    /// Ends the cycle and hands out the buffered outbound envelopes, in the
    /// order in which they were sent.
    pub fn into_output_iter(self) -> (messages: Vec<Message>)
        requires
            self@.wf(),
        ensures
            messages_of(messages@) == self@.outbound(),
    {
        let mut ctx = self;
        ctx.sender.drain()
    }

    fn send(
        &mut self,
        kind: &str,
        data: &Value,
        dest: Option<&str>,
        in_reply_to: Option<usize>,
    ) -> (outcome: Result<(), ErrorMessage>)
        requires
            old(self)@.wf(),
        ensures
            final(self)@.wf(),
            final(self)@.continues(old(self)@),
            (outcome_of(outcome), final(self)@) == old(self)@.sent(
                kind@,
                json_of(*data),
                slice_text_of(dest),
                in_reply_to,
            ),
    {
        match serialize_message_content(data) {
            Err(error) => Err(error),
            Ok(map) => {
                if self.sender.remaining() < 1 {
                    Err(
                        ErrorMessage::new(
                            ErrorKind::Crash,
                            "outbound message identifiers are exhausted",
                        ),
                    )
                } else {
                    self.sender.send(kind, map, dest, in_reply_to);
                    Ok(())
                }
            },
        }
    }
}

} // verus!
