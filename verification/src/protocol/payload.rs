//! The envelope model: one transmitted unit with optional sender and
//! destination, correlation metadata, a discriminator and an open payload.

use vstd::prelude::*;
use vstd::string::*;
use crate::json::{entries_of, DynamicMap, Fields};

verus! {

/// What a [`Message`] holds, as plain values: the envelope with its body
/// flattened.
pub struct MessageView {
    pub src: Option<Seq<char>>,
    pub dest: Option<Seq<char>>,
    pub msg_id: Option<usize>,
    pub in_reply_to: Option<usize>,
    pub kind: Seq<char>,
    pub payload: Fields,
}

/// The view of an optional string.
pub open spec fn text_of(text: Option<String>) -> Option<Seq<char>> {
    match text {
        Some(t) => Some(t@),
        None => None,
    }
}

/// The views of a sequence of strings, in order.
pub open spec fn texts_of(texts: Seq<String>) -> Seq<Seq<char>> {
    texts.map_values(|t: String| t@)
}

/// The views of a sequence of messages, in order.
pub open spec fn messages_of(messages: Seq<Message>) -> Seq<MessageView> {
    messages.map_values(|m: Message| m@)
}

/// The discriminator and the payload of a message.
#[derive(Debug, PartialEq)]
pub struct MessageContent {
    pub kind: String,
    pub data: DynamicMap,
}

/// The body of an envelope: correlation metadata and the content.
#[derive(Debug, PartialEq)]
pub struct MessageBody {
    pub msg_id: Option<usize>,
    pub in_reply_to: Option<usize>,
    pub content: MessageContent,
}

/// One transmitted unit.
#[derive(Debug, PartialEq)]
pub struct Message {
    pub src: Option<String>,
    pub dest: Option<String>,
    pub body: MessageBody,
}

impl View for Message {
    type V = MessageView;

    open spec fn view(&self) -> MessageView {
        MessageView {
            src: text_of(self.src),
            dest: text_of(self.dest),
            msg_id: self.body.msg_id,
            in_reply_to: self.body.in_reply_to,
            kind: self.body.content.kind@,
            payload: entries_of(self.body.content.data),
        }
    }
}

/// A copy of an optional string.
pub fn clone_text(text: &Option<String>) -> (copy: Option<String>)
    ensures
        text_of(copy) == text_of(*text),
{
    match text {
        Some(t) => Some(t.clone()),
        None => None,
    }
}

impl Clone for MessageContent {
    fn clone(&self) -> (copy: MessageContent)
        ensures
            copy.kind@ == self.kind@,
            entries_of(copy.data) == entries_of(self.data),
    {
        MessageContent { kind: self.kind.clone(), data: self.data.clone() }
    }
}

impl Clone for MessageBody {
    fn clone(&self) -> (copy: MessageBody)
        ensures
            copy.msg_id == self.msg_id,
            copy.in_reply_to == self.in_reply_to,
            copy.content.kind@ == self.content.kind@,
            entries_of(copy.content.data) == entries_of(self.content.data),
    {
        MessageBody {
            msg_id: self.msg_id,
            in_reply_to: self.in_reply_to,
            content: self.content.clone(),
        }
    }
}

impl Clone for Message {
    fn clone(&self) -> (copy: Message)
        ensures
            copy@ == self@,
    {
        Message { src: clone_text(&self.src), dest: clone_text(&self.dest), body: self.body.clone() }
    }
}

impl Message {
    /// The discriminator of the message.
    pub fn kind(&self) -> (kind: &str)
        ensures
            kind@ == self@.kind,
    {
        self.body.content.kind.as_str()
    }
}

} // verus!
