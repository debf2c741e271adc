//! The node lifecycle: a node is created by the initialization handshake,
//! which names it and its peers.

use vstd::prelude::*;
use vstd::string::*;
use crate::json::no_fields;
use crate::protocol::context::{exhausted, no_message, ContextView, MessageContext};
use crate::protocol::errors::{ErrorKind, ErrorMessage, ErrorMessageView};
use crate::protocol::fields::{string_field, strings_field};
use crate::protocol::payload::{text_of, texts_of};
use crate::protocol::serialization::shape_mismatch;
use crate::server::sender::SenderView;
use crate::server::system_messages::{InitMessage, InitOkMessage};

verus! {

/// What a [`MaelstromServerNode`] holds, as plain values.
pub struct NodeView {
    pub node_id: Option<Seq<char>>,
    pub node_ids: Seq<Seq<char>>,
}

/// The identity of the local node and its known peers.
#[derive(Debug)]
pub struct MaelstromServerNode {
    pub node_id: Option<String>,
    pub node_ids: Vec<String>,
}

impl View for MaelstromServerNode {
    type V = NodeView;

    open spec fn view(&self) -> NodeView {
        NodeView { node_id: text_of(self.node_id), node_ids: texts_of(self.node_ids@) }
    }
}

/// The node that an initialization request with the payload `fields`
/// names, where the payload has the shape of such a request.
pub open spec fn named_node(fields: crate::json::Fields) -> Option<NodeView> {
    if InitMessage::accepts(fields) {
        Some(
            NodeView {
                node_id: string_field(fields, "node_id"@),
                node_ids: strings_field(fields, "node_ids"@).unwrap(),
            },
        )
    } else {
        None
    }
}

/// The outcome of the handshake on the context `ctx`: the node that it
/// creates, or the error, and the context afterwards. The handshake fails,
/// leaving the context as it was, where no inbound message is present, where
/// its payload does not name a node, and where no identifier is left for
/// the acknowledgement. Else the context knows the node and its peers, and
/// has sent one `init_ok` without fields to the sender of the request, in
/// reply to it.
pub open spec fn handshake(ctx: ContextView) -> (Result<NodeView, ErrorMessageView>, ContextView) {
    match ctx.inbound {
        None => (Err(no_message()), ctx),
        Some(m) => match named_node(m.payload) {
            None => (
                Err(shape_mismatch(m.kind, InitMessage::refusal(m.payload).unwrap())),
                ctx,
            ),
            Some(node) => if ctx.sender.remaining() < 1 {
                (Err(exhausted()), ctx)
            } else {
                (
                    Ok(node),
                    ContextView {
                        sender: (SenderView {
                            local_id: node.node_id,
                            peers: node.node_ids,
                            ..ctx.sender
                        }).after_send("init_ok"@, no_fields(), m.src, m.msg_id),
                        ..ctx
                    },
                )
            },
        },
    }
}

/// The view of the outcome of a handshake.
pub open spec fn created_of(outcome: Result<MaelstromServerNode, ErrorMessage>) -> Result<
    NodeView,
    ErrorMessageView,
> {
    match outcome {
        Ok(node) => Ok(node@),
        Err(error) => Err(error@),
    }
}

impl MaelstromServerNode {
    /// Performs the initialization handshake on the inbound message of the
    /// context.
    pub fn create(ctx: &mut MessageContext) -> (outcome: Result<Self, ErrorMessage>)
        requires
            old(ctx)@.wf(),
        ensures
            final(ctx)@.wf(),
            (created_of(outcome), final(ctx)@) == handshake(old(ctx)@),
    {
        let init_msg = match ctx.message_content(InitMessage::from_payload) {
            Ok(init_msg) => init_msg,
            Err(error) => {
                return Err(error);
            },
        };
        if ctx.remaining() < 1 {
            return Err(
                ErrorMessage::new(ErrorKind::Crash, "outbound message identifiers are exhausted"),
            );
        }
        ctx.set_node(init_msg.node_id.as_str(), init_msg.node_ids.as_slice());
        match ctx.reply("init_ok", &InitOkMessage.to_value()) {
            Ok(_) => {},
            Err(error) => {
                return Err(error);
            },
        }
        Ok(MaelstromServerNode { node_id: Some(init_msg.node_id), node_ids: init_msg.node_ids })
    }
}

} // verus!
