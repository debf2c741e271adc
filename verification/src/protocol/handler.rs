//! The capability that every handler offers to the registry.

use vstd::prelude::*;
use crate::protocol::context::{outcome_of, ContextView, MessageContext};
use crate::protocol::errors::{ErrorMessage, ErrorMessageView};
use crate::protocol::payload::texts_of;

verus! {

/// The views of a sequence of string slices, in order.
pub open spec fn slice_texts_of(texts: Seq<&'static str>) -> Seq<Seq<char>> {
    texts.map_values(|t: &'static str| t@)
}

/// A handler of messages: it declares the discriminators that it handles and
/// answers the messages that carry them through the context. A handler owns
/// its state; all that it can do to the context is to send, so the context
/// after a call continues the context before it.
pub trait MessageHandler {
    /// A handler in its initial state.
    fn new() -> Self where Self: Sized;

    /// The discriminators that handlers of this type handle.
    fn get_handled_messages() -> (kinds: Vec<&'static str>) where Self: Sized;

    /// What a handler in this state does when it is told the node `node_id`
    /// with the peers `node_ids` on the context `before`: the context `after`
    /// in which it leaves, and the outcome that it gives. A handler that does
    /// not say what it does allows everything.
    open spec fn initialized(
        &self,
        node_id: Seq<char>,
        node_ids: Seq<Seq<char>>,
        before: ContextView,
        after: ContextView,
        outcome: Result<(), ErrorMessageView>,
    ) -> bool {
        true
    }

    /// What a handler in this state does with the inbound message of the
    /// context `before`: the context `after` in which it leaves, and the
    /// outcome that it gives. A handler that does not say what it does allows
    /// everything.
    open spec fn handled(
        &self,
        before: ContextView,
        after: ContextView,
        outcome: Result<(), ErrorMessageView>,
    ) -> bool {
        true
    }

    /// Whether the handler never changes its state. A handler that does not
    /// say so may change it with every call.
    open spec fn steady(&self) -> bool {
        false
    }

    /// Tells the handler the identity of the local node and its peers, once
    /// the node is initialized. The handler does what [`initialized`] says of
    /// it, and keeps its state where it is [`steady`].
    ///
    /// [`steady`]: MessageHandler::steady
    ///
    /// [`initialized`]: MessageHandler::initialized
    fn init(&mut self, node_id: &str, node_ids: &[String], ctx: &mut MessageContext) -> (outcome:
        Result<(), ErrorMessage>)
        requires
            old(ctx)@.wf(),
        ensures
            final(ctx)@.wf(),
            final(ctx)@.continues(old(ctx)@),
            old(self).initialized(
                node_id@,
                texts_of(node_ids@),
                old(ctx)@,
                final(ctx)@,
                outcome_of(outcome),
            ),
            old(self).steady() ==> &*final(self) == &*old(self),
    ;

    /// Handles the inbound message of the context. The handler does what
    /// [`handled`] says of it, and keeps its state where it is [`steady`].
    ///
    /// [`steady`]: MessageHandler::steady
    ///
    /// [`handled`]: MessageHandler::handled
    fn handle(&mut self, ctx: &mut MessageContext) -> (outcome: Result<(), ErrorMessage>)
        requires
            old(ctx)@.wf(),
        ensures
            final(ctx)@.wf(),
            final(ctx)@.continues(old(ctx)@),
            old(self).handled(old(ctx)@, final(ctx)@, outcome_of(outcome)),
            old(self).steady() ==> &*final(self) == &*old(self),
    ;
}

} // verus!
