//! The service: one node process. It owns the registry, the node and the
//! output sequencer, and turns every inbound message into the envelopes
//! that answer it.

use vstd::prelude::*;
use vstd::string::*;
use crate::protocol::context::{
    lemma_continues_transitive, outcome_of, ContextView, MessageContext,
};
use crate::protocol::errors::{ErrorKind, ErrorMessage, ErrorMessageView};
use crate::protocol::handler::{slice_texts_of, MessageHandler};
use crate::protocol::payload::{messages_of, texts_of, Message, MessageView};
use crate::protocol::wire::{parse_message, received};
use crate::server::handler::{
    not_supported, MaelstromServerMessageHandler, RegisteredHandler, RegistryView,
};
use crate::server::node::{handshake, MaelstromServerNode, NodeView};
use crate::server::sender::{
    lemma_numbered_continues, numbered, MaelstromServerMessageSender, SenderView,
};
use crate::server::system_messages::InitMessage;
use crate::text::str_eq;

verus! {

/// The error that reports a message that arrived before the node was
/// initialized.
pub open spec fn not_initialized(kind: Seq<char>) -> ErrorMessageView {
    ErrorMessageView::of(
        ErrorKind::PreconditionFailed,
        "node is not initialized before handling message type "@ + kind,
    )
}

/// The error that reports a line that is no JSON document, with the text
/// of the parser.
pub open spec fn unreadable(text: Seq<char>) -> ErrorMessageView {
    ErrorMessageView::of(ErrorKind::MalformedRequest, text)
}

/// The view of an optional node.
pub open spec fn node_of(node: Option<MaelstromServerNode>) -> Option<NodeView> {
    match node {
        Some(n) => Some(n@),
        None => None,
    }
}

/// The sequencer stamps envelopes with the identity of `node` and fans out
/// to its peers; without a node it knows neither.
pub open spec fn agrees(node: Option<NodeView>, sender: SenderView) -> bool {
    match node {
        Some(n) => sender.local_id == n.node_id && sender.peers == n.node_ids,
        None => sender.local_id is None && sender.peers.len() == 0,
    }
}

/// The view of a decoded inbound message, or of the failure to decode one.
pub open spec fn decoded_of(decoded: Result<Message, ErrorMessage>) -> Result<
    MessageView,
    ErrorMessageView,
> {
    match decoded {
        Ok(m) => Ok(m@),
        Err(error) => Err(error@),
    }
}

/// The inbound message of a cycle: none where decoding failed.
pub open spec fn inbound_of(decoded: Result<MessageView, ErrorMessageView>) -> Option<
    MessageView,
> {
    match decoded {
        Ok(m) => Some(m),
        Err(_) => None,
    }
}

/// The envelopes that a cycle hands out where the handlers left the context
/// `sent` and gave `verdict`: what is buffered in `sent`, followed, exactly
/// where the verdict is a failure, by the report of that failure to the
/// sender of the inbound message.
pub open spec fn conclusion(sent: ContextView, verdict: Result<(), ErrorMessageView>) -> Seq<
    MessageView,
> {
    match verdict {
        Ok(_) => sent.outbound(),
        Err(error) => sent.reported(error).outbound(),
    }
}

/// The handlers sent on the context `begun` until it became `sent`, and the
/// batch holds what they sent, followed, where `verdict` is the failure of
/// one of them, by the report of that failure to the sender of the inbound
/// message.
pub open spec fn concluded(
    begun: ContextView,
    sent: ContextView,
    verdict: Result<(), ErrorMessageView>,
    batch: Seq<MessageView>,
) -> bool {
    &&& sent.wf()
    &&& sent.continues(begun)
    &&& batch == match verdict {
        Ok(_) => sent.outbound(),
        Err(error) => sent.reported(error).outbound(),
    }
}

/// The batch holds what handlers sent on the context `begun`, followed by
/// the report of a failure where one of them failed: no error is lost, and
/// none is reported twice.
pub open spec fn answered(begun: ContextView, batch: Seq<MessageView>) -> bool {
    exists|sent: ContextView, verdict: Result<(), ErrorMessageView>| #[trigger]
        concluded(begun, sent, verdict, batch)
}

/// What a [`MaelstromService`] holds, as plain values.
pub struct ServiceView {
    /// What every registered handler declared.
    pub registry: RegistryView,
    /// The node, once initialized.
    pub node: Option<NodeView>,
    /// The identifier that the next outbound envelope gets.
    pub next_id: nat,
}

impl ServiceView {
    /// The context of the cycle that handles `inbound`: nothing is buffered,
    /// and the sequencer goes on where the last cycle left it.
    pub open spec fn cycle(self, inbound: Option<MessageView>) -> ContextView {
        ContextView {
            inbound,
            sender: SenderView {
                local_id: match self.node {
                    Some(n) => n.node_id,
                    None => None,
                },
                peers: match self.node {
                    Some(n) => n.node_ids,
                    None => Seq::empty(),
                },
                next_id: self.next_id,
                queue: Seq::empty(),
            },
        }
    }
}

/// One node process.
pub struct MaelstromService {
    handler: MaelstromServerMessageHandler,
    node: Option<MaelstromServerNode>,
    sender: MaelstromServerMessageSender,
}

impl View for MaelstromService {
    type V = ServiceView;

    closed spec fn view(&self) -> ServiceView {
        ServiceView {
            registry: self.handler@,
            node: node_of(self.node),
            next_id: self.sender@.next_id,
        }
    }
}

impl MaelstromService {
    /// Between two cycles the registry is well-formed, nothing is buffered,
    /// and the sequencer knows the node exactly as far as it is initialized.
    pub closed spec fn wf(&self) -> bool {
        &&& self.handler.wf()
        &&& self.sender@.wf()
        &&& self.sender@.queue.len() == 0
        &&& agrees(node_of(self.node), self.sender@)
    }

    /// The handler at position `i`, with its state.
    pub open spec fn handler_at(&self, i: int) -> RegisteredHandler {
        self.registry().handler_at(i)
    }

    /// The handlers that are steady are in `after` what they are here.
    pub open spec fn steady_kept(&self, after: &Self) -> bool {
        forall|i: int|
            0 <= i < self@.registry.declared.len() && (#[trigger] self.registry().handler_at(
                i,
            )).handler.steady() ==> after.registry().handler_at(i).handler
                == self.registry().handler_at(i).handler
    }

    /// The view of the registry of the service is the registry of its view.
    pub proof fn lemma_registry_view(&self)
        ensures
            self.registry()@ == self@.registry,
    {
    }

    /// The registry of the service.
    pub closed spec fn registry(&self) -> MaelstromServerMessageHandler {
        self.handler
    }

    /// The cycle dispatched the message of kind `kind` on the context
    /// `start`: the batch is what one dispatch of the registry left in the
    /// buffer, followed by the report of its failure exactly where it
    /// failed; the registry of `after` is the one that the dispatch left.
    pub open spec fn dispatched_round(
        &self,
        kind: Seq<char>,
        start: ContextView,
        after: &Self,
        batch: Seq<MessageView>,
    ) -> bool {
        exists|
            registries: Seq<MaelstromServerMessageHandler>,
            trace: Seq<ContextView>,
            sent: ContextView,
            verdict: Result<(), ErrorMessageView>,
        |
            #[trigger] self.registry().dispatched(
                kind,
                registries,
                trace,
                start,
                after.registry(),
                sent,
                verdict,
            ) && batch == conclusion(sent, verdict)
    }

    /// The cycle told the handlers the node `node` on the context
    /// `acknowledged`: the batch is what one round of the registry left in
    /// the buffer, followed by the report of its failure exactly where it
    /// failed.
    pub open spec fn announced_round(
        &self,
        node: NodeView,
        acknowledged: ContextView,
        batch: Seq<MessageView>,
    ) -> bool {
        exists|trace: Seq<ContextView>, sent: ContextView, verdict: Result<(), ErrorMessageView>|
            #[trigger] self.registry().round(
                node.node_id.unwrap(),
                node.node_ids,
                trace,
                acknowledged,
                sent,
                verdict,
            ) && batch == conclusion(sent, verdict)
    }

    /// Every handler is in the state in which it is in `before`.
    pub open spec fn same_handlers(&self, before: &Self) -> bool {
        forall|i: usize|
            i < before@.registry.declared.len() ==> self.handler_at(i as int) == before.handler_at(
                i as int,
            )
    }

    /// What one cycle does: `self` is the service before it, `decoded` the
    /// inbound message or the failure to decode one, `after` the service
    /// after it and `batch` the envelopes that the cycle hands out.
    ///
    /// Whatever arrives, the registry keeps its handlers, and those that are
    /// steady keep their state; the batch carries
    /// the next identifiers one after the other, and every envelope of the
    /// batch carries the node as its source as far as the node is known.
    /// Only `init` changes the node.
    ///
    /// A message whose kind has handlers goes through one dispatch of the
    /// registry, and a successful handshake is followed by one round in
    /// which the handlers are told the node: each handler does what it says
    /// of itself, in the order of registration, on the context as the one
    /// before left it, and the first failure ends the dispatch or the round.
    /// What the handlers sent is handed out in the order in which they sent
    /// it. Exactly where a handler failed, one `error` envelope that reports
    /// the failure to the sender of the inbound message follows.
    ///
    /// A failure to decode is reported in one `error` envelope without a
    /// destination. A message other than `init` that arrives before the node
    /// is initialized is answered with `PreconditionFailed` and reaches no
    /// handler. A message without a registered handler is answered with
    /// `NotSupported`. An `init` performs the handshake: where it fails, the
    /// failure is reported and the node stays as it was; where it succeeds,
    /// the node is the one that the request names and the batch starts with
    /// the acknowledgement.
    pub open spec fn delivered(
        &self,
        decoded: Result<MessageView, ErrorMessageView>,
        after: &Self,
        batch: Seq<MessageView>,
    ) -> bool {
        &&& after@.registry == self@.registry
        &&& self.steady_kept(after)
        &&& numbered(batch, self@.next_id, after@.next_id)
        &&& forall|i: int|
            0 <= i < batch.len() ==> (#[trigger] batch[i]).src == after@.cycle(None).sender.local_id
        &&& match decoded {
            Err(error) => {
                &&& after@.node == self@.node
                &&& after.same_handlers(self)
                &&& batch == self@.cycle(None).reported(error).outbound()
            },
            Ok(m) => if m.kind != "init"@ {
                &&& after@.node == self@.node
                &&& answered(self@.cycle(Some(m)), batch)
                &&& self@.node is None ==> {
                    &&& after.same_handlers(self)
                    &&& batch == self@.cycle(Some(m)).reported(not_initialized(m.kind)).outbound()
                }
                &&& self@.node is Some && self@.registry.handlers_for(m.kind).len() == 0 ==> {
                    &&& after.same_handlers(self)
                    &&& batch == self@.cycle(Some(m)).reported(not_supported(m.kind)).outbound()
                }
                &&& self@.node is Some && self@.registry.handlers_for(m.kind).len() > 0
                    ==> self.dispatched_round(m.kind, self@.cycle(Some(m)), after, batch)
                &&& forall|i: usize|
                    i < self@.registry.declared.len() && !self@.registry.handlers_for(
                        m.kind,
                    ).contains(i) ==> after.handler_at(i as int) == self.handler_at(i as int)
            } else {
                match handshake(self@.cycle(Some(m))) {
                    (Err(error), _) => {
                        &&& after@.node == self@.node
                        &&& after.same_handlers(self)
                        &&& batch == self@.cycle(Some(m)).reported(error).outbound()
                    },
                    (Ok(node), acknowledged) => {
                        &&& after@.node == Some(node)
                        &&& answered(acknowledged, batch)
                        &&& self.announced_round(node, acknowledged, batch)
                        &&& acknowledged.outbound().is_prefix_of(batch)
                        &&& self@.registry.declared.len() == 0 ==> batch
                            == acknowledged.outbound()
                    },
                }
            },
        }
    }

    /// Two cycles of which the second starts where the first ended hand out
    /// envelopes that are numbered one after the other: the identifiers of
    /// the second batch go on behind those of the first.
    pub proof fn lemma_cycles_numbered(
        &self,
        first: Result<MessageView, ErrorMessageView>,
        between: &Self,
        earlier: Seq<MessageView>,
        second: Result<MessageView, ErrorMessageView>,
        after: &Self,
        later: Seq<MessageView>,
    )
        requires
            self.delivered(first, between, earlier),
            between.delivered(second, after, later),
        ensures
            numbered(earlier + later, self@.next_id, after@.next_id),
    {
        lemma_numbered_continues(
            earlier,
            later,
            self@.next_id,
            between@.next_id,
            after@.next_id,
        );
    }

    /// A service without handlers whose node is not initialized and whose
    /// sequencer has sent nothing.
    pub fn new() -> (service: Self)
        ensures
            service.wf(),
            service@ == (ServiceView {
                registry: RegistryView { declared: Seq::empty() },
                node: None,
                next_id: 1,
            }),
    {
        MaelstromService {
            handler: MaelstromServerMessageHandler::new(),
            node: None,
            sender: MaelstromServerMessageSender::new(),
        }
    }

    /// Registers a new handler of type `T`, in its initial state, behind the
    /// handlers that are registered already, under every discriminator that
    /// the type declares. The new position holds what `T::new` gave.
    pub fn register_handler<T: MessageHandler + 'static>(&mut self)
        requires
            old(self).wf(),
        ensures
            final(self).wf(),
            exists|kinds: Vec<&'static str>, fresh: T, owned: Vec<String>|
                {
                    &&& call_ensures(T::get_handled_messages, (), kinds)
                    &&& call_ensures(T::new, (), fresh)
                    &&& final(self)@ == (ServiceView {
                        registry: RegistryView {
                            declared: #[trigger] old(self)@.registry.declared.push(
                                slice_texts_of(kinds@),
                            ),
                        },
                        ..old(self)@
                    })
                    &&& final(self).handler_at(old(self)@.registry.declared.len() as int) == (
                    #[trigger] RegisteredHandler::holding(owned, fresh))
                },
            final(self).same_handlers(old(self)),
    {
        let kinds = T::get_handled_messages();
        let fresh = T::new();
        let ghost held = fresh;
        self.register(fresh, &kinds);
        let ghost owned = choose|owned: Vec<String>|
            #[trigger] texts_of(owned@) == slice_texts_of(kinds@) && self.handler_at(
                old(self)@.registry.declared.len() as int,
            ) == RegisteredHandler::holding(owned, held);
        assert(call_ensures(T::get_handled_messages, (), kinds) && call_ensures(T::new, (), held)
            && self@.registry.declared == old(self)@.registry.declared.push(
            slice_texts_of(kinds@),
        ) && self.handler_at(old(self)@.registry.declared.len() as int)
            == RegisteredHandler::holding(owned, held));
    }

    /// Registers `handler` behind the handlers that are registered already,
    /// under every discriminator in `kinds`, in the order of `kinds`. The new
    /// position holds `handler`.
    pub fn register<T: MessageHandler + 'static>(&mut self, handler: T, kinds: &Vec<&'static str>)
        requires
            old(self).wf(),
        ensures
            final(self).wf(),
            final(self)@ == (ServiceView {
                registry: RegistryView {
                    declared: old(self)@.registry.declared.push(slice_texts_of(kinds@)),
                },
                ..old(self)@
            }),
            exists|owned: Vec<String>|
                #[trigger] texts_of(owned@) == slice_texts_of(kinds@) && final(self).handler_at(
                    old(self)@.registry.declared.len() as int,
                ) == RegisteredHandler::holding(owned, handler),
            final(self).same_handlers(old(self)),
    {
        self.handler.register(handler, kinds)
    }

    /// Runs one cycle on one line of input and hands out the envelopes that
    /// answer it, in the order in which they were sent. A line that is no
    /// JSON document is reported as `MalformedRequest` with the text of the
    /// parser; a document that is no envelope is reported as
    /// `MalformedRequest` too.
    pub fn input(&mut self, line: &str) -> (batch: Vec<Message>)
        requires
            old(self).wf(),
        ensures
            final(self).wf(),
            match received(line@) {
                Some(decoded) => old(self).delivered(decoded, final(self), messages_of(batch@)),
                None => exists|text: Seq<char>| #[trigger]
                    old(self).delivered(
                        Err(unreadable(text)),
                        final(self),
                        messages_of(batch@),
                    ),
            },
    {
        let decoded = parse_message(line);
        proof {
            if received(line@) is None {
                assert(decoded_of(decoded) == Err::<MessageView, ErrorMessageView>(
                    unreadable(decoded->Err_0@.text),
                ));
            }
        }
        let ghost view = decoded_of(decoded);
        let batch = self.deliver(decoded);
        proof {
            if received(line@) is None {
                let text = view->Err_0.text;
                assert(old(self).delivered(Err(unreadable(text)), self, messages_of(batch@)));
            }
        }
        batch
    }

    /// Ends a dispatch with the outcome that the handlers gave: a failure is
    /// reported to the sender of the inbound message in one `error`
    /// envelope, and success adds nothing.
    pub fn conclude(ctx: &mut MessageContext, outcome: Result<(), ErrorMessage>)
        requires
            old(ctx)@.wf(),
        ensures
            final(ctx)@.wf(),
            final(ctx)@.continues(old(ctx)@),
            final(ctx)@ == match outcome_of(outcome) {
                Ok(_) => old(ctx)@,
                Err(error) => old(ctx)@.reported(error),
            },
    {
        if let Err(error) = outcome {
            let _ = ctx.error(&error);
        }
    }

    /// Runs one cycle on a decoded inbound message, or on the failure to
    /// decode one, and hands out the envelopes that answer it, in the order
    /// in which they were sent.
    pub fn deliver(&mut self, decoded: Result<Message, ErrorMessage>) -> (batch: Vec<Message>)
        requires
            old(self).wf(),
        ensures
            final(self).wf(),
            old(self).delivered(decoded_of(decoded), final(self), messages_of(batch@)),
    {
        let mut sender = MaelstromServerMessageSender::new();
        std::mem::swap(&mut self.sender, &mut sender);
        let ghost view = decoded_of(decoded);
        let ghost start = old(self)@.cycle(inbound_of(view));
        assert(sender@.peers =~= start.sender.peers);
        assert(sender@.queue =~= start.sender.queue);
        let mut ctx = MessageContext::new(None).with_sender(sender);
        let ghost swapped = *self;
        assert(swapped.registry() == old(self).registry());
        assert(swapped@.registry == old(self)@.registry);
        let outcome = match decoded {
            Err(error) => Err(error),
            Ok(msg) => {
                ctx = ctx.with_message(msg);
                let outcome = self.handle(&mut ctx);
                assert(swapped.steady_kept(self));
                outcome
            },
        };
        assert(swapped.steady_kept(self));
        let ghost handled = ctx@;
        let ghost verdict = outcome_of(outcome);
        let ghost dispatcher = self.handler;
        assert(old(self).steady_kept(self));
        assert(view is Err ==> handled == start && verdict == Err::<(), ErrorMessageView>(
            view->Err_0,
        ));
        assert(view is Ok ==> old(self).handled(start, self, handled, verdict));
        MaelstromService::conclude(&mut ctx, outcome);
        let ghost end = ctx@;
        assert(end.continues(handled));
        assert(verdict matches Err(error) ==> end == handled.reported(error));
        assert(verdict is Ok ==> end == handled);
        let mut sender = ctx.into_sender();
        let batch = sender.drain();
        self.sender = sender;
        proof {
            let out = messages_of(batch@);
            let local_id = self@.cycle(None).sender.local_id;
            assert(out == end.outbound());
            assert(self@.next_id == end.sender.next_id);
            assert(agrees(node_of(self.node), end.sender));
            assert(local_id == end.sender.local_id);
            assert(self.handler == dispatcher);
            assert(old(self).steady_kept(self));
            assert(out == conclusion(handled, verdict));
            if view is Ok && start.kind() != "init"@ && old(self).node is Some && old(
                self,
            )@.registry.handlers_for(start.kind()).len() > 0 {
                let (registries, trace) = choose|
                    registries: Seq<MaelstromServerMessageHandler>,
                    trace: Seq<ContextView>,
                | #[trigger]
                    old(self).handler.dispatched(
                        start.kind(),
                        registries,
                        trace,
                        start,
                        self.handler,
                        handled,
                        verdict,
                    );
                assert(old(self).registry().dispatched(
                    start.kind(),
                    registries,
                    trace,
                    start,
                    self.registry(),
                    handled,
                    verdict,
                ));
                assert(old(self).dispatched_round(start.kind(), start, self, out));
            }
            if view is Ok && start.kind() == "init"@ && handshake(start).0 is Ok {
                // The batch starts with the acknowledgement, which carries
                // the new node; what follows continues it.
                let acknowledged = handshake(start).1;
                let node = handshake(start).0->Ok_0;
                let trace = choose|trace: Seq<ContextView>| #[trigger]
                    old(self).handler.round(
                        node.node_id.unwrap(),
                        node.node_ids,
                        trace,
                        acknowledged,
                        handled,
                        verdict,
                    );
                assert(old(self).registry().round(
                    node.node_id.unwrap(),
                    node.node_ids,
                    trace,
                    acknowledged,
                    handled,
                    verdict,
                ));
                assert(old(self).announced_round(node, acknowledged, out));
                assert(handled.continues(acknowledged));
                assert(concluded(acknowledged, handled, verdict, out));
                lemma_continues_transitive(acknowledged, handled, end);
                assert(acknowledged.outbound().len() == 1);
                assert(acknowledged.outbound()[0].src == acknowledged.sender.local_id);
                assert(out[0] == acknowledged.outbound()[0]);
                assert(numbered(out, old(self)@.next_id, self@.next_id));
                assert forall|i: int| 0 <= i < out.len() implies (#[trigger] out[i]).src
                    == local_id by {
                    if i > 0 {
                        assert(end.sender.queue[i].src == end.sender.local_id);
                    }
                }
            } else {
                assert(handled.continues(start));
                assert(concluded(start, handled, verdict, out));
                lemma_continues_transitive(start, handled, end);
                assert(start.outbound().len() == 0);
                assert(numbered(out, old(self)@.next_id, self@.next_id));
                assert forall|i: int| 0 <= i < out.len() implies (#[trigger] out[i]).src
                    == local_id by {
                    assert(end.sender.queue[i].src == end.sender.local_id);
                }
            }
        }
        batch
    }

    /// What the guard and the dispatch do to the service and to the context
    /// of the cycle.
    spec fn handled(
        &self,
        start: ContextView,
        after: &Self,
        end: ContextView,
        outcome: Result<(), ErrorMessageView>,
    ) -> bool {
        let kind = start.kind();
        if kind != "init"@ {
            &&& node_of(after.node) == node_of(self.node)
            &&& end.continues(start)
            &&& self.node is None ==> {
                &&& after.same_handlers(self)
                &&& end == start
                &&& outcome == Err::<(), ErrorMessageView>(not_initialized(kind))
            }
            &&& self.node is Some && self.handler@.handlers_for(kind).len() == 0 ==> {
                &&& after.same_handlers(self)
                &&& end == start
                &&& outcome == Err::<(), ErrorMessageView>(not_supported(kind))
            }
            &&& self.node is Some && self.handler@.handlers_for(kind).len() > 0 ==> exists|
                registries: Seq<MaelstromServerMessageHandler>,
                trace: Seq<ContextView>,
            | #[trigger]
                self.handler.dispatched(kind, registries, trace, start, after.handler, end, outcome)
            &&& forall|i: usize|
                i < self.handler@.declared.len() && !self.handler@.handlers_for(kind).contains(i)
                    ==> after.handler_at(i as int) == self.handler_at(i as int)
        } else {
            self.initialized(start, after, end, outcome)
        }
    }

    /// What the handshake and the announcement of the node do to the service
    /// and to the context of the cycle.
    spec fn initialized(
        &self,
        start: ContextView,
        after: &Self,
        end: ContextView,
        outcome: Result<(), ErrorMessageView>,
    ) -> bool {
        match handshake(start) {
            (Err(error), _) => {
                &&& node_of(after.node) == node_of(self.node)
                &&& after.same_handlers(self)
                &&& end == start
                &&& outcome == Err::<(), ErrorMessageView>(error)
            },
            (Ok(node), acknowledged) => {
                &&& node_of(after.node) == Some(node)
                &&& end.continues(acknowledged)
                &&& exists|trace: Seq<ContextView>| #[trigger]
                    self.handler.round(
                        node.node_id.unwrap(),
                        node.node_ids,
                        trace,
                        acknowledged,
                        end,
                        outcome,
                    )
                &&& self.handler@.declared.len() == 0 ==> end == acknowledged && outcome is Ok
            },
        }
    }

    /// The guard and the dispatch: `init` goes to the handshake; any other
    /// message goes to the registry once the node is initialized, and fails
    /// with `PreconditionFailed` before.
    fn handle(&mut self, ctx: &mut MessageContext) -> (outcome: Result<(), ErrorMessage>)
        requires
            old(self).handler.wf(),
            old(ctx)@.wf(),
            old(ctx)@.inbound is Some,
            agrees(node_of(old(self).node), old(ctx)@.sender),
        ensures
            final(self).handler.wf(),
            final(self).handler@ == old(self).handler@,
            final(self).sender == old(self).sender,
            final(ctx)@.wf(),
            agrees(node_of(final(self).node), final(ctx)@.sender),
            old(self).steady_kept(final(self)),
            old(self).handled(old(ctx)@, final(self), final(ctx)@, outcome_of(outcome)),
    {
        if str_eq(ctx.message_kind(), "init") {
            self.handle_init(ctx)
        } else {
            match &self.node {
                Some(_) => self.handler.handle_message(ctx),
                None => {
                    let mut text = String::from_str(
                        "node is not initialized before handling message type ",
                    );
                    text.append(ctx.message_kind());
                    Err(ErrorMessage::new(ErrorKind::PreconditionFailed, text.as_str()))
                },
            }
        }
    }

    /// The handshake, and the announcement of the node to every handler.
    fn handle_init(&mut self, ctx: &mut MessageContext) -> (outcome: Result<(), ErrorMessage>)
        requires
            old(self).handler.wf(),
            old(ctx)@.wf(),
            agrees(node_of(old(self).node), old(ctx)@.sender),
        ensures
            final(self).handler.wf(),
            final(self).handler@ == old(self).handler@,
            final(self).sender == old(self).sender,
            final(ctx)@.wf(),
            agrees(node_of(final(self).node), final(ctx)@.sender),
            old(self).steady_kept(final(self)),
            old(self).initialized(old(ctx)@, final(self), final(ctx)@, outcome_of(outcome)),
    {
        let node = match MaelstromServerNode::create(ctx) {
            Ok(node) => node,
            Err(error) => {
                return Err(error);
            },
        };
        let ghost named = node@;
        self.node = Some(node);
        match ctx.message_content(InitMessage::from_payload) {
            Ok(init_msg) => {
                let ghost acknowledged = ctx@;
                let outcome = self.handler.handle_init(&init_msg, ctx);
                proof {
                    assert(Some(init_msg.node_id@) == named.node_id);
                    assert(texts_of(init_msg.node_ids@) == named.node_ids);
                    let trace = choose|trace: Seq<ContextView>| #[trigger]
                        old(self).handler.round(
                            init_msg.node_id@,
                            texts_of(init_msg.node_ids@),
                            trace,
                            acknowledged,
                            ctx@,
                            outcome_of(outcome),
                        );
                    assert(old(self).handler.round(
                        named.node_id.unwrap(),
                        named.node_ids,
                        trace,
                        acknowledged,
                        ctx@,
                        outcome_of(outcome),
                    ));
                }
                outcome
            },
            Err(error) => Err(error),
        }
    }
}

} // verus!
