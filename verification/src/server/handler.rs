//! The handler registry and the dispatcher: handlers are kept in the order
//! in which they were registered, and a message is given to every handler
//! that declared its discriminator, in that order.

use vstd::prelude::*;
use vstd::string::*;
use vstd::hash_map::StringHashMap;
use crate::protocol::context::{
    lemma_continues_transitive, outcome_of, ContextView, MessageContext,
};
use crate::protocol::errors::{ErrorKind, ErrorMessage, ErrorMessageView};
use crate::protocol::handler::{slice_texts_of, MessageHandler};
use crate::protocol::payload::texts_of;
use crate::server::system_messages::InitMessage;

verus! {

/// How often `kind` occurs among `kinds`.
pub open spec fn occurrences(kinds: Seq<Seq<char>>, kind: Seq<char>) -> nat
    decreases kinds.len(),
{
    if kinds.len() == 0 {
        0
    } else {
        occurrences(kinds.drop_last(), kind) + if kinds.last() == kind {
            1nat
        } else {
            0nat
        }
    }
}

/// The positions of the handlers that declared `kind`, in the order of
/// registration, where `declared[i]` holds what the handler at position `i`
/// declared. A handler that declared a kind more than once stands as often.
pub open spec fn registered_for(declared: Seq<Seq<Seq<char>>>, kind: Seq<char>) -> Seq<usize>
    decreases declared.len(),
{
    if declared.len() == 0 {
        Seq::empty()
    } else {
        registered_for(declared.drop_last(), kind) + Seq::new(
            occurrences(declared.last(), kind),
            |j: int| (declared.len() - 1) as usize,
        )
    }
}

/// The positions that are registered for `kind` while a handler at `position`
/// is being registered behind the handlers of `declared`, once the kinds
/// `seen` of its declaration have been entered.
spec fn pending(
    declared: Seq<Seq<Seq<char>>>,
    seen: Seq<Seq<char>>,
    position: usize,
    kind: Seq<char>,
) -> Seq<usize> {
    registered_for(declared, kind) + Seq::new(occurrences(seen, kind), |k: int| position)
}

/// The error that reports a discriminator without a handler.
pub open spec fn not_supported(kind: Seq<char>) -> ErrorMessageView {
    ErrorMessageView::of(ErrorKind::NotSupported, "message type "@ + kind + " not supported"@)
}

/// A handler together with the discriminators that it declared when it was
/// registered.
pub struct RegisteredHandler {
    pub kinds: Vec<String>,
    pub handler: Box<dyn MessageHandler>,
}

impl RegisteredHandler {
    /// The registered handler that holds `handler` with the discriminators
    /// `kinds`.
    pub open spec fn holding<T: MessageHandler + 'static>(
        kinds: Vec<String>,
        handler: T,
    ) -> RegisteredHandler {
        RegisteredHandler { kinds, handler: Box::new(handler) }
    }

    fn of<T: MessageHandler + 'static>(handler: T, kinds: Vec<String>) -> (slot:
        RegisteredHandler)
        ensures
            slot == RegisteredHandler::holding(kinds, handler),
    {
        RegisteredHandler { kinds, handler: Box::new(handler) }
    }
}

/// The owned copies of the discriminators `declared`.
fn owned_kinds(declared: &Vec<&'static str>) -> (kinds: Vec<String>)
    ensures
        texts_of(kinds@) == slice_texts_of(declared@),
{
    let mut kinds: Vec<String> = Vec::new();
    let mut i: usize = 0;
    while i < declared.len()
        invariant
            i <= declared@.len(),
            kinds@.len() == i,
            forall|j: int| 0 <= j < i ==> (#[trigger] kinds@[j])@ == declared@[j]@,
        decreases declared@.len() - i,
    {
        kinds.push(String::from_str(declared[i]));
        i += 1;
    }
    assert(texts_of(kinds@) =~= slice_texts_of(declared@));
    kinds
}

/// What a [`MaelstromServerMessageHandler`] holds, as plain values: for
/// every registered handler, in the order of registration, the
/// discriminators that it declared.
pub struct RegistryView {
    pub declared: Seq<Seq<Seq<char>>>,
}

impl RegistryView {
    /// The positions of the handlers that are invoked for `kind`, in the
    /// order in which they are invoked.
    pub open spec fn handlers_for(self, kind: Seq<char>) -> Seq<usize> {
        registered_for(self.declared, kind)
    }
}

/// The handler registry.
pub struct MaelstromServerMessageHandler {
    msg_handlers: StringHashMap<Vec<usize>>,
    handlers: Vec<RegisteredHandler>,
}

impl View for MaelstromServerMessageHandler {
    type V = RegistryView;

    closed spec fn view(&self) -> RegistryView {
        RegistryView { declared: Seq::new(self.handlers@.len(), |i: int| texts_of(self.handlers@[i].kinds@)) }
    }
}

impl MaelstromServerMessageHandler {
    /// The index from discriminators to handlers holds, for every
    /// discriminator that some handler declared, the positions of those
    /// handlers in the order of registration, and nothing else.
    pub closed spec fn wf(&self) -> bool {
        forall|kind: Seq<char>| #[trigger] self.indexed(kind)
    }

    spec fn indexed(&self, kind: Seq<char>) -> bool {
        self.indexed_as(kind, self@.handlers_for(kind))
    }

    spec fn indexed_as(&self, kind: Seq<char>, positions: Seq<usize>) -> bool {
        &&& self.msg_handlers@.contains_key(kind) <==> positions.len() > 0
        &&& self.msg_handlers@.contains_key(kind) ==> self.msg_handlers@[kind]@ == positions
    }

    /// The handler at position `i`, with its state.
    pub closed spec fn handler_at(&self, i: int) -> RegisteredHandler {
        self.handlers@[i]
    }

    /// What the handler at position `i`, in the state in which it is, does
    /// when it is told the node `node_id` with the peers `node_ids` on the
    /// context `before`: this is what the handler says of itself.
    pub open spec fn tells(
        &self,
        i: int,
        node_id: Seq<char>,
        node_ids: Seq<Seq<char>>,
        before: ContextView,
        after: ContextView,
        outcome: Result<(), ErrorMessageView>,
    ) -> bool {
        self.handler_at(i).handler.initialized(node_id, node_ids, before, after, outcome)
    }

    /// What the handler at position `i`, in the state in which it is, does
    /// with the inbound message of the context `before`: this is what the
    /// handler says of itself.
    pub open spec fn handles(
        &self,
        i: int,
        before: ContextView,
        after: ContextView,
        outcome: Result<(), ErrorMessageView>,
    ) -> bool {
        self.handler_at(i).handler.handled(before, after, outcome)
    }

    /// Step `j` of a dispatch of `kind`: the registry `registries[j]` gives
    /// the context `trace[j]` to the handler at the position that stands at
    /// place `j` among the positions registered for `kind`. That handler, in
    /// the state that it has then, leaves the context `trace[j + 1]` and gives
    /// `outcome`; it may have changed its state, and in this the registry
    /// `registries[j + 1]` differs from the one before, and in nothing else.
    pub open spec fn stepped(
        &self,
        kind: Seq<char>,
        registries: Seq<Self>,
        trace: Seq<ContextView>,
        j: int,
        outcome: Result<(), ErrorMessageView>,
    ) -> bool {
        let position = self@.handlers_for(kind)[j];
        &&& registries[j].handles(position as int, trace[j], trace[j + 1], outcome)
        &&& registries[j].handler_at(position as int).handler.steady() ==> registries[j
            + 1].handler_at(position as int).handler == registries[j].handler_at(
            position as int,
        ).handler
        &&& registries[j + 1]@ == registries[j]@
        &&& forall|i: usize|
            i < self@.declared.len() && i != position ==> #[trigger] registries[j + 1].handler_at(
                i as int,
            ) == registries[j].handler_at(i as int)
    }

    /// One dispatch of `kind`, with the registries and the contexts that it
    /// went through: the handlers registered for `kind` are invoked in the
    /// order of registration, each on the context as the one before left it,
    /// starting on `before`. Where all of them succeed, all of them were
    /// invoked and the dispatch succeeds. The first one that fails ends the
    /// dispatch: the handlers behind it are not invoked, and its error is the
    /// outcome. The dispatch leaves the registry and the context as the last
    /// handler that was invoked left them.
    pub open spec fn dispatched(
        &self,
        kind: Seq<char>,
        registries: Seq<Self>,
        trace: Seq<ContextView>,
        before: ContextView,
        left: Self,
        after: ContextView,
        outcome: Result<(), ErrorMessageView>,
    ) -> bool {
        let reached = trace.len() - 1;
        &&& 1 <= reached <= self@.handlers_for(kind).len()
        &&& registries.len() == trace.len()
        &&& registries[0] == *self
        &&& registries[reached] == left
        &&& trace[0] == before
        &&& trace[reached] == after
        &&& forall|j: int|
            0 <= j < reached - 1 ==> #[trigger] self.stepped(kind, registries, trace, j, Ok(()))
        &&& self.stepped(kind, registries, trace, reached - 1, outcome)
        &&& outcome is Ok ==> reached == self@.handlers_for(kind).len()
    }

    /// Step `i` of a round: the handler at position `i` is told the node on
    /// the context `trace[i]`, leaves the context `trace[i + 1]` and gives
    /// `outcome`.
    pub open spec fn told(
        &self,
        node_id: Seq<char>,
        node_ids: Seq<Seq<char>>,
        trace: Seq<ContextView>,
        i: int,
        outcome: Result<(), ErrorMessageView>,
    ) -> bool {
        self.tells(i, node_id, node_ids, trace[i], trace[i + 1], outcome)
    }

    /// One round of telling the handlers the node, with the contexts that it
    /// went through: the handlers are told in the order of registration, each
    /// on the context as the one before left it, starting on `before`. Where
    /// all of them succeed, all of them were told and the round succeeds.
    /// The first one that fails ends the round: the handlers behind it are
    /// not told, and its error is the outcome. The round leaves the context
    /// as the last handler that was told left it.
    pub open spec fn round(
        &self,
        node_id: Seq<char>,
        node_ids: Seq<Seq<char>>,
        trace: Seq<ContextView>,
        before: ContextView,
        after: ContextView,
        outcome: Result<(), ErrorMessageView>,
    ) -> bool {
        let reached = trace.len() - 1;
        &&& 0 <= reached <= self@.declared.len()
        &&& trace[0] == before
        &&& trace[reached] == after
        &&& match outcome {
            Ok(_) => {
                &&& reached == self@.declared.len()
                &&& forall|i: int|
                    0 <= i < reached ==> #[trigger] self.told(
                        node_id,
                        node_ids,
                        trace,
                        i,
                        Ok(()),
                    )
            },
            Err(error) => {
                &&& reached >= 1
                &&& forall|i: int|
                    0 <= i < reached - 1 ==> #[trigger] self.told(
                        node_id,
                        node_ids,
                        trace,
                        i,
                        Ok(()),
                    )
                &&& self.told(node_id, node_ids, trace, reached - 1, Err(error))
            },
        }
    }

    /// Telling the handlers the node `node_id` with the peers `node_ids` on
    /// the context `before` may leave the context `after` and give `outcome`:
    /// there is a round that does.
    pub open spec fn announced(
        &self,
        node_id: Seq<char>,
        node_ids: Seq<Seq<char>>,
        before: ContextView,
        after: ContextView,
        outcome: Result<(), ErrorMessageView>,
    ) -> bool {
        exists|trace: Seq<ContextView>| #[trigger]
            self.round(node_id, node_ids, trace, before, after, outcome)
    }

    /// A registry without handlers.
    pub fn new() -> (registry: Self)
        ensures
            registry.wf(),
            registry@.declared == Seq::<Seq<Seq<char>>>::empty(),
    {
        let registry = MaelstromServerMessageHandler {
            msg_handlers: StringHashMap::new(),
            handlers: Vec::new(),
        };
        assert(registry@.declared =~= Seq::<Seq<Seq<char>>>::empty());
        assert forall|kind: Seq<char>| #[trigger] registry.indexed(kind) by {
            assert(registered_for(registry@.declared, kind) =~= Seq::empty());
        }
        registry
    }

    /// Registers a new handler of type `T`, in its initial state, behind the
    /// handlers that are registered already, under every discriminator that
    /// the type declares. The new position holds what `T::new` gave.
    pub fn register_handler<T: MessageHandler + 'static>(&mut self)
        requires
            old(self).wf(),
        ensures
            final(self).wf(),
            exists|kinds: Vec<&'static str>, fresh: T, owned: Vec<String>|
                {
                    &&& call_ensures(T::get_handled_messages, (), kinds)
                    &&& call_ensures(T::new, (), fresh)
                    &&& #[trigger] old(self)@.declared.push(slice_texts_of(kinds@))
                        == final(self)@.declared
                    &&& final(self).handler_at(old(self)@.declared.len() as int) == (
                    #[trigger] RegisteredHandler::holding(owned, fresh))
                },
            forall|i: int|
                0 <= i < old(self)@.declared.len() ==> final(self).handler_at(i) == old(
                    self,
                ).handler_at(i),
    {
        let kinds = T::get_handled_messages();
        let fresh = T::new();
        let ghost held = fresh;
        self.register(fresh, &kinds);
        let ghost owned = choose|owned: Vec<String>|
            #[trigger] texts_of(owned@) == slice_texts_of(kinds@) && self.handler_at(
                old(self)@.declared.len() as int,
            ) == RegisteredHandler::holding(owned, held);
        assert(call_ensures(T::get_handled_messages, (), kinds) && call_ensures(T::new, (), held)
            && old(self)@.declared.push(slice_texts_of(kinds@)) == self@.declared
            && self.handler_at(old(self)@.declared.len() as int) == RegisteredHandler::holding(
            owned,
            held,
        ));
    }

    /// Registers `handler` behind the handlers that are registered already,
    /// under every discriminator in `kinds`, in the order of `kinds`. The new
    /// position holds `handler`.
    pub fn register<T: MessageHandler + 'static>(&mut self, handler: T, kinds: &Vec<&'static str>)
        requires
            old(self).wf(),
        ensures
            final(self).wf(),
            final(self)@.declared == old(self)@.declared.push(slice_texts_of(kinds@)),
            exists|owned: Vec<String>|
                #[trigger] texts_of(owned@) == slice_texts_of(kinds@) && final(self).handler_at(
                    old(self)@.declared.len() as int,
                ) == RegisteredHandler::holding(owned, handler),
            forall|i: int|
                0 <= i < old(self)@.declared.len() ==> final(self).handler_at(i) == old(
                    self,
                ).handler_at(i),
    {
        let owned = owned_kinds(kinds);
        let ghost owned_copy = owned;
        let ghost stored = RegisteredHandler::holding(owned, handler);
        let slot = RegisteredHandler::of(handler, owned);
        let handle_idx = self.handlers.len();
        let ghost before = old(self)@.declared;
        let ghost declared = slice_texts_of(kinds@);
        let ghost pushed = slot;
        assert(pushed == stored);
        self.handlers.push(slot);
        assert(self.handlers@ == old(self).handlers@.push(pushed));
        assert(self.handlers@[handle_idx as int] == pushed);
        assert(self@.declared =~= before.push(declared));
        proof {
            assert forall|kind: Seq<char>| #[trigger]
                self.indexed_as(kind, pending(before, declared.take(0), handle_idx, kind)) by {
                assert(old(self).indexed(kind));
                assert(pending(before, declared.take(0), handle_idx, kind) =~= registered_for(
                    before,
                    kind,
                ));
            }
        }
        let mut j: usize = 0;
        while j < kinds.len()
            invariant
                j <= kinds@.len(),
                declared == slice_texts_of(kinds@),
                handle_idx == before.len(),
                before.len() == old(self).handlers@.len(),
                self@.declared == before.push(declared),
                self.handlers@.len() == before.len() + 1,
                self.handlers@[handle_idx as int] == pushed,
                pushed == stored,
                forall|i: int| 0 <= i < before.len() ==> self.handlers@[i] == old(self).handlers@[i],
                forall|kind: Seq<char>| #[trigger]
                    self.indexed_as(
                        kind,
                        pending(before, declared.take(j as int), handle_idx, kind),
                    ),
            decreases kinds@.len() - j,
        {
            let key = String::from_str(kinds[j]);
            let ghost this = *self;
            let mut idxs: Vec<usize> = match self.msg_handlers.get(key.as_str()) {
                Some(found) => found.clone(),
                None => Vec::new(),
            };
            proof {
                assert(this.indexed_as(
                    key@,
                    pending(before, declared.take(j as int), handle_idx, key@),
                ));
                assert(idxs@ =~= pending(before, declared.take(j as int), handle_idx, key@));
            }
            idxs.push(handle_idx);
            self.msg_handlers.insert(key, idxs);
            proof {
                assert(declared.take(j + 1).drop_last() =~= declared.take(j as int));
                assert(declared.take(j + 1).last() == key@);
                assert forall|kind: Seq<char>| #[trigger]
                    self.indexed_as(
                        kind,
                        pending(before, declared.take(j + 1), handle_idx, kind),
                    ) by {
                    assert(this.indexed_as(
                        kind,
                        pending(before, declared.take(j as int), handle_idx, kind),
                    ));
                    if kind == key@ {
                        assert(idxs@ =~= pending(before, declared.take(j + 1), handle_idx, kind));
                    } else {
                        assert(occurrences(declared.take(j + 1), kind) == occurrences(
                            declared.take(j as int),
                            kind,
                        ));
                    }
                }
            }
            j += 1;
        }
        proof {
            assert(texts_of(owned_copy@) == slice_texts_of(kinds@) && self.handler_at(
                old(self)@.declared.len() as int,
            ) == RegisteredHandler::holding(owned_copy, handler));
            assert(declared.take(j as int) =~= declared);
            assert forall|kind: Seq<char>| #[trigger] self.indexed(kind) by {
                assert(self.indexed_as(
                    kind,
                    pending(before, declared.take(j as int), handle_idx, kind),
                ));
                assert(before.push(declared).drop_last() =~= before);
                assert(before.push(declared).last() == declared);
            }
        }
    }

    /// Tells every registered handler, in the order of registration, the
    /// identity of the local node and its peers, each on the context as the
    /// one before left it. The first handler that fails ends the round: the
    /// handlers behind it are not told, and its error is returned. Where
    /// none fails, every handler was told and the round succeeds.
    pub fn handle_init(&mut self, msg: &InitMessage, ctx: &mut MessageContext) -> (outcome: Result<
        (),
        ErrorMessage,
    >)
        requires
            old(self).wf(),
            old(ctx)@.wf(),
        ensures
            final(self).wf(),
            final(self)@ == old(self)@,
            final(ctx)@.wf(),
            final(ctx)@.continues(old(ctx)@),
            old(self).announced(
                msg.node_id@,
                texts_of(msg.node_ids@),
                old(ctx)@,
                final(ctx)@,
                outcome_of(outcome),
            ),
            old(self)@.declared.len() == 0 ==> outcome is Ok && final(ctx)@ == old(ctx)@,
            forall|i: int|
                0 <= i < old(self)@.declared.len() && (#[trigger] old(self).handler_at(
                    i,
                )).handler.steady() ==> final(self).handler_at(i).handler == old(self).handler_at(
                    i,
                ).handler,
    {
        let n = self.handlers.len();
        let ghost node_id = msg.node_id@;
        let ghost node_ids = texts_of(msg.node_ids@);
        let ghost mut trace: Seq<ContextView> = seq![ctx@];
        let mut i: usize = 0;
        while i < n
            invariant
                i <= n,
                old(self).wf(),
                n == self.handlers@.len(),
                n == old(self)@.declared.len(),
                node_id == msg.node_id@,
                node_ids == texts_of(msg.node_ids@),
                self.msg_handlers == old(self).msg_handlers,
                self.handlers@.len() == old(self).handlers@.len(),
                forall|k: int|
                    0 <= k < n ==> (#[trigger] self.handlers@[k]).kinds == old(
                        self,
                    ).handlers@[k].kinds,
                forall|k: int|
                    i <= k < n ==> #[trigger] self.handlers@[k] == old(self).handlers@[k],
                forall|k: int|
                    0 <= k < n && old(self).handlers@[k].handler.steady() ==> (
                    #[trigger] self.handlers@[k]).handler == old(self).handlers@[k].handler,
                ctx@.wf(),
                ctx@.continues(old(ctx)@),
                trace.len() == i + 1,
                trace[0] == old(ctx)@,
                trace[i as int] == ctx@,
                forall|k: int|
                    0 <= k < i ==> #[trigger] old(self).told(node_id, node_ids, trace, k, Ok(())),
            decreases n - i,
        {
            let ghost ctx_before = ctx@;
            let ghost earlier = trace;
            let outcome = self.handlers[i].handler.init(
                msg.node_id.as_str(),
                msg.node_ids.as_slice(),
                ctx,
            );
            proof {
                lemma_continues_transitive(old(ctx)@, ctx_before, ctx@);
                trace = earlier.push(ctx@);
                assert(old(self).told(node_id, node_ids, trace, i as int, outcome_of(outcome)));
                assert forall|k: int| 0 <= k < i implies #[trigger] old(self).told(
                    node_id,
                    node_ids,
                    trace,
                    k,
                    Ok(()),
                ) by {
                    assert(old(self).told(node_id, node_ids, earlier, k, Ok(())));
                    assert(trace[k] == earlier[k] && trace[k + 1] == earlier[k + 1]);
                }
            }
            if let Err(error) = outcome {
                proof {
                    self.lemma_same_kinds(*old(self));
                    assert(old(self).round(
                        node_id,
                        node_ids,
                        trace,
                        old(ctx)@,
                        ctx@,
                        Err(error@),
                    ));
                }
                return Err(error);
            }
            i += 1;
        }
        proof {
            self.lemma_same_kinds(*old(self));
            assert(old(self).round(node_id, node_ids, trace, old(ctx)@, ctx@, Ok(())));
        }
        Ok(())
    }

    /// Gives the inbound message of the context to every handler that is
    /// registered for its discriminator, in the order of registration, each
    /// on the context as the one before left it. A discriminator without a
    /// handler fails with `NotSupported` and touches nothing. The first
    /// handler that fails ends the dispatch: its error is returned, the
    /// handlers behind it are not invoked, and what was sent before stays in
    /// the buffer. Handlers that are not registered for the discriminator
    /// keep their state, and so do handlers that are steady. What each
    /// handler that was invoked did is what it says of itself; the trace of
    /// the dispatch tells which handler was given which context.
    pub fn handle_message(&mut self, ctx: &mut MessageContext) -> (outcome: Result<
        (),
        ErrorMessage,
    >)
        requires
            old(self).wf(),
            old(ctx)@.wf(),
        ensures
            final(self).wf(),
            final(self)@ == old(self)@,
            final(ctx)@.wf(),
            final(ctx)@.continues(old(ctx)@),
            old(self)@.handlers_for(old(ctx)@.kind()).len() == 0 ==> {
                &&& outcome_of(outcome) == Err::<(), ErrorMessageView>(
                    not_supported(old(ctx)@.kind()),
                )
                &&& final(ctx)@ == old(ctx)@
            },
            old(self)@.handlers_for(old(ctx)@.kind()).len() > 0 ==> exists|
                registries: Seq<Self>,
                trace: Seq<ContextView>,
            | #[trigger]
                old(self).dispatched(
                    old(ctx)@.kind(),
                    registries,
                    trace,
                    old(ctx)@,
                    *final(self),
                    final(ctx)@,
                    outcome_of(outcome),
                ),
            forall|i: usize|
                i < old(self)@.declared.len() && !old(self)@.handlers_for(
                    old(ctx)@.kind(),
                ).contains(i) ==> final(self).handler_at(i as int) == old(self).handler_at(
                    i as int,
                ),
            forall|i: int|
                0 <= i < old(self)@.declared.len() && (#[trigger] old(self).handler_at(
                    i,
                )).handler.steady() ==> final(self).handler_at(i).handler == old(self).handler_at(
                    i,
                ).handler,
    {
        let ghost kind = ctx@.kind();
        assert(self.indexed(kind));
        let found = self.msg_handlers.get(ctx.message_kind());
        match found {
            None => {
                let mut text = String::from_str("message type ");
                text.append(ctx.message_kind());
                text.append(" not supported");
                Err(ErrorMessage::new(ErrorKind::NotSupported, text.as_str()))
            },
            Some(handler_idxs) => {
                let ghost positions = old(self)@.handlers_for(kind);
                assert(handler_idxs@ == positions);
                proof {
                    assert(old(self)@.declared.len() == self.handlers.len());
                    lemma_registration_order(old(self)@.declared, kind);
                }
                let ghost mut registries: Seq<Self> = seq![*self];
                let ghost mut trace: Seq<ContextView> = seq![ctx@];
                let mut j: usize = 0;
                while j < handler_idxs.len()
                    invariant
                        j <= handler_idxs@.len(),
                        old(self).wf(),
                        kind == old(ctx)@.kind(),
                        handler_idxs@ == positions,
                        positions == old(self)@.handlers_for(old(ctx)@.kind()),
                        positions.len() > 0,
                        old(self)@.declared.len() == old(self).handlers@.len(),
                        forall|k: int|
                            0 <= k < positions.len() ==> (#[trigger] positions[k])
                                < old(self).handlers@.len(),
                        self.msg_handlers == old(self).msg_handlers,
                        self.handlers@.len() == old(self).handlers@.len(),
                        forall|k: int|
                            0 <= k < self.handlers@.len() ==> (#[trigger] self.handlers@[k]).kinds
                                == old(self).handlers@[k].kinds,
                        forall|k: usize|
                            k < self.handlers@.len() && !positions.contains(k)
                                ==> #[trigger] self.handlers@[k as int] == old(
                                self,
                            ).handlers@[k as int],
                        forall|k: int|
                            0 <= k < self.handlers@.len() && old(self).handlers@[k].handler.steady()
                                ==> (#[trigger] self.handlers@[k]).handler == old(
                                self,
                            ).handlers@[k].handler,
                        ctx@.wf(),
                        ctx@.continues(old(ctx)@),
                        self@ == old(self)@,
                        self.wf(),
                        registries.len() == j + 1,
                        trace.len() == j + 1,
                        registries[0] == *old(self),
                        registries[j as int] == *self,
                        trace[0] == old(ctx)@,
                        trace[j as int] == ctx@,
                        forall|k: int|
                            0 <= k < j ==> #[trigger] old(self).stepped(
                                kind,
                                registries,
                                trace,
                                k,
                                Ok(()),
                            ),
                    decreases handler_idxs@.len() - j,
                {
                    let handler_idx = handler_idxs[j];
                    assert(positions[j as int] == handler_idx);
                    assert(positions.contains(handler_idx));
                    let ghost ctx_before = ctx@;
                    let ghost this = *self;
                    let ghost earlier_registries = registries;
                    let ghost earlier = trace;
                    let outcome = self.handlers[handler_idx].handler.handle(ctx);
                    proof {
                        lemma_continues_transitive(old(ctx)@, ctx_before, ctx@);
                        self.lemma_same_kinds(*old(self));
                        registries = earlier_registries.push(*self);
                        trace = earlier.push(ctx@);
                        assert(this.handles(
                            handler_idx as int,
                            ctx_before,
                            ctx@,
                            outcome_of(outcome),
                        ));
                        assert forall|i: usize|
                            i < old(self)@.declared.len() && i != handler_idx implies #[trigger] self.handler_at(
                            i as int,
                        ) == this.handler_at(i as int) by {}
                        assert(old(self).stepped(
                            kind,
                            registries,
                            trace,
                            j as int,
                            outcome_of(outcome),
                        ));
                        assert forall|k: int| 0 <= k < j implies #[trigger] old(self).stepped(
                            kind,
                            registries,
                            trace,
                            k,
                            Ok(()),
                        ) by {
                            assert(old(self).stepped(
                                kind,
                                earlier_registries,
                                earlier,
                                k,
                                Ok(()),
                            ));
                            assert(registries[k] == earlier_registries[k] && registries[k + 1]
                                == earlier_registries[k + 1]);
                            assert(trace[k] == earlier[k] && trace[k + 1] == earlier[k + 1]);
                        }
                    }
                    if let Err(error) = outcome {
                        proof {
                            assert(old(self).dispatched(
                                kind,
                                registries,
                                trace,
                                old(ctx)@,
                                *self,
                                ctx@,
                                Err(error@),
                            ));
                        }
                        return Err(error);
                    }
                    j += 1;
                }
                proof {
                    assert(old(self).dispatched(
                        kind,
                        registries,
                        trace,
                        old(ctx)@,
                        *self,
                        ctx@,
                        Ok(()),
                    ));
                }
                Ok(())
            },
        }
    }

    /// A registry whose index and declared discriminators are those of a
    /// well-formed registry is well-formed, and has the same view.
    proof fn lemma_same_kinds(&self, other: Self)
        requires
            other.wf(),
            self.msg_handlers == other.msg_handlers,
            self.handlers@.len() == other.handlers@.len(),
            forall|k: int|
                0 <= k < self.handlers@.len() ==> (#[trigger] self.handlers@[k]).kinds
                    == other.handlers@[k].kinds,
        ensures
            self.wf(),
            self@ == other@,
    {
        assert(self@.declared =~= other@.declared);
        assert forall|kind: Seq<char>| #[trigger] self.indexed(kind) by {
            assert(other.indexed(kind));
        }
    }
}

/// The handlers of a discriminator stand in the order of registration:
/// along the positions that are registered for it no position is smaller
/// than one before it, every position is that of a handler that declared the
/// discriminator, and every handler that declared it is among them.
pub proof fn lemma_registration_order(declared: Seq<Seq<Seq<char>>>, kind: Seq<char>)
    requires
        declared.len() <= usize::MAX,
    ensures
        forall|a: int, b: int|
            0 <= a <= b < registered_for(declared, kind).len() ==> (#[trigger] registered_for(
                declared,
                kind,
            )[a]) <= (#[trigger] registered_for(declared, kind)[b]),
        forall|a: int|
            0 <= a < registered_for(declared, kind).len() ==> (#[trigger] registered_for(
                declared,
                kind,
            )[a]) < declared.len() && occurrences(
                declared[registered_for(declared, kind)[a] as int],
                kind,
            ) > 0,
        forall|i: int|
            0 <= i < declared.len() && occurrences(#[trigger] declared[i], kind) > 0
                ==> registered_for(declared, kind).contains(i as usize),
    decreases declared.len(),
{
    if declared.len() > 0 {
        let earlier = declared.drop_last();
        let before = registered_for(earlier, kind);
        let all = registered_for(declared, kind);
        let last = (declared.len() - 1) as usize;
        lemma_registration_order(earlier, kind);
        assert(all =~= before + Seq::new(
            occurrences(declared.last(), kind),
            |j: int| last,
        ));
        assert forall|a: int| 0 <= a < all.len() implies (#[trigger] all[a]) < declared.len()
            && occurrences(declared[all[a] as int], kind) > 0 by {
            if a < before.len() {
                assert(all[a] == before[a]);
                assert(earlier[before[a] as int] == declared[before[a] as int]);
            } else {
                assert(all[a] == last);
            }
        }
        assert forall|a: int, b: int| 0 <= a <= b < all.len() implies (#[trigger] all[a]) <= (
        #[trigger] all[b]) by {
            if b < before.len() {
                assert(all[a] == before[a] && all[b] == before[b]);
            } else if a < before.len() {
                assert(all[a] == before[a]);
                assert(all[b] == last);
            } else {
                assert(all[a] == last && all[b] == last);
            }
        }
        assert forall|i: int|
            0 <= i < declared.len() && occurrences(#[trigger] declared[i], kind) > 0 implies all.contains(
            i as usize,
        ) by {
            if i < earlier.len() {
                assert(earlier[i] == declared[i]);
                let a = choose|a: int| 0 <= a < before.len() && before[a] == i as usize;
                assert(all[a] == before[a]);
            } else {
                assert(all[before.len() as int] == last);
            }
        }
    }
}

} // verus!
