//! The service behind a queue: lines go in one at a time, and the envelopes
//! that answer them are taken out one at a time, in the order in which they
//! were sent.

use vstd::prelude::*;
use std::collections::VecDeque;
use crate::protocol::handler::{slice_texts_of, MessageHandler};
use crate::protocol::payload::{messages_of, Message, MessageView};
use crate::protocol::wire::received;
use crate::server::handler::{RegisteredHandler, RegistryView};
use crate::server::service::{unreadable, MaelstromService, ServiceView};

verus! {

/// A service together with the envelopes that were handed out by its cycles
/// and not taken yet.
pub struct MaelstromServer {
    service: MaelstromService,
    outgoing_msgs: VecDeque<Message>,
}

impl MaelstromServer {
    /// The service is between two cycles.
    pub closed spec fn wf(&self) -> bool {
        self.service.wf()
    }

    /// The service.
    pub closed spec fn service(&self) -> MaelstromService {
        self.service
    }

    /// The envelopes that were handed out and not taken yet, oldest first.
    pub closed spec fn pending(&self) -> Seq<MessageView> {
        messages_of(self.outgoing_msgs@)
    }

    /// The cycle on `line` took the service `self` to the service `after` and
    /// handed out `batch`.
    pub open spec fn received_line(
        service: &MaelstromService,
        line: Seq<char>,
        after: &MaelstromService,
        batch: Seq<MessageView>,
    ) -> bool {
        match received(line) {
            Some(decoded) => service.delivered(decoded, after, batch),
            None => exists|text: Seq<char>| #[trigger]
                service.delivered(Err(unreadable(text)), after, batch),
        }
    }

    /// A server whose service is new and that holds no envelope.
    pub fn new() -> (server: Self)
        ensures
            server.wf(),
            server.pending() == Seq::<MessageView>::empty(),
            server.service()@ == (ServiceView {
                registry: RegistryView { declared: Seq::empty() },
                node: None,
                next_id: 1,
            }),
    {
        let server = MaelstromServer {
            service: MaelstromService::new(),
            outgoing_msgs: VecDeque::new(),
        };
        assert(server.pending() =~= Seq::<MessageView>::empty());
        server
    }

    /// Registers a new handler of type `T`, in its initial state, behind the
    /// handlers that are registered already, under every discriminator that
    /// the type declares. The new position holds what `T::new` gave.
    pub fn register_handler<T: MessageHandler + 'static>(&mut self)
        requires
            old(self).wf(),
        ensures
            final(self).wf(),
            final(self).pending() == old(self).pending(),
            exists|kinds: Vec<&'static str>, fresh: T, owned: Vec<String>|
                {
                    &&& call_ensures(T::get_handled_messages, (), kinds)
                    &&& call_ensures(T::new, (), fresh)
                    &&& final(self).service()@ == (ServiceView {
                        registry: RegistryView {
                            declared: #[trigger] old(self).service()@.registry.declared.push(
                                slice_texts_of(kinds@),
                            ),
                        },
                        ..old(self).service()@
                    })
                    &&& final(self).service().handler_at(
                        old(self).service()@.registry.declared.len() as int,
                    ) == (#[trigger] RegisteredHandler::holding(owned, fresh))
                },
            final(self).service().same_handlers(&old(self).service()),
    {
        self.service.register_handler::<T>()
    }

    /// Runs one cycle on one line of input and queues the envelopes that
    /// answer it behind those that are queued already.
    pub fn input(&mut self, line: &str)
        requires
            old(self).wf(),
        ensures
            final(self).wf(),
            exists|batch: Seq<MessageView>|
                final(self).pending() == old(self).pending() + batch
                    && #[trigger] MaelstromServer::received_line(
                    &old(self).service(),
                    line@,
                    &final(self).service(),
                    batch,
                ),
    {
        let batch = self.service.input(line);
        let ghost handed_out = batch@;
        let ghost queued = self.outgoing_msgs@;
        let ghost service = self.service;
        for message in it: batch
            invariant
                it.seq() == handed_out,
                self.service == service,
                self.outgoing_msgs@ == queued + handed_out.take(it.index() as int),
        {
            self.outgoing_msgs.push_back(message);
            assert(handed_out.take(it.index() + 1) =~= handed_out.take(it.index() as int).push(
                message,
            ));
        }
        proof {
            assert(handed_out.take(handed_out.len() as int) =~= handed_out);
            assert(self.pending() =~= old(self).pending() + messages_of(handed_out));
            assert(MaelstromServer::received_line(
                &old(self).service(),
                line@,
                &self.service(),
                messages_of(handed_out),
            ));
        }
    }

    /// Takes the oldest queued envelope, if there is one.
    pub fn output(&mut self) -> (message: Option<Message>)
        requires
            old(self).wf(),
        ensures
            final(self).wf(),
            final(self).service() == old(self).service(),
            match message {
                Some(m) => {
                    &&& old(self).pending().len() > 0
                    &&& m@ == old(self).pending()[0]
                    &&& final(self).pending() == old(self).pending().subrange(
                        1,
                        old(self).pending().len() as int,
                    )
                },
                None => old(self).pending().len() == 0 && final(self).pending() == old(
                    self,
                ).pending(),
            },
    {
        let message = self.outgoing_msgs.pop_front();
        proof {
            if message is Some {
                assert(self.pending() =~= old(self).pending().subrange(
                    1,
                    old(self).pending().len() as int,
                ));
            }
        }
        message
    }
}

} // verus!
