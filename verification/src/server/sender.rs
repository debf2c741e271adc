//! The output sequencer: it gives every outbound envelope its identifier,
//! stamps the addressing fields and queues the envelope until it is taken.

use vstd::prelude::*;
use vstd::string::*;
use std::collections::VecDeque;
use crate::json::{entries_of, DynamicMap, Fields};
use crate::protocol::payload::{
    messages_of, text_of, texts_of, Message, MessageBody, MessageContent, MessageView,
};

verus! {

/// The view of an optional string slice.
pub open spec fn slice_text_of(text: Option<&str>) -> Option<Seq<char>> {
    match text {
        Some(t) => Some(t@),
        None => None,
    }
}

/// What a [`MaelstromServerMessageSender`] holds, as plain values.
pub struct SenderView {
    /// The identity of the local node, once known.
    pub local_id: Option<Seq<char>>,
    /// The known peers, in the order in which they were announced.
    pub peers: Seq<Seq<char>>,
    /// The identifier that the next outbound envelope gets.
    pub next_id: nat,
    /// The envelopes that were sent and not taken yet, oldest first.
    pub queue: Seq<MessageView>,
}

impl SenderView {
    /// The sequencer has handed out identifiers from 1 on, one after the
    /// other, and the queued envelopes carry the latest of them in order.
    pub open spec fn wf(self) -> bool {
        &&& 1 <= self.next_id <= usize::MAX
        &&& self.queue.len() < self.next_id
        &&& forall|i: int|
            0 <= i < self.queue.len() ==> (#[trigger] self.queue[i]).msg_id == Some(
                (self.next_id - self.queue.len() + i) as usize,
            )
    }

    /// Whether the sequencer has handed out the identifier `id`, to an
    /// envelope that is still queued or to one that was taken: it hands out
    /// the identifiers from 1 on, one after the other, so these are the
    /// identifiers below the next one.
    pub open spec fn handed_out(self, id: usize) -> bool {
        1 <= id < self.next_id
    }

    /// How many more envelopes can be sent before the identifiers run out.
    pub open spec fn remaining(self) -> nat {
        (usize::MAX - self.next_id) as nat
    }

    /// The envelope that the next send produces.
    pub open spec fn stamped(
        self,
        kind: Seq<char>,
        payload: Fields,
        dest: Option<Seq<char>>,
        in_reply_to: Option<usize>,
    ) -> MessageView {
        MessageView {
            src: self.local_id,
            dest,
            msg_id: Some(self.next_id as usize),
            in_reply_to,
            kind,
            payload,
        }
    }

    /// The sequencer after one send.
    pub open spec fn after_send(
        self,
        kind: Seq<char>,
        payload: Fields,
        dest: Option<Seq<char>>,
        in_reply_to: Option<usize>,
    ) -> SenderView {
        SenderView {
            next_id: self.next_id + 1,
            queue: self.queue.push(self.stamped(kind, payload, dest, in_reply_to)),
            ..self
        }
    }

    /// The envelopes of one fan-out: one for each peer, in the order of the
    /// peers, each with an identifier of its own and none in reply to
    /// anything.
    pub open spec fn fanned_out(self, kind: Seq<char>, payload: Fields) -> Seq<MessageView> {
        Seq::new(
            self.peers.len(),
            |i: int|
                MessageView {
                    src: self.local_id,
                    dest: Some(self.peers[i]),
                    msg_id: Some((self.next_id + i) as usize),
                    in_reply_to: None,
                    kind,
                    payload,
                },
        )
    }

    /// The sequencer after one fan-out.
    pub open spec fn after_fan_out(self, kind: Seq<char>, payload: Fields) -> SenderView {
        SenderView {
            next_id: self.next_id + self.peers.len(),
            queue: self.queue + self.fanned_out(kind, payload),
            ..self
        }
    }
}

/// The envelopes `batch` carry the identifiers from `first` up to, and
/// without, `next`, one after the other.
pub open spec fn numbered(batch: Seq<MessageView>, first: nat, next: nat) -> bool {
    &&& first + batch.len() == next
    &&& next <= usize::MAX
    &&& forall|i: int|
        0 <= i < batch.len() ==> (#[trigger] batch[i]).msg_id == Some((first + i) as usize)
}

/// The envelopes of the batches, in order.
pub open spec fn concatenated(batches: Seq<Seq<MessageView>>) -> Seq<MessageView>
    decreases batches.len(),
{
    if batches.len() == 0 {
        Seq::empty()
    } else {
        concatenated(batches.drop_last()) + batches.last()
    }
}

/// The envelopes that a well-formed sequencer holds carry the latest
/// identifiers that it handed out, one after the other.
pub proof fn lemma_queue_numbered(sender: SenderView)
    requires
        sender.wf(),
    ensures
        numbered(sender.queue, (sender.next_id - sender.queue.len()) as nat, sender.next_id),
{
}

/// The identifiers of envelopes that are numbered one after the other are
/// present, start at the first number, stay below the next, and are strictly
/// increasing in the order of the envelopes. So no two envelopes carry the
/// same identifier.
pub proof fn lemma_numbered_increases(batch: Seq<MessageView>, first: nat, next: nat)
    requires
        numbered(batch, first, next),
    ensures
        forall|i: int|
            0 <= i < batch.len() ==> (#[trigger] batch[i]).msg_id is Some && first
                <= batch[i].msg_id.unwrap() < next,
        forall|i: int, j: int|
            0 <= i < j < batch.len() ==> (#[trigger] batch[i]).msg_id.unwrap() < (
            #[trigger] batch[j]).msg_id.unwrap(),
{
}

/// A batch that goes on where another one ended makes, behind it, one run
/// of envelopes that are numbered one after the other.
pub proof fn lemma_numbered_continues(
    earlier: Seq<MessageView>,
    later: Seq<MessageView>,
    first: nat,
    mid: nat,
    next: nat,
)
    requires
        numbered(earlier, first, mid),
        numbered(later, mid, next),
    ensures
        numbered(earlier + later, first, next),
{
    assert forall|i: int| 0 <= i < (earlier + later).len() implies (#[trigger] (earlier
        + later)[i]).msg_id == Some((first + i) as usize) by {
        if i < earlier.len() {
            assert((earlier + later)[i] == earlier[i]);
        } else {
            assert((earlier + later)[i] == later[i - earlier.len()]);
        }
    }
}

/// Over any number of batches of which each goes on where the one before
/// ended, the envelopes are numbered one after the other: across the whole
/// run the identifiers are strictly increasing, and none occurs twice. Here
/// `bounds[k]` is the identifier that was next before batch `k`, and the
/// last of the bounds the one that is next after the run.
pub proof fn lemma_run_numbered(batches: Seq<Seq<MessageView>>, bounds: Seq<nat>)
    requires
        bounds.len() == batches.len() + 1,
        bounds[0] <= usize::MAX,
        forall|k: int|
            0 <= k < batches.len() ==> numbered(#[trigger] batches[k], bounds[k], bounds[k + 1]),
    ensures
        numbered(concatenated(batches), bounds[0], bounds.last()),
    decreases batches.len(),
{
    if batches.len() > 0 {
        let n = batches.len() as int;
        lemma_run_numbered(batches.drop_last(), bounds.drop_last());
        assert(numbered(batches[n - 1], bounds[n - 1], bounds[n]));
        lemma_numbered_continues(
            concatenated(batches.drop_last()),
            batches.last(),
            bounds[0],
            bounds[n - 1],
            bounds[n],
        );
    }
}

/// A send hands out an identifier that was never handed out before: the
/// envelope gets the next identifier, which is at least 1 and above every
/// identifier that the sequencer has handed out, to queued envelopes and to
/// envelopes that were taken alike. What was handed out stays handed out.
pub proof fn lemma_send_is_fresh(
    sender: SenderView,
    kind: Seq<char>,
    payload: Fields,
    dest: Option<Seq<char>>,
    in_reply_to: Option<usize>,
)
    requires
        sender.wf(),
        sender.remaining() >= 1,
    ensures
        sender.stamped(kind, payload, dest, in_reply_to).msg_id == Some(sender.next_id as usize),
        sender.next_id >= 1,
        !sender.handed_out(sender.next_id as usize),
        sender.after_send(kind, payload, dest, in_reply_to).handed_out(sender.next_id as usize),
        forall|id: usize|
            sender.handed_out(id) ==> id < sender.next_id && #[trigger] sender.after_send(
                kind,
                payload,
                dest,
                in_reply_to,
            ).handed_out(id),
        forall|i: int|
            0 <= i < sender.queue.len() ==> (#[trigger] sender.queue[i]).msg_id is Some
                && sender.handed_out(sender.queue[i].msg_id.unwrap()),
{
}

/// Taking envelopes out of the queue, and telling the sequencer the node or
/// its peers, hand out nothing and forget nothing: whatever the queue, the
/// node and the peers become, the identifiers that were handed out are the
/// same as long as the next identifier is.
pub proof fn lemma_taking_forgets_nothing(before: SenderView, after: SenderView)
    requires
        after.next_id == before.next_id,
    ensures
        forall|id: usize| #[trigger] after.handed_out(id) == before.handed_out(id),
{
}

/// One fan-out reaches every peer once, in the order of the peers: it makes
/// as many envelopes as there are peers, each addressed to its peer, none in
/// reply to anything, all with the same kind and payload, and no two with
/// the same identifier.
pub proof fn lemma_fan_out_reaches_every_peer(sender: SenderView, kind: Seq<char>, payload: Fields)
    requires
        sender.wf(),
        sender.remaining() >= sender.peers.len(),
    ensures
        sender.fanned_out(kind, payload).len() == sender.peers.len(),
        forall|i: int|
            0 <= i < sender.peers.len() ==> {
                let envelope = #[trigger] sender.fanned_out(kind, payload)[i];
                &&& envelope.dest == Some(sender.peers[i])
                &&& envelope.in_reply_to is None
                &&& envelope.kind == kind
                &&& envelope.payload == payload
                &&& envelope.src == sender.local_id
            },
        forall|i: int, j: int|
            0 <= i < j < sender.peers.len() ==> (#[trigger] sender.fanned_out(
                kind,
                payload,
            )[i]).msg_id != (#[trigger] sender.fanned_out(kind, payload)[j]).msg_id,
        numbered(
            sender.fanned_out(kind, payload),
            sender.next_id,
            sender.next_id + sender.peers.len(),
        ),
{
}

/// The output sequencer of one node process.
pub struct MaelstromServerMessageSender {
    node_id: Option<String>,
    node_ids: Vec<String>,
    next_msg_id: usize,
    outgoing_msgs: VecDeque<Message>,
}

impl View for MaelstromServerMessageSender {
    type V = SenderView;

    closed spec fn view(&self) -> SenderView {
        SenderView {
            local_id: text_of(self.node_id),
            peers: texts_of(self.node_ids@),
            next_id: self.next_msg_id as nat,
            queue: messages_of(self.outgoing_msgs@),
        }
    }
}

impl MaelstromServerMessageSender {
    /// A sequencer that has sent nothing, knows no node and no peers.
    pub fn new() -> (sender: Self)
        ensures
            sender@.wf(),
            sender@ == (SenderView {
                local_id: None,
                peers: Seq::empty(),
                next_id: 1,
                queue: Seq::empty(),
            }),
    {
        let sender = MaelstromServerMessageSender {
            node_id: None,
            node_ids: Vec::new(),
            next_msg_id: 1,
            outgoing_msgs: VecDeque::new(),
        };
        assert(sender@.peers =~= Seq::empty());
        assert(sender@.queue =~= Seq::empty());
        sender
    }

    /// How many more envelopes can be sent before the identifiers run out.
    pub fn remaining(&self) -> (left: usize)
        ensures
            left == self@.remaining(),
    {
        usize::MAX - self.next_msg_id
    }

    /// The known peers.
    pub fn node_ids(&self) -> (peers: &Vec<String>)
        ensures
            texts_of(peers@) == self@.peers,
    {
        &self.node_ids
    }

    /// Takes the oldest queued envelope, if there is one.
    pub fn pop(&mut self) -> (message: Option<Message>)
        requires
            old(self)@.wf(),
        ensures
            final(self)@.wf(),
            match message {
                Some(m) => {
                    &&& old(self)@.queue.len() > 0
                    &&& m@ == old(self)@.queue[0]
                    &&& final(self)@ == (SenderView {
                        queue: old(self)@.queue.subrange(1, old(self)@.queue.len() as int),
                        ..old(self)@
                    })
                },
                None => old(self)@.queue.len() == 0 && final(self)@ == old(self)@,
            },
    {
        let message = self.outgoing_msgs.pop_front();
        proof {
            if message is Some {
                assert(self@.queue =~= old(self)@.queue.subrange(
                    1,
                    old(self)@.queue.len() as int,
                ));
                assert forall|i: int| 0 <= i < self@.queue.len() implies (
                #[trigger] self@.queue[i]).msg_id == Some(
                    (self@.next_id - self@.queue.len() + i) as usize,
                ) by {
                    assert(self@.queue[i] == old(self)@.queue[i + 1]);
                }
            }
        }
        message
    }

    /// Takes all queued envelopes, oldest first.
    pub fn drain(&mut self) -> (messages: Vec<Message>)
        requires
            old(self)@.wf(),
        ensures
            final(self)@.wf(),
            messages_of(messages@) == old(self)@.queue,
            final(self)@ == (SenderView { queue: Seq::empty(), ..old(self)@ }),
    {
        let mut messages: Vec<Message> = Vec::new();
        let mut queue = VecDeque::new();
        std::mem::swap(&mut self.outgoing_msgs, &mut queue);
        assert(self@.queue =~= Seq::empty());
        let ghost all = queue@;
        loop
            invariant
                messages@ + queue@ == all,
            ensures
                messages@ == all,
            decreases queue@.len(),
        {
            match queue.pop_front() {
                Some(message) => {
                    messages.push(message);
                    assert(messages@ + queue@ =~= all);
                },
                None => {
                    assert(messages@ =~= all);
                    break ;
                },
            }
        }
        messages
    }

    /// Replaces the known peers.
    pub fn set_node_ids(&mut self, node_ids: &[String])
        ensures
            final(self)@ == (SenderView { peers: texts_of(node_ids@), ..old(self)@ }),
    {
        let mut peers: Vec<String> = Vec::new();
        let mut i: usize = 0;
        while i < node_ids.len()
            invariant
                i <= node_ids@.len(),
                peers@.len() == i,
                forall|j: int| 0 <= j < i ==> (#[trigger] peers@[j])@ == node_ids@[j]@,
            decreases node_ids@.len() - i,
        {
            peers.push(node_ids[i].clone());
            i += 1;
        }
        self.node_ids = peers;
        assert(texts_of(self.node_ids@) =~= texts_of(node_ids@));
    }

    /// Sets the identity of the local node, with which envelopes are stamped
    /// from now on.
    pub fn set_node_id(&mut self, node_id: &str)
        ensures
            final(self)@ == (SenderView { local_id: Some(node_id@), ..old(self)@ }),
    {
        self.node_id = Some(String::from_str(node_id));
    }

    /// Queues one envelope: it gets the next identifier and the local node,
    /// if known, as its source.
    pub fn send(
        &mut self,
        kind: &str,
        data: DynamicMap,
        dest: Option<&str>,
        in_reply_to: Option<usize>,
    )
        requires
            old(self)@.wf(),
            old(self)@.remaining() >= 1,
        ensures
            final(self)@.wf(),
            final(self)@ == old(self)@.after_send(
                kind@,
                entries_of(data),
                slice_text_of(dest),
                in_reply_to,
            ),
    {
        let message = Message {
            src: match &self.node_id {
                Some(id) => Some(id.clone()),
                None => None,
            },
            dest: match dest {
                Some(d) => Some(String::from_str(d)),
                None => None,
            },
            body: MessageBody {
                msg_id: Some(self.next_msg_id),
                in_reply_to,
                content: MessageContent { kind: String::from_str(kind), data },
            },
        };
        assert(message@ == old(self)@.stamped(
            kind@,
            entries_of(data),
            slice_text_of(dest),
            in_reply_to,
        ));
        self.outgoing_msgs.push_back(message);
        self.next_msg_id = self.next_msg_id + 1;
        assert(self@.queue =~= old(self)@.queue.push(message@));
    }

    /// Queues one envelope for every known peer, in the order of the peers,
    /// each with the same kind and payload and an identifier of its own.
    pub fn fan_out(&mut self, kind: &str, data: DynamicMap)
        requires
            old(self)@.wf(),
            old(self)@.remaining() >= old(self)@.peers.len(),
        ensures
            final(self)@.wf(),
            final(self)@ == old(self)@.after_fan_out(kind@, entries_of(data)),
    {
        let ghost start = self@;
        let ghost batch = start.fanned_out(kind@, entries_of(data));
        let mut i: usize = 0;
        while i < self.node_ids.len()
            invariant
                start.wf(),
                start.remaining() >= start.peers.len(),
                self@.wf(),
                i <= start.peers.len(),
                self.node_ids@.len() == start.peers.len(),
                batch == start.fanned_out(kind@, entries_of(data)),
                self@ == (SenderView {
                    next_id: (start.next_id + i) as nat,
                    queue: start.queue + batch.take(i as int),
                    ..start
                }),
            decreases start.peers.len() - i,
        {
            let peer = self.node_ids[i].clone();
            self.send(kind, data.clone(), Some(peer.as_str()), None);
            proof {
                assert(peer@ == start.peers[i as int]);
                assert(self@.queue =~= start.queue + batch.take(i + 1)) by {
                    assert(batch.take(i + 1) =~= batch.take(i as int).push(batch[i as int]));
                }
            }
            i += 1;
        }
        assert(batch.take(i as int) =~= batch);
    }
}

} // verus!
