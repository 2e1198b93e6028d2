//! The message channel, modelled as the sequence of messages in the
//! order the consumer receives them. Producers append; each producer's
//! messages therefore arrive in its own send order, however the sends of
//! different producers interleave. A distinguished terminal sentinel is
//! sent exactly once, by the coordinator, after every producer has
//! finished; nothing follows it.

use vstd::prelude::*;

verus! {

/// A message on the channel: a thought announced by a named philosopher,
/// or the terminal sentinel. The sentinel is its own variant, not a
/// special text, so no real thought can ever be mistaken for it.
#[derive(Clone, PartialEq, Eq, Debug)]
pub enum Message {
    Thought { name: String },
    Done,
}

impl Message {
    /// Whether this message is the terminal sentinel.
    pub fn is_done(&self) -> (r: bool)
        ensures
            r == (*self is Done),
    {
        match self {
            Message::Done => true,
            Message::Thought { .. } => false,
        }
    }
}

/// A thought announced under the given name.
pub open spec fn is_thought_by(m: Message, name: Seq<char>) -> bool {
    &&& m is Thought
    &&& m->name@ == name
}

/// The channel. `msgs` is the log of messages in consumption order;
/// `done_sent` records whether the coordinator has sent the sentinel.
pub struct Channel {
    pub msgs: Vec<Message>,
    pub done_sent: bool,
}

impl Channel {
    /// The messages so far, in consumption order.
    pub open spec fn log(self) -> Seq<Message> {
        self.msgs@
    }

    /// Sentinel discipline: before `finish`, no sentinel is in the log;
    /// after it, the sentinel appears exactly once, as the last message.
    pub open spec fn wf(self) -> bool {
        if self.done_sent {
            &&& self.log().len() > 0
            &&& forall|k: int|
                0 <= k < self.log().len() ==> ((#[trigger] self.log()[k]) is Done <==> k
                    == self.log().len() - 1)
        } else {
            forall|k: int| 0 <= k < self.log().len() ==> !((#[trigger] self.log()[k]) is Done)
        }
    }

    /// An open channel with nothing sent yet.
    pub fn new() -> (c: Channel)
        ensures
            c.wf(),
            !c.done_sent,
            c.log() == Seq::<Message>::empty(),
    {
        Channel { msgs: Vec::new(), done_sent: false }
    }

    /// A producer's send: appends to the log. Only thoughts travel this
    /// way; the sentinel has its own step, `finish`.
    pub fn send(&mut self, m: Message)
        requires
            old(self).wf(),
            !old(self).done_sent,
            !(m is Done),
        ensures
            final(self).wf(),
            !final(self).done_sent,
            final(self).log() == old(self).log().push(m),
    {
        self.msgs.push(m);
    }

    /// The coordinator's last step, once every producer is done: send
    /// the terminal sentinel, exactly once.
    pub fn finish(&mut self)
        requires
            old(self).wf(),
            !old(self).done_sent,
        ensures
            final(self).wf(),
            final(self).done_sent,
            final(self).log() == old(self).log().push(Message::Done),
    {
        self.msgs.push(Message::Done);
        self.done_sent = true;
    }

    /// The log as the consumer sees it.
    pub fn messages(&self) -> (r: &Vec<Message>)
        ensures
            r@ == self.log(),
    {
        &self.msgs
    }

    /// Whether the sentinel has been sent.
    pub fn is_finished(&self) -> (r: bool)
        ensures
            r == self.done_sent,
    {
        self.done_sent
    }

    /// Consume the channel: receive messages in order until the sentinel
    /// appears, and hand back the thoughts received before it, in order.
    pub fn drain_thoughts(self) -> (r: Vec<Message>)
        requires
            self.wf(),
            self.done_sent,
        ensures
            r@ == self.log().take(self.log().len() - 1),
    {
        let ghost orig: Seq<Message> = self.log();
        let mut msgs = self.msgs;
        let mut out: Vec<Message> = Vec::new();
        loop
            invariant_except_break
                out@.len() < orig.len(),
                out@ == orig.take(out@.len() as int),
                msgs@ == orig.skip(out@.len() as int),
                forall|k: int|
                    0 <= k < orig.len() ==> ((#[trigger] orig[k]) is Done <==> k == orig.len() - 1),
            ensures
                out@ == orig.take(orig.len() - 1),
            decreases msgs@.len(),
        {
            assert(msgs@.len() > 0);
            assert(msgs@[0] == orig[out@.len() as int]);
            let m = msgs.remove(0);
            proof {
                assert(msgs@ =~= orig.skip(out@.len() as int + 1));
            }
            if m.is_done() {
                assert(out@.len() == orig.len() - 1);
                assert(out@ =~= orig.take(orig.len() - 1));
                break ;
            }
            out.push(m);
            proof {
                assert(out@ =~= orig.take(out@.len() as int));
            }
        }
        out
    }
}

/// Exactly one terminal sentinel: once the coordinator has finished the
/// channel, the sentinel appears exactly once, and nothing follows it in
/// the order of consumption.
pub proof fn lemma_single_sentinel(c: Channel)
    requires
        c.wf(),
        c.done_sent,
    ensures
        c.log().len() > 0,
        c.log().last() is Done,
        forall|k: int| 0 <= k < c.log().len() - 1 ==> !((#[trigger] c.log()[k]) is Done),
{
}

/// Per-producer order is preserved: a send appends to the log, so a
/// message sent earlier keeps a strictly earlier position than one the
/// same producer sends later, whatever other producers append between
/// the two sends.
pub proof fn lemma_per_producer_fifo(
    at_first_send: Seq<Message>,
    at_second_send: Seq<Message>,
    m1: Message,
    m2: Message,
)
    requires
        at_first_send.push(m1).is_prefix_of(at_second_send),
    ensures
        at_first_send.len() < at_second_send.len(),
        at_second_send.push(m2)[at_first_send.len() as int] == m1,
        at_second_send.push(m2)[at_second_send.len() as int] == m2,
{
    assert(at_first_send.push(m1)[at_first_send.len() as int] == m1);
    assert(at_second_send[at_first_send.len() as int] == at_first_send.push(m1)[at_first_send.len() as int]);
}

} // verus!
