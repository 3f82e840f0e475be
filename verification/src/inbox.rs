use vstd::prelude::*;

use crate::message::{AppMessage, MsgModel};

verus! {

/// The inbox: an order-preserving queue of application messages with a
/// single consumer, the application loop. `send` never blocks and never
/// fails observably; `drain` hands back everything queued, in send order,
/// and empties the queue. Waking the host runtime when a message arrives is
/// the shell's concern, not part of this model.
pub struct Inbox {
    queue: Vec<AppMessage>,
}

impl View for Inbox {
    type V = Seq<MsgModel>;

    closed spec fn view(&self) -> Seq<MsgModel> {
        self.queue@.map_values(|m: AppMessage| m@)
    }
}

impl Inbox {
    /// A fresh, empty inbox.
    pub fn new() -> (inbox: Inbox)
        ensures
            inbox@ == Seq::<MsgModel>::empty(),
    {
        let inbox = Inbox { queue: Vec::new() };
        proof {
            assert(inbox@ =~= Seq::<MsgModel>::empty());
        }
        inbox
    }

    /// Fire-and-forget send: the message is appended behind everything
    /// already queued, and nothing is reported back to the producer.
    pub fn send(&mut self, msg: AppMessage)
        ensures
            final(self)@ == old(self)@.push(msg@),
    {
        let ghost before = self@;
        let ghost m = msg@;
        self.queue.push(msg);
        proof {
            assert(self@ =~= before.push(m));
        }
    }

    /// Remove and return every queued message, in the order sent.
    pub fn drain(&mut self) -> (msgs: Vec<AppMessage>)
        ensures
            msgs@.map_values(|m: AppMessage| m@) == old(self)@,
            final(self)@ == Seq::<MsgModel>::empty(),
    {
        let mut out: Vec<AppMessage> = Vec::new();
        core::mem::swap(&mut out, &mut self.queue);
        proof {
            assert(self@ =~= Seq::<MsgModel>::empty());
        }
        out
    }

    /// How many messages are waiting.
    pub fn len(&self) -> (n: usize)
        ensures
            n == self@.len(),
    {
        self.queue.len()
    }
}

/// The queue reached by sending each message of `msgs`, in order, into an
/// inbox whose queue holds `init`.
pub open spec fn sent_all(init: Seq<MsgModel>, msgs: Seq<MsgModel>) -> Seq<MsgModel>
    decreases msgs.len(),
{
    if msgs.len() == 0 {
        init
    } else {
        sent_all(init.push(msgs[0]), msgs.drop_first())
    }
}

/// Sending a batch of messages appends the batch behind whatever was queued.
pub proof fn lemma_sent_all_appends(init: Seq<MsgModel>, msgs: Seq<MsgModel>)
    ensures
        sent_all(init, msgs) == init + msgs,
    decreases msgs.len(),
{
    if msgs.len() == 0 {
        assert(init + msgs =~= init);
    } else {
        lemma_sent_all_appends(init.push(msgs[0]), msgs.drop_first());
        assert(init.push(msgs[0]) + msgs.drop_first() =~= init + msgs);
    }
}

/// First-in, first-out delivery: sending any number of messages into an
/// empty inbox leaves the queue holding exactly those messages in send
/// order, so the next `drain` returns them all in send order and a further
/// `drain` with no intervening send returns nothing (both by `drain`'s
/// contract).
pub proof fn lemma_inbox_fifo(msgs: Seq<MsgModel>)
    ensures
        sent_all(Seq::<MsgModel>::empty(), msgs) == msgs,
{
    lemma_sent_all_appends(Seq::<MsgModel>::empty(), msgs);
    assert(Seq::<MsgModel>::empty() + msgs =~= msgs);
}

} // verus!
