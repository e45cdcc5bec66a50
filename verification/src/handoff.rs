//! The bounded hand-off between the two stages: a queue of at most five
//! messages that gives them out in the order it took them. A full hand-off
//! takes nothing, so the consumer waits until the dispatcher has drawn one.

use std::collections::VecDeque;
use vstd::prelude::*;
use crate::message::MessageView;
use crate::message::VerificationMessage;

verus! {

/// How many messages the hand-off buffers.
pub const HANDOFF_CAPACITY: usize = 5;

/// The messages of a queue as plain data.
pub open spec fn messages_view(messages: Seq<VerificationMessage>) -> Seq<MessageView> {
    Seq::new(messages.len(), |i: int| messages[i]@)
}

/// The queue after `msg` was offered to it: with `msg` at its end where there
/// was room, and unchanged where there was none.
pub open spec fn offered(queue: Seq<MessageView>, msg: MessageView) -> Seq<MessageView> {
    if queue.len() < HANDOFF_CAPACITY {
        queue.push(msg)
    } else {
        queue
    }
}

/// The queue after one message was drawn from it.
pub open spec fn drawn(queue: Seq<MessageView>) -> Seq<MessageView> {
    if queue.len() > 0 {
        queue.drop_first()
    } else {
        queue
    }
}

/// The messages on their way from the consumer to the dispatcher.
#[derive(Debug)]
pub struct Handoff {
    queue: VecDeque<VerificationMessage>,
}

impl View for Handoff {
    type V = Seq<MessageView>;

    closed spec fn view(&self) -> Seq<MessageView> {
        messages_view(self.queue@)
    }
}

impl Handoff {
    #[verifier::type_invariant]
    spec fn bounded(&self) -> bool {
        self.queue@.len() <= HANDOFF_CAPACITY
    }

    /// An empty hand-off.
    pub fn new() -> (r: Handoff)
        ensures
            r@ == Seq::<MessageView>::empty(),
    {
        let r = Handoff { queue: VecDeque::new() };
        assert(r@ =~= Seq::empty());
        r
    }

    /// How many messages are buffered.
    pub fn len(&self) -> (r: usize)
        ensures
            r == self@.len(),
            r <= HANDOFF_CAPACITY,
    {
        proof {
            use_type_invariant(self);
        }
        self.queue.len()
    }

    /// Whether an offer would be turned down.
    pub fn is_full(&self) -> (r: bool)
        ensures
            r == (self@.len() >= HANDOFF_CAPACITY),
    {
        self.queue.len() >= HANDOFF_CAPACITY
    }

    /// Offers a message. Where there is room the hand-off takes it, behind
    /// those it holds; where it is full it stays as it is and gives the
    /// message back.
    pub fn offer(&mut self, msg: VerificationMessage) -> (r: Option<VerificationMessage>)
        ensures
            final(self)@ == offered(old(self)@, msg@),
            final(self)@.len() <= HANDOFF_CAPACITY,
            match r {
                Some(back) => old(self)@.len() == HANDOFF_CAPACITY && back@ == msg@,
                None => old(self)@.len() < HANDOFF_CAPACITY,
            },
    {
        proof {
            use_type_invariant(&*self);
        }
        if self.queue.len() >= HANDOFF_CAPACITY {
            Some(msg)
        } else {
            let mut queue: VecDeque<VerificationMessage> = VecDeque::new();
            core::mem::swap(&mut self.queue, &mut queue);
            queue.push_back(msg);
            core::mem::swap(&mut self.queue, &mut queue);
            assert(self@ =~= old(self)@.push(msg@));
            None
        }
    }

    /// Draws the message that has waited longest, if there is one.
    pub fn draw(&mut self) -> (r: Option<VerificationMessage>)
        ensures
            final(self)@ == drawn(old(self)@),
            final(self)@.len() <= HANDOFF_CAPACITY,
            match r {
                Some(msg) => old(self)@.len() > 0 && msg@ == old(self)@[0],
                None => old(self)@.len() == 0,
            },
    {
        proof {
            use_type_invariant(&*self);
        }
        let mut queue: VecDeque<VerificationMessage> = VecDeque::new();
        core::mem::swap(&mut self.queue, &mut queue);
        let r = queue.pop_front();
        core::mem::swap(&mut self.queue, &mut queue);
        assert(self@ =~= drawn(old(self)@));
        r
    }
}

/// Something that one of the two stages does to the hand-off.
pub ghost enum HandoffOp {
    /// The consumer offers a message.
    Offer(MessageView),
    /// The dispatcher draws one.
    Draw,
}

/// The queue after a run of operations.
pub open spec fn queue_after(queue: Seq<MessageView>, ops: Seq<HandoffOp>) -> Seq<MessageView>
    decreases ops.len(),
{
    if ops.len() == 0 {
        queue
    } else {
        let next = match ops[0] {
            HandoffOp::Offer(msg) => offered(queue, msg),
            HandoffOp::Draw => drawn(queue),
        };
        queue_after(next, ops.drop_first())
    }
}

/// The messages that the queue takes in on a run of operations, in order.
pub open spec fn taken_in(queue: Seq<MessageView>, ops: Seq<HandoffOp>) -> Seq<MessageView>
    decreases ops.len(),
{
    if ops.len() == 0 {
        Seq::empty()
    } else {
        match ops[0] {
            HandoffOp::Offer(msg) => if queue.len() < HANDOFF_CAPACITY {
                seq![msg] + taken_in(queue.push(msg), ops.drop_first())
            } else {
                taken_in(queue, ops.drop_first())
            },
            HandoffOp::Draw => taken_in(drawn(queue), ops.drop_first()),
        }
    }
}

/// The messages that the queue gives out on a run of operations, in order.
pub open spec fn given_out(queue: Seq<MessageView>, ops: Seq<HandoffOp>) -> Seq<MessageView>
    decreases ops.len(),
{
    if ops.len() == 0 {
        Seq::empty()
    } else {
        match ops[0] {
            HandoffOp::Offer(msg) => given_out(offered(queue, msg), ops.drop_first()),
            HandoffOp::Draw => if queue.len() > 0 {
                seq![queue[0]] + given_out(queue.drop_first(), ops.drop_first())
            } else {
                given_out(queue, ops.drop_first())
            },
        }
    }
}

/// Whatever the two stages do, and in whatever order, the hand-off never
/// holds more than its capacity.
pub proof fn lemma_bound_holds(queue: Seq<MessageView>, ops: Seq<HandoffOp>)
    requires
        queue.len() <= HANDOFF_CAPACITY,
    ensures
        queue_after(queue, ops).len() <= HANDOFF_CAPACITY,
    decreases ops.len(),
{
    if ops.len() > 0 {
        let next = match ops[0] {
            HandoffOp::Offer(msg) => offered(queue, msg),
            HandoffOp::Draw => drawn(queue),
        };
        lemma_bound_holds(next, ops.drop_first());
    }
}

/// A full hand-off turns an offer down and stays as it is; once one message
/// is drawn from it, it takes the offer.
pub proof fn lemma_full_until_drawn(queue: Seq<MessageView>, msg: MessageView)
    requires
        queue.len() == HANDOFF_CAPACITY,
    ensures
        offered(queue, msg) == queue,
        offered(drawn(queue), msg) == drawn(queue).push(msg),
        offered(drawn(queue), msg).len() == HANDOFF_CAPACITY,
{
}

/// The hand-off neither loses nor repeats nor reorders: what it held and then
/// took in is what it gave out and then still holds.
pub proof fn lemma_first_in_first_out(queue: Seq<MessageView>, ops: Seq<HandoffOp>)
    ensures
        queue + taken_in(queue, ops) == given_out(queue, ops) + queue_after(queue, ops),
    decreases ops.len(),
{
    if ops.len() == 0 {
        assert(queue + taken_in(queue, ops) =~= given_out(queue, ops) + queue_after(queue, ops));
    } else {
        let rest = ops.drop_first();
        match ops[0] {
            HandoffOp::Offer(msg) => {
                lemma_first_in_first_out(offered(queue, msg), rest);
                if queue.len() < HANDOFF_CAPACITY {
                    assert(queue + (seq![msg] + taken_in(queue.push(msg), rest)) =~= queue.push(
                        msg,
                    ) + taken_in(queue.push(msg), rest));
                }
            },
            HandoffOp::Draw => {
                lemma_first_in_first_out(drawn(queue), rest);
                if queue.len() > 0 {
                    let tail = queue.drop_first();
                    assert(queue + taken_in(tail, rest) =~= seq![queue[0]] + (tail + taken_in(
                        tail,
                        rest,
                    )));
                    assert(seq![queue[0]] + (given_out(tail, rest) + queue_after(tail, rest))
                        =~= (seq![queue[0]] + given_out(tail, rest)) + queue_after(tail, rest));
                }
            },
        }
    }
}

} // verus!
