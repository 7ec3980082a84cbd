use std::collections::VecDeque;
use vstd::prelude::*;

use crate::frame::Message;

verus! {

/// The outbound queue between the session controller and the writer:
/// frames leave in the order in which they were put in.
pub struct Outbox {
    queue: VecDeque<Message>,
}

impl View for Outbox {
    type V = Seq<Message>;

    closed spec fn view(&self) -> Seq<Message> {
        self.queue@
    }
}

/// The queue after each of `items` was put in, first to last.
pub open spec fn push_all(q: Seq<Message>, items: Seq<Message>) -> Seq<Message>
    decreases items.len(),
{
    if items.len() == 0 {
        q
    } else {
        push_all(q.push(items[0]), items.drop_first())
    }
}

/// The frames that `n` successive takes hand out of the queue `q`.
pub open spec fn take_n(q: Seq<Message>, n: nat) -> Seq<Message>
    decreases n,
{
    if n == 0 || q.len() == 0 {
        Seq::empty()
    } else {
        seq![q[0]] + take_n(q.drop_first(), (n - 1) as nat)
    }
}

proof fn lemma_push_all(q: Seq<Message>, items: Seq<Message>)
    ensures
        push_all(q, items) == q + items,
    decreases items.len(),
{
    if items.len() > 0 {
        lemma_push_all(q.push(items[0]), items.drop_first());
        assert(q.push(items[0]) + items.drop_first() =~= q + items);
    } else {
        assert(q + items =~= q);
    }
}

proof fn lemma_take_all(q: Seq<Message>)
    ensures
        take_n(q, q.len()) == q,
    decreases q.len(),
{
    if q.len() > 0 {
        lemma_take_all(q.drop_first());
        assert(seq![q[0]] + q.drop_first() =~= q);
    } else {
        assert(q =~= Seq::<Message>::empty());
    }
}

/// Frames put into an empty queue one after another are taken out in the
/// same order.
pub proof fn lemma_fifo_order(items: Seq<Message>)
    ensures
        take_n(push_all(Seq::empty(), items), items.len()) == items,
{
    lemma_push_all(Seq::empty(), items);
    assert(Seq::<Message>::empty() + items =~= items);
    lemma_take_all(items);
}

impl Outbox {
    /// An empty queue.
    pub fn new() -> (r: Outbox)
        ensures
            r@ == Seq::<Message>::empty(),
    {
        Outbox { queue: VecDeque::new() }
    }

    /// Puts a frame at the back of the queue.
    pub fn push(&mut self, m: Message)
        ensures
            final(self)@ == old(self)@.push(m),
    {
        self.queue.push_back(m);
    }

    /// Takes the frame at the front of the queue, if there is one.
    pub fn pop(&mut self) -> (r: Option<Message>)
        ensures
            old(self)@.len() == 0 ==> r is None && final(self)@ == old(self)@,
            old(self)@.len() > 0 ==> r == Some(old(self)@[0]) && final(self)@
                == old(self)@.drop_first(),
    {
        self.queue.pop_front()
    }

    /// The number of frames waiting.
    pub fn len(&self) -> (r: usize)
        ensures
            r == self@.len(),
    {
        self.queue.len()
    }

    /// Whether no frame is waiting.
    pub fn is_empty(&self) -> (r: bool)
        ensures
            r == (self@.len() == 0),
    {
        self.queue.len() == 0
    }
}

} // verus!
