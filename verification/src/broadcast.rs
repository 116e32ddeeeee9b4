//! The broadcast fan-out model: one sender, many subscribers, bounded
//! queues. A publication reaches every subscriber's queue exactly once; a
//! full queue drops its oldest entry — never the new one and never an entry
//! in the middle — and the drop is signalled to that subscriber as an
//! explicit lag count instead of a duplication or a silent loss. Within one
//! queue, order is preserved end-to-end.

use vstd::prelude::*;
use crate::message::clone_bytes;
use crate::message::Message;
use crate::message::MessageView;

verus! {

/// What one publication does to one subscriber's queue value: append the
/// message, shedding the oldest entry first when the queue is at capacity.
pub open spec fn spec_publish(q: Seq<MessageView>, capacity: nat, m: MessageView) -> Seq<
    MessageView,
> {
    if q.len() >= capacity {
        q.drop_first().push(m)
    } else {
        q.push(m)
    }
}

/// One subscriber's bounded receive queue, with the count of entries shed
/// while it lagged.
pub struct SubscriberQueue {
    pending: Vec<Message>,
    missed: u64,
    capacity: usize,
}

/// One receive attempt's outcome.
#[derive(Debug)]
pub enum RecvOutcome {
    /// The subscriber lagged: this many older entries were shed since the
    /// last receive. Reported once, before any further message.
    Lagged(u64),
    /// The oldest pending message.
    Msg(Message),
    /// Nothing pending; a live receiver would now wait.
    Empty,
}

impl View for SubscriberQueue {
    type V = Seq<MessageView>;

    /// The pending messages, oldest first.
    closed spec fn view(&self) -> Seq<MessageView> {
        self.pending@.map_values(|m: Message| m@)
    }
}

impl SubscriberQueue {
    /// The queue respects its bound.
    pub open spec fn wf(self) -> bool {
        self.spec_capacity() >= 1 && self@.len() <= self.spec_capacity()
    }

    /// The bound the queue was made with.
    pub closed spec fn spec_capacity(self) -> nat {
        self.capacity as nat
    }

    /// The count of entries shed since the last receive.
    pub closed spec fn spec_missed(self) -> u64 {
        self.missed
    }

    /// A fresh, empty queue with the given bound.
    pub fn new(capacity: usize) -> (q: SubscriberQueue)
        requires
            capacity >= 1,
        ensures
            q.wf(),
            q@ =~= Seq::<MessageView>::empty(),
            q.spec_capacity() == capacity,
            q.spec_missed() == 0,
    {
        SubscriberQueue { pending: Vec::new(), missed: 0, capacity }
    }

    /// Accepts one publication: the message lands at the tail exactly once;
    /// at capacity the oldest entry is shed and counted, and the publisher
    /// is never blocked.
    pub fn publish_one(&mut self, msg: &Message)
        requires
            old(self).wf(),
        ensures
            final(self).wf(),
            final(self).spec_capacity() == old(self).spec_capacity(),
            final(self)@ =~= spec_publish(old(self)@, old(self).spec_capacity(), msg@),
            final(self).spec_missed() == if old(self)@.len() >= old(self).spec_capacity() {
                old(self).spec_missed().saturating_add(1)
            } else {
                old(self).spec_missed()
            },
    {
        if self.pending.len() >= self.capacity {
            let _ = self.pending.remove(0);
            self.missed = self.missed.saturating_add(1);
        }
        let copy = match msg {
            Message::Text(s) => Message::Text(s.clone()),
            Message::Binary(b) => Message::Binary(clone_bytes(b)),
            Message::Ping(b) => Message::Ping(clone_bytes(b)),
            Message::Pong(b) => Message::Pong(clone_bytes(b)),
            Message::Close(f) => Message::Close(
                match f {
                    Some(frame) => Some(frame.clone()),
                    None => None,
                },
            ),
        };
        self.pending.push(copy);
    }

    /// One receive attempt: a lag is reported first and exactly once; then
    /// messages come out oldest first, one per attempt; an empty queue
    /// yields nothing.
    pub fn recv(&mut self) -> (r: RecvOutcome)
        requires
            old(self).wf(),
        ensures
            final(self).wf(),
            final(self).spec_capacity() == old(self).spec_capacity(),
            match r {
                RecvOutcome::Lagged(n) => {
                    &&& old(self).spec_missed() > 0
                    &&& n == old(self).spec_missed()
                    &&& final(self).spec_missed() == 0
                    &&& final(self)@ == old(self)@
                },
                RecvOutcome::Msg(m) => {
                    &&& old(self).spec_missed() == 0
                    &&& old(self)@.len() > 0
                    &&& m@ == old(self)@[0]
                    &&& final(self)@ =~= old(self)@.drop_first()
                    &&& final(self).spec_missed() == 0
                },
                RecvOutcome::Empty => {
                    &&& old(self).spec_missed() == 0
                    &&& old(self)@.len() == 0
                    &&& final(self)@ == old(self)@
                    &&& final(self).spec_missed() == 0
                },
            },
    {
        if self.missed > 0 {
            let n = self.missed;
            self.missed = 0;
            return RecvOutcome::Lagged(n);
        }
        if self.pending.len() == 0 {
            return RecvOutcome::Empty;
        }
        let m = self.pending.remove(0);
        RecvOutcome::Msg(m)
    }
}

/// The broadcast channel: the sender's view of every live subscriber's
/// queue. Subscribing takes a fresh queue; publishing fans one message out
/// to every queue.
pub struct BroadcastHub {
    capacity: usize,
    subscribers: Vec<SubscriberQueue>,
}

impl View for BroadcastHub {
    type V = Seq<Seq<MessageView>>;

    /// Every subscriber's pending messages, in subscription order.
    closed spec fn view(&self) -> Seq<Seq<MessageView>> {
        self.subscribers@.map_values(|q: SubscriberQueue| q@)
    }
}

impl BroadcastHub {
    /// Every queue respects the hub's one bound.
    pub open spec fn wf(self) -> bool {
        &&& self.spec_capacity() >= 1
        &&& forall|i: int|
            0 <= i < self.spec_subscribers().len() ==> (#[trigger] self.spec_subscribers()[i]).wf()
                && self.spec_subscribers()[i].spec_capacity() == self.spec_capacity()
    }

    /// The bound every subscriber queue is made with.
    pub closed spec fn spec_capacity(self) -> nat {
        self.capacity as nat
    }

    /// The subscriber queues themselves.
    pub closed spec fn spec_subscribers(self) -> Seq<SubscriberQueue> {
        self.subscribers@
    }

    /// A fresh hub with no subscriber.
    pub fn new(capacity: usize) -> (h: BroadcastHub)
        requires
            capacity >= 1,
        ensures
            h.wf(),
            h@ =~= Seq::<Seq<MessageView>>::empty(),
            h.spec_capacity() == capacity,
    {
        BroadcastHub { capacity, subscribers: Vec::new() }
    }

    /// The number of live subscribers.
    pub fn receiver_count(&self) -> (n: usize)
        ensures
            n == self@.len(),
    {
        self.subscribers.len()
    }

    /// Takes a fresh, empty subscription; existing queues are untouched.
    pub fn subscribe(&mut self) -> (id: usize)
        requires
            old(self).wf(),
        ensures
            final(self).wf(),
            final(self).spec_capacity() == old(self).spec_capacity(),
            id == old(self)@.len(),
            final(self)@.len() == old(self)@.len() + 1,
            forall|i: int| 0 <= i < old(self)@.len() ==> final(self)@[i] == #[trigger] old(self)@[i],
            final(self)@[id as int] =~= Seq::<MessageView>::empty(),
            final(self).spec_subscribers()[id as int].spec_missed() == 0,
    {
        let id = self.subscribers.len();
        let q = SubscriberQueue::new(self.capacity);
        self.subscribers.push(q);
        proof {
            assert forall|i: int|
                0 <= i < self.spec_subscribers().len() implies (#[trigger] self.spec_subscribers()[i]).wf()
                && self.spec_subscribers()[i].spec_capacity() == self.spec_capacity() by {
                if i < old(self).spec_subscribers().len() {
                    assert(self.spec_subscribers()[i] == old(self).spec_subscribers()[i]);
                }
            }
        }
        id
    }

    /// Publishes one message: every subscriber's queue receives it exactly
    /// once, at the tail; a queue at capacity sheds only its oldest entry
    /// and counts the drop; queues are otherwise untouched and never
    /// reordered, and no queue blocks the publisher.
    pub fn publish(&mut self, msg: &Message)
        requires
            old(self).wf(),
        ensures
            final(self).wf(),
            final(self).spec_capacity() == old(self).spec_capacity(),
            final(self)@.len() == old(self)@.len(),
            forall|i: int|
                0 <= i < old(self)@.len() ==> final(self)@[i] =~= spec_publish(
                    #[trigger] old(self)@[i],
                    old(self).spec_capacity(),
                    msg@,
                ),
            forall|i: int|
                0 <= i < old(self)@.len() ==> (#[trigger] final(self).spec_subscribers()[i]).spec_missed()
                    == if old(self)@[i].len() >= old(self).spec_capacity() {
                    old(self).spec_subscribers()[i].spec_missed().saturating_add(1)
                } else {
                    old(self).spec_subscribers()[i].spec_missed()
                },
    {
        let n = self.subscribers.len();
        let mut i: usize = 0;
        while i < n
            invariant
                n == self.subscribers@.len(),
                i <= n,
                old(self).wf(),
                self.capacity == old(self).capacity,
                self@.len() == old(self)@.len(),
                forall|j: int|
                    0 <= j < i ==> (#[trigger] self.spec_subscribers()[j]).wf()
                        && self.spec_subscribers()[j].spec_capacity() == self.spec_capacity(),
                forall|j: int|
                    i <= j < n ==> #[trigger] self.spec_subscribers()[j] == old(self).spec_subscribers()[j],
                forall|j: int|
                    0 <= j < i ==> self@[j] =~= spec_publish(
                        #[trigger] old(self)@[j],
                        old(self).spec_capacity(),
                        msg@,
                    ),
                forall|j: int|
                    0 <= j < i ==> (#[trigger] self.spec_subscribers()[j]).spec_missed() == if old(self)@[j].len() >= old(self).spec_capacity() {
                        old(self).spec_subscribers()[j].spec_missed().saturating_add(1)
                    } else {
                        old(self).spec_subscribers()[j].spec_missed()
                    },
            decreases n - i,
        {
            proof {
                assert(self.spec_subscribers()[i as int] == old(self).spec_subscribers()[
                    i as int
                ]);
                assert(old(self).spec_subscribers()[i as int].wf());
            }
            let q = &mut self.subscribers[i];
            q.publish_one(msg);
            i += 1;
        }
    }

    /// One receive attempt on subscriber `id`; other queues are untouched.
    pub fn recv_at(&mut self, id: usize) -> (r: RecvOutcome)
        requires
            old(self).wf(),
            id < old(self)@.len(),
        ensures
            final(self).wf(),
            final(self).spec_capacity() == old(self).spec_capacity(),
            final(self)@.len() == old(self)@.len(),
            forall|i: int|
                0 <= i < old(self)@.len() && i != id ==> #[trigger] final(self).spec_subscribers()[i] == old(self).spec_subscribers()[i],
            match r {
                RecvOutcome::Lagged(n) => {
                    &&& old(self).spec_subscribers()[id as int].spec_missed() > 0
                    &&& n == old(self).spec_subscribers()[id as int].spec_missed()
                    &&& final(self).spec_subscribers()[id as int].spec_missed() == 0
                    &&& final(self)@[id as int] == old(self)@[id as int]
                },
                RecvOutcome::Msg(m) => {
                    &&& old(self).spec_subscribers()[id as int].spec_missed() == 0
                    &&& old(self)@[id as int].len() > 0
                    &&& m@ == old(self)@[id as int][0]
                    &&& final(self)@[id as int] =~= old(self)@[id as int].drop_first()
                    &&& final(self).spec_subscribers()[id as int].spec_missed() == 0
                },
                RecvOutcome::Empty => {
                    &&& old(self).spec_subscribers()[id as int].spec_missed() == 0
                    &&& old(self)@[id as int].len() == 0
                    &&& final(self)@[id as int] == old(self)@[id as int]
                    &&& final(self).spec_subscribers()[id as int].spec_missed() == 0
                },
            },
    {
        proof {
            assert(old(self).spec_subscribers()[id as int].wf());
        }
        let q = &mut self.subscribers[id];
        let r = q.recv();
        proof {
            assert forall|i: int|
                0 <= i < self.spec_subscribers().len() implies (#[trigger] self.spec_subscribers()[i]).wf()
                && self.spec_subscribers()[i].spec_capacity() == self.spec_capacity() by {
                if i != id as int {
                    assert(self.spec_subscribers()[i] == old(self).spec_subscribers()[i]);
                }
            }
            assert(self@[id as int] == self.spec_subscribers()[id as int]@);
            assert(old(self)@[id as int] == old(self).spec_subscribers()[id as int]@);
        }
        r
    }
}

/// Law: a publication is observed on every subscriber's queue exactly once
/// — it lands at the tail of each queue, each existing entry either stays
/// in place (shifted only by the one shed oldest entry) or is the shed
/// entry itself, and a shed entry is always the oldest, never the new
/// message and never one in the middle.
pub proof fn lemma_publish_exactly_once(q: Seq<MessageView>, capacity: nat, m: MessageView)
    requires
        capacity >= 1,
        q.len() <= capacity,
    ensures
        spec_publish(q, capacity, m).len() == if q.len() >= capacity {
            q.len()
        } else {
            q.len() + 1
        },
        spec_publish(q, capacity, m).last() == m,
        q.len() < capacity ==> forall|i: int| 0 <= i < q.len() ==> spec_publish(
            q,
            capacity,
            m,
        )[i] == q[i],
        q.len() >= capacity ==> forall|i: int| 1 <= i < q.len() ==> spec_publish(
            q,
            capacity,
            m,
        )[i - 1] == q[i],
{
}

} // verus!
