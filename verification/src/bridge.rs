//! The sink/source bridge: a bounded, multi-producer, single-consumer
//! queue modelled as plain state. Sending on a full queue is refused with
//! the item handed back (the caller suspends and retries: backpressure);
//! sending after the consumer is gone is refused with the item handed back
//! as a terminal condition; receiving on an empty queue tells the consumer
//! whether producers are still alive (suspend) or all gone (end of input).
use vstd::prelude::*;

verus! {

/// The mathematical state of one bounded channel.
#[verifier::ext_equal]
pub struct ChannelModel<T> {
    pub capacity: nat,
    pub queue: Seq<T>,
    pub producers: nat,
    pub consumer_live: bool,
}

/// A send is accepted exactly when the consumer side is alive and the
/// queue has room.
pub open spec fn send_accepted<T>(m: ChannelModel<T>) -> bool {
    m.consumer_live && m.queue.len() < m.capacity
}

/// The channel state after an accepted send: the item is appended, nothing
/// else moves.
pub open spec fn send_post<T>(m: ChannelModel<T>, x: T) -> ChannelModel<T> {
    ChannelModel { queue: m.queue.push(x), ..m }
}

/// The channel state after a successful receive: the front item leaves,
/// nothing else moves.
pub open spec fn recv_post<T>(m: ChannelModel<T>) -> ChannelModel<T> {
    ChannelModel { queue: m.queue.drop_first(), ..m }
}

/// One producer handle goes away; the count never goes below zero.
pub open spec fn dec_producers(n: nat) -> nat {
    if n > 0 { (n - 1) as nat } else { 0 }
}

/// A channel never holds more than its capacity.
pub open spec fn chan_wf<T>(m: ChannelModel<T>) -> bool {
    m.queue.len() <= m.capacity
}

/// What a send attempt can come to. `WouldBlock` and `Closed` hand the
/// undelivered item back to the caller.
#[derive(Debug)]
pub enum SendOutcome<T> {
    /// The item was enqueued and is guaranteed delivered while the
    /// consumer side stays alive.
    Sent,
    /// The queue is at capacity: the sending task suspends until the
    /// consumer advances.
    WouldBlock(T),
    /// The consumer side is gone: a terminal, non-retriable condition.
    Closed(T),
}

/// What a receive attempt can come to.
#[derive(Debug)]
pub enum RecvOutcome<T> {
    /// The item at the front of the queue.
    Received(T),
    /// The queue is empty but a producer is still alive: the receiving
    /// task suspends until an item arrives.
    WouldBlock,
    /// The queue is empty and every producer handle has been dropped:
    /// end of input.
    Disconnected,
}

/// The in-process bounded channel the bridge hands out, front of the
/// queue at index zero.
#[derive(Debug)]
pub struct BoundedChannel<T> {
    capacity: usize,
    items: Vec<T>,
    producers: usize,
    consumer_live: bool,
}

impl<T> BoundedChannel<T> {
    pub closed spec fn model(&self) -> ChannelModel<T> {
        ChannelModel {
            capacity: self.capacity as nat,
            queue: self.items@,
            producers: self.producers as nat,
            consumer_live: self.consumer_live,
        }
    }

    pub open spec fn wf(&self) -> bool {
        chan_wf(self.model())
    }

    /// A fresh channel with one producer handle and a live consumer.
    pub fn new(capacity: usize) -> (r: BoundedChannel<T>)
        ensures
            r.wf(),
            r.model() == (ChannelModel {
                capacity: capacity as nat,
                queue: Seq::<T>::empty(),
                producers: 1nat,
                consumer_live: true,
            }),
    {
        let r = BoundedChannel { capacity, items: Vec::new(), producers: 1, consumer_live: true };
        proof {
            assert(r.model() =~= ChannelModel {
                capacity: capacity as nat,
                queue: Seq::<T>::empty(),
                producers: 1nat,
                consumer_live: true,
            });
        }
        r
    }

    /// Attempt to enqueue an item without suspending.
    pub fn try_send(&mut self, x: T) -> (r: SendOutcome<T>)
        requires
            old(self).wf(),
        ensures
            final(self).wf(),
            send_accepted(old(self).model()) ==> (r is Sent
                && final(self).model() == send_post(old(self).model(), x)),
            (old(self).model().consumer_live && old(self).model().queue.len()
                >= old(self).model().capacity) ==> (r == SendOutcome::WouldBlock(x)
                && final(self).model() == old(self).model()),
            !old(self).model().consumer_live ==> (r == SendOutcome::Closed(x)
                && final(self).model() == old(self).model()),
    {
        let ghost pre = self.model();
        if !self.consumer_live {
            SendOutcome::Closed(x)
        } else if self.items.len() < self.capacity {
            self.items.push(x);
            proof {
                assert(self.model() =~= send_post(pre, x));
            }
            SendOutcome::Sent
        } else {
            SendOutcome::WouldBlock(x)
        }
    }

    /// Attempt to dequeue an item without suspending.
    pub fn try_recv(&mut self) -> (r: RecvOutcome<T>)
        requires
            old(self).wf(),
        ensures
            final(self).wf(),
            old(self).model().queue.len() > 0 ==> (r == RecvOutcome::Received(
                old(self).model().queue[0],
            ) && final(self).model() == recv_post(old(self).model())),
            (old(self).model().queue.len() == 0 && old(self).model().producers > 0) ==> (r
                is WouldBlock && final(self).model() == old(self).model()),
            (old(self).model().queue.len() == 0 && old(self).model().producers == 0) ==> (r
                is Disconnected && final(self).model() == old(self).model()),
    {
        let ghost pre = self.model();
        if self.items.len() > 0 {
            let m = self.items.remove(0);
            proof {
                assert(self.items@ =~= pre.queue.drop_first());
                assert(self.model() =~= recv_post(pre));
            }
            RecvOutcome::Received(m)
        } else if self.producers > 0 {
            RecvOutcome::WouldBlock
        } else {
            RecvOutcome::Disconnected
        }
    }

    /// Register one more producer handle (a clone of an existing one).
    pub fn add_sender(&mut self)
        requires
            old(self).wf(),
            old(self).model().producers < usize::MAX,
        ensures
            final(self).wf(),
            final(self).model() == (ChannelModel {
                producers: (old(self).model().producers + 1) as nat,
                ..old(self).model()
            }),
    {
        let ghost pre = self.model();
        self.producers = self.producers + 1;
        proof {
            assert(self.model() =~= ChannelModel { producers: (pre.producers + 1) as nat, ..pre });
        }
    }

    /// One producer handle was dropped. Dropping more handles than exist
    /// is ignored.
    pub fn drop_sender(&mut self)
        requires
            old(self).wf(),
        ensures
            final(self).wf(),
            final(self).model() == (ChannelModel {
                producers: dec_producers(old(self).model().producers),
                ..old(self).model()
            }),
    {
        let ghost pre = self.model();
        if self.producers > 0 {
            self.producers = self.producers - 1;
        }
        proof {
            assert(self.model() =~= ChannelModel { producers: dec_producers(pre.producers), ..pre });
        }
    }

    /// The consumer side goes away: every later send is refused.
    pub fn drop_receiver(&mut self)
        requires
            old(self).wf(),
        ensures
            final(self).wf(),
            final(self).model() == (ChannelModel { consumer_live: false, ..old(self).model() }),
    {
        let ghost pre = self.model();
        self.consumer_live = false;
        proof {
            assert(self.model() =~= ChannelModel { consumer_live: false, ..pre });
        }
    }

    /// How many items are queued right now.
    pub fn queued_len(&self) -> (r: usize)
        ensures
            r == self.model().queue.len(),
    {
        self.items.len()
    }

    /// How many producer handles are alive right now.
    pub fn sender_count(&self) -> (r: usize)
        ensures
            r == self.model().producers,
    {
        self.producers
    }
}

} // verus!
