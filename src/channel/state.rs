//! The state that all handles of one channel share, and the steps taken on it while its lock
//! is held.
use std::collections::VecDeque;
use vstd::prelude::*;

verus! {

/// What the lock of a channel guards.
pub struct Inner<T> {
    /// Items sent and not yet moved to the receiver, oldest first.
    pub queue: VecDeque<T>,
    /// How many items the receiver has taken from the shared queue, wrapping. A sender on a rendezvous channel
    /// waits for it to move.
    pub taken: u64,
}

/// The items a receiver will return next, in order: its private buffer, then the shared queue.
pub open spec fn pending<T>(buffer: Seq<T>, queue: Seq<T>) -> Seq<T> {
    buffer + queue
}

/// One receive on a receiver whose private buffer is `buffer` while `queue` is shared, taken
/// without waiting: the item returned, then the new buffer and the new shared queue. The buffer
/// serves first; an empty buffer takes the head of the queue and everything queued behind it.
pub open spec fn recv_step<T>(buffer: Seq<T>, queue: Seq<T>) -> (Option<T>, Seq<T>, Seq<T>) {
    if buffer.len() > 0 {
        (Some(buffer[0]), buffer.drop_first(), queue)
    } else if queue.len() > 0 {
        (Some(queue[0]), queue.drop_first(), Seq::empty())
    } else {
        (None, buffer, queue)
    }
}

/// What the receiver reads on `taken` after one more item is taken: the count wraps.
pub open spec fn next_taken(taken: u64) -> u64 {
    ((taken + 1) % 0x1_0000_0000_0000_0000) as u64
}

/// Whether a sender on a bounded channel of `capacity` may append now, with `in_flight` items
/// in flight.
pub open spec fn admits(in_flight: nat, capacity: nat) -> bool {
    in_flight < slot_limit(capacity)
}

/// The most items a bounded channel of `capacity` holds in flight. A capacity of zero still
/// lets one item through at a time, handed over directly.
pub open spec fn slot_limit(capacity: nat) -> nat {
    if capacity == 0 { 1 } else { capacity }
}

/// Whether a sender on a bounded channel of `capacity` must sleep before it sends, with
/// `in_flight` items sent and not yet returned by the receiver.
pub fn must_wait_for_room(in_flight: usize, capacity: usize) -> (r: bool)
    ensures
        r == !admits(in_flight as nat, capacity as nat),
{
    if capacity == 0 {
        in_flight >= 1
    } else {
        in_flight >= capacity
    }
}

impl<T> Inner<T> {
    /// The state of a fresh channel: nothing queued or taken.
    pub fn new() -> (r: Self)
        ensures
            r.queue@ == Seq::<T>::empty(),
            r.taken == 0,
    {
        Inner { queue: VecDeque::new(), taken: 0 }
    }

    /// Appends an item behind every item already queued.
    pub fn push(&mut self, v: T)
        ensures
            final(self).queue@ == old(self).queue@.push(v),
            final(self).taken == old(self).taken,
    {
        self.queue.push_back(v);
    }

    /// Whether a receiver must sleep: nothing queued, and senders remain that may still send.
    pub fn receiver_must_wait(&self, senders_remain: bool) -> (r: bool)
        ensures
            r == (self.queue@.len() == 0 && senders_remain),
    {
        self.queue.len() == 0 && senders_remain
    }

    /// Whether the receiver has taken nothing since it had taken `ticket` items.
    pub fn not_taken_since(&self, ticket: u64) -> (r: bool)
        ensures
            r == (self.taken == ticket),
    {
        self.taken == ticket
    }

    /// Records that the receiver has taken one item from the shared queue.
    pub fn note_taken(&mut self)
        ensures
            final(self).taken == next_taken(old(self).taken),
            final(self).queue@ == old(self).queue@,
    {
        self.taken = self.taken.wrapping_add(1);
    }

    /// One receive under the lock, for a receiver whose private buffer is empty: the oldest
    /// queued item, with the items behind it moved to the buffer; or `Some(None)`, the end of
    /// the channel, when nothing is queued and no sender remains; or `None` when the receiver
    /// must wait, and then nothing changes.
    pub fn receive(&mut self, buffer: &mut VecDeque<T>, senders_remain: bool) -> (r: Option<
        Option<T>,
    >)
        requires
            old(buffer)@.len() == 0,
        ensures
            r is None <==> (old(self).queue@.len() == 0 && senders_remain),
            r == Some(None::<T>) <==> (old(self).queue@.len() == 0 && !senders_remain),
            r is Some ==> (r->0, final(buffer)@, final(self).queue@) == recv_step(
                old(buffer)@,
                old(self).queue@,
            ),
            r is None ==> final(buffer)@ == old(buffer)@ && final(self).queue@ == old(
                self,
            ).queue@,
            final(self).taken == old(self).taken,
    {
        if self.receiver_must_wait(senders_remain) {
            None
        } else {
            Some(self.take_batch(buffer))
        }
    }

    /// Takes the oldest queued item for an empty receiver buffer, and moves every item queued
    /// behind it into that buffer at once, so that they can be returned without the lock.
    pub fn take_batch(&mut self, buffer: &mut VecDeque<T>) -> (r: Option<T>)
        requires
            old(buffer)@.len() == 0,
        ensures
            (r, final(buffer)@, final(self).queue@) == recv_step(old(buffer)@, old(self).queue@),
            match r {
                Some(x) => {
                    &&& old(self).queue@.len() > 0
                    &&& x == old(self).queue@[0]
                    &&& final(buffer)@ == old(self).queue@.drop_first()
                    &&& final(self).queue@ == Seq::<T>::empty()
                },
                None => {
                    &&& old(self).queue@.len() == 0
                    &&& final(buffer)@ == old(buffer)@
                    &&& final(self).queue@ == old(self).queue@
                },
            },
            final(self).taken == old(self).taken,
    {
        let head = self.queue.pop_front();
        if head.is_some() && self.queue.len() > 0 {
            std::mem::swap(buffer, &mut self.queue);
        }
        proof {
            if head.is_none() {
                assert(old(self).queue@ =~= Seq::<T>::empty());
            }
        }
        head
    }
}

} // verus!
