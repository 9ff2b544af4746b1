use std::collections::VecDeque;
use std::sync::atomic::{AtomicUsize, Ordering};
use std::sync::{Arc, Condvar, Mutex};
use vstd::prelude::*;

use super::state::{must_wait_for_room, recv_step, Inner};
use super::sync::{exchange, lock, strong_count, wait_timeout_while, wait_while};
use super::unbounded::RECHECK_MS;

verus! {

#[verifier::reject_recursive_types(T)]
struct Shared<T> {
    inner: Mutex<Inner<T>>,
    /// Items sent and not yet returned by `recv`: the shared queue and the receiver's private
    /// buffer together. Senders add to it under the lock; the receiver takes from it without.
    nmessages: AtomicUsize,
    capacity: usize,
    send_waker: Condvar,
    recv_waker: Condvar,
}

/// A sending handle of a bounded channel. Clone it for more producers; the channel closes when
/// the last one is dropped.
#[verifier::reject_recursive_types(T)]
pub struct BoundedSender<T> {
    shared: Arc<Shared<T>>,
}

/// The one receiving handle of a bounded channel, with its private buffer.
#[verifier::reject_recursive_types(T)]
pub struct BoundedReceiver<T> {
    shared: Arc<Shared<T>>,
    buffer: VecDeque<T>,
}

impl<T> BoundedSender<T> {
    /// The capacity that the channel was made with.
    pub closed spec fn capacity(&self) -> nat {
        self.shared.capacity as nat
    }
}

impl<T> BoundedReceiver<T> {
    /// The items that this receiver holds privately and will return first, oldest first.
    pub closed spec fn buffered(&self) -> Seq<T> {
        self.buffer@
    }

    /// The capacity that the channel was made with.
    pub closed spec fn capacity(&self) -> nat {
        self.shared.capacity as nat
    }
}

/// Makes a bounded channel of `capacity`: a sender and the receiver, sharing an empty queue.
/// At most `capacity` items are in flight at once, counting those the receiver holds privately;
/// a capacity of zero makes a rendezvous channel, where each `send` hands over one item and
/// returns once the receiver has taken it.
pub fn bounded<T>(capacity: usize) -> (r: (BoundedSender<T>, BoundedReceiver<T>))
    ensures
        r.0.capacity() == capacity,
        r.1.capacity() == capacity,
        r.1.buffered() == Seq::<T>::empty(),
{
    let shared = Arc::new(
        Shared {
            inner: Mutex::new(Inner::new()),
            nmessages: AtomicUsize::new(0),
            capacity,
            send_waker: Condvar::new(),
            recv_waker: Condvar::new(),
        },
    );
    let tx = BoundedSender { shared: shared.clone() };
    (tx, BoundedReceiver { shared, buffer: VecDeque::new() })
}

impl<T> Clone for BoundedSender<T> {
    /// Another sender of the same channel; the channel stays open while it lives.
    fn clone(&self) -> (r: Self)
        ensures
            r == *self,
    {
        BoundedSender { shared: self.shared.clone() }
    }
}

impl<T> BoundedSender<T> {
    /// Whether this sender must sleep: the channel has as many items in flight as it admits.
    fn must_wait_for_room(&self) -> bool {
        must_wait_for_room(self.shared.nmessages.load(Ordering::SeqCst), self.shared.capacity)
    }

    /// Appends `v` to the shared queue once fewer items than the capacity are in flight,
    /// sleeping until the receiver frees a slot, and wakes the receiver. On a rendezvous
    /// channel it then sleeps until the receiver has taken the item.
    pub fn send(&self, v: T) {
        let ticket;
        {
            let mut guard = lock(&self.shared.inner);
            // Only this lock's holder adds to the count, so a slot seen free under it stays
            // free until the push. The receiver frees slots without the lock, and a wakeup sent
            // just before this sender sleeps is missed: so it sleeps RECHECK_MS at most before
            // it looks again. The rounds are counted only so that the loop is seen to end: after
            // 2^64 rounds with no slot the item is sent all the same, rather than lost.
            let mut rounds: u64 = u64::MAX;
            loop
                decreases rounds,
            {
                guard = wait_timeout_while(
                    &self.shared.send_waker,
                    guard,
                    RECHECK_MS,
                    |_inner: &Inner<T>| self.must_wait_for_room(),
                );
                if !self.must_wait_for_room() || rounds == 0 {
                    break;
                }
                rounds = rounds - 1;
            }
            let mut inner = exchange(&mut guard, Inner::new());
            inner.push(v);
            ticket = inner.taken;
            let _ = exchange(&mut guard, inner);
            self.shared.nmessages.fetch_add(1, Ordering::SeqCst);
        }
        self.shared.recv_waker.notify_one();
        if self.shared.capacity == 0 {
            let guard = lock(&self.shared.inner);
            let _guard = wait_while(
                &self.shared.send_waker,
                guard,
                |inner: &Inner<T>| inner.not_taken_since(ticket),
            );
        }
    }
}

impl<T> BoundedReceiver<T> {
    /// Whether a sender may still exist: every sender holds a share of the block, beside this
    /// receiver. Senders are only made by cloning senders, so once this is false it stays false.
    fn senders_remain(&self) -> bool {
        strong_count(&self.shared) > 1
    }

    /// Frees the slot of an item that is being returned, without the lock, and wakes the
    /// senders that wait for a slot. A sender that tests the count just before this and then
    /// sleeps misses this wakeup: it looks again after RECHECK_MS, and `recv` wakes the senders
    /// under the lock before it ever sleeps.
    fn release_slot(&self) {
        self.shared.nmessages.fetch_sub(1, Ordering::SeqCst);
        self.shared.send_waker.notify_all();
    }

    /// Returns the next item, waiting while the channel is empty and a sender remains; `None`
    /// once it is empty and every sender is gone. Items held in the private buffer come first;
    /// otherwise the oldest queued item is returned and the items queued behind it move to the
    /// buffer in the same critical section. Every item returned frees a slot for the senders.
    /// A waiting call looks every RECHECK_MS whether all senders are gone; it gives up and
    /// returns `None` only after 2^64 such rounds.
    pub fn recv(&mut self) -> (r: Option<T>)
        ensures
            old(self).buffered().len() > 0 ==> (r, final(self).buffered()) == (
                recv_step(old(self).buffered(), Seq::<T>::empty()).0,
                recv_step(old(self).buffered(), Seq::<T>::empty()).1,
            ),
            r is None ==> final(self).buffered() == Seq::<T>::empty(),
    {
        let head = self.buffer.pop_front();
        if head.is_some() {
            self.release_slot();
            return head;
        }
        // Rounds of RECHECK_MS each: the count bounds the wait at millions of millennia, and
        // so shows that the loop ends.
        let mut guard = lock(&self.shared.inner);
        let mut rounds: u64 = u64::MAX;
        loop
            invariant
                self.buffer@.len() == 0,
                old(self).buffer@.len() == 0,
            decreases rounds,
        {
            // Under the lock no sender stands between testing the count and sleeping.
            self.shared.send_waker.notify_all();
            guard = wait_timeout_while(
                &self.shared.recv_waker,
                guard,
                RECHECK_MS,
                |inner: &Inner<T>| inner.receiver_must_wait(self.senders_remain()),
            );
            let mut inner = exchange(&mut guard, Inner::new());
            let open = self.senders_remain();
            let outcome = inner.receive(&mut self.buffer, open);
            if let Some(item) = outcome {
                if item.is_some() {
                    inner.note_taken();
                }
                let _ = exchange(&mut guard, inner);
                if item.is_some() {
                    self.release_slot();
                }
                return item;
            }
            let _ = exchange(&mut guard, inner);
            if rounds == 0 {
                return None;
            }
            rounds = rounds - 1;
        }
    }
}

} // verus!
