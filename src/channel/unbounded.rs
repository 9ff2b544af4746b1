use std::collections::VecDeque;
use std::sync::{Arc, Condvar, Mutex};
use vstd::prelude::*;

use super::state::{recv_step, Inner};
use super::sync::{exchange, lock, strong_count, wait_timeout_while};

verus! {

/// How long a waiting receiver sleeps before it looks again whether every sender is gone.
pub const RECHECK_MS: u64 = 10;

#[verifier::reject_recursive_types(T)]
struct Shared<T> {
    inner: Mutex<Inner<T>>,
    available: Condvar,
}

/// A sending handle of an unbounded channel. Clone it for more producers; the channel closes
/// when the last one is dropped.
#[verifier::reject_recursive_types(T)]
pub struct UnboundedSender<T> {
    shared: Arc<Shared<T>>,
}

/// The one receiving handle of an unbounded channel, with its private buffer.
#[verifier::reject_recursive_types(T)]
pub struct UnboundedReceiver<T> {
    shared: Arc<Shared<T>>,
    buffer: VecDeque<T>,
}

impl<T> UnboundedReceiver<T> {
    /// The items that this receiver holds privately and will return first, oldest first.
    pub closed spec fn buffered(&self) -> Seq<T> {
        self.buffer@
    }
}

/// Makes an unbounded channel: a sender and the receiver, sharing an empty queue.
pub fn unbounded<T>() -> (r: (UnboundedSender<T>, UnboundedReceiver<T>))
    ensures
        r.1.buffered() == Seq::<T>::empty(),
{
    let shared = Arc::new(Shared { inner: Mutex::new(Inner::new()), available: Condvar::new() });
    let tx = UnboundedSender { shared: shared.clone() };
    (tx, UnboundedReceiver { shared, buffer: VecDeque::new() })
}

impl<T> Clone for UnboundedSender<T> {
    /// Another sender of the same channel; the channel stays open while it lives.
    fn clone(&self) -> (r: Self)
        ensures
            r == *self,
    {
        UnboundedSender { shared: self.shared.clone() }
    }
}

impl<T> UnboundedSender<T> {
    /// Appends `t` to the shared queue, behind every item already there, and wakes the
    /// receiver. Never waits for space.
    pub fn send(&self, t: T) {
        {
            let mut guard = lock(&self.shared.inner);
            let mut inner = exchange(&mut guard, Inner::new());
            inner.push(t);
            let _ = exchange(&mut guard, inner);
        }
        self.shared.available.notify_one();
    }
}

impl<T> UnboundedReceiver<T> {
    /// Whether a sender may still exist: every sender holds a share of the block, beside this
    /// receiver. Senders are only made by cloning senders, so once this is false it stays false.
    fn senders_remain(&self) -> bool {
        strong_count(&self.shared) > 1
    }

    /// Returns the next item, waiting while the channel is empty and a sender remains; `None`
    /// once it is empty and every sender is gone. Items held in the private buffer come first
    /// and need no lock; otherwise the oldest queued item is returned and the items queued
    /// behind it move to the buffer in the same critical section. A waiting call looks every
    /// RECHECK_MS whether all senders are gone; it gives up and returns `None` only after 2^64
    /// such rounds.
    pub fn recv(&mut self) -> (r: Option<T>)
        ensures
            old(self).buffered().len() > 0 ==> (r, final(self).buffered()) == (
                recv_step(old(self).buffered(), Seq::<T>::empty()).0,
                recv_step(old(self).buffered(), Seq::<T>::empty()).1,
            ),
            r is None ==> final(self).buffered() == Seq::<T>::empty(),
    {
        let head = self.buffer.pop_front();
        if head.is_some() {
            return head;
        }
        // Rounds of RECHECK_MS each: the count bounds the wait at millions of millennia, and
        // so shows that the loop ends.
        let mut guard = lock(&self.shared.inner);
        let mut rounds: u64 = u64::MAX;
        loop
            invariant
                self.buffer@.len() == 0,
                old(self).buffer@.len() == 0,
            decreases rounds,
        {
            guard = wait_timeout_while(
                &self.shared.available,
                guard,
                RECHECK_MS,
                |inner: &Inner<T>| inner.receiver_must_wait(self.senders_remain()),
            );
            let mut inner = exchange(&mut guard, Inner::new());
            let open = self.senders_remain();
            let outcome = inner.receive(&mut self.buffer, open);
            let _ = exchange(&mut guard, inner);
            if let Some(item) = outcome {
                return item;
            }
            if rounds == 0 {
                return None;
            }
            rounds = rounds - 1;
        }
    }
}

} // verus!
