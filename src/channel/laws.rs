//! What holds of a channel over many steps, stated over the model that the steps' contracts
//! use: `pending` items, `recv_step`, and the slot count of bounded channels.
use vstd::prelude::*;

use super::state::{admits, next_taken, pending, recv_step, slot_limit};

verus! {

/// The shared queue after `vs` are sent one by one, in order, onto `queue`.
pub open spec fn sends<T>(queue: Seq<T>, vs: Seq<T>) -> Seq<T>
    decreases vs.len(),
{
    if vs.len() == 0 {
        queue
    } else {
        sends(queue, vs.drop_last()).push(vs.last())
    }
}

/// The items that `n` receives return in turn, starting from `buffer` and `queue`, up to the
/// first receive that finds nothing.
pub open spec fn drain<T>(buffer: Seq<T>, queue: Seq<T>, n: nat) -> Seq<T>
    decreases n,
{
    if n == 0 {
        Seq::empty()
    } else {
        let (r, b, q) = recv_step(buffer, queue);
        match r {
            Some(x) => seq![x] + drain(b, q, (n - 1) as nat),
            None => Seq::empty(),
        }
    }
}

/// Sending appends at the back of what is pending.
pub proof fn lemma_sends_append<T>(queue: Seq<T>, vs: Seq<T>)
    ensures
        sends(queue, vs) == queue + vs,
    decreases vs.len(),
{
    if vs.len() > 0 {
        lemma_sends_append(queue, vs.drop_last());
        assert(queue + vs =~= (queue + vs.drop_last()).push(vs.last()));
    }
}

/// One receive returns the oldest pending item and leaves the rest pending, in order; with
/// nothing pending it returns nothing and changes nothing.
pub proof fn lemma_recv_step_pending<T>(buffer: Seq<T>, queue: Seq<T>)
    ensures
        pending(buffer, queue).len() > 0 ==> {
            &&& recv_step(buffer, queue).0 == Some(pending(buffer, queue)[0])
            &&& pending(recv_step(buffer, queue).1, recv_step(buffer, queue).2) == pending(
                buffer,
                queue,
            ).drop_first()
        },
        pending(buffer, queue).len() == 0 ==> recv_step(buffer, queue) == (
            None::<T>,
            buffer,
            queue,
        ),
{
    if buffer.len() > 0 {
        assert(pending(buffer.drop_first(), queue) =~= pending(buffer, queue).drop_first());
    } else if queue.len() > 0 {
        assert(buffer =~= Seq::<T>::empty());
        assert(pending(queue.drop_first(), Seq::<T>::empty()) =~= pending(
            buffer,
            queue,
        ).drop_first());
    }
}

/// Receives return the pending items in the order they became pending: the first `n` of them
/// for `n` receives, and after the last of them nothing more.
pub proof fn lemma_drain_in_order<T>(buffer: Seq<T>, queue: Seq<T>, n: nat)
    ensures
        n <= pending(buffer, queue).len() ==> drain(buffer, queue, n) == pending(
            buffer,
            queue,
        ).take(n as int),
        n >= pending(buffer, queue).len() ==> drain(buffer, queue, n) == pending(buffer, queue),
    decreases n,
{
    lemma_recv_step_pending(buffer, queue);
    if n > 0 && pending(buffer, queue).len() > 0 {
        let (r, b, q) = recv_step(buffer, queue);
        lemma_drain_in_order(b, q, (n - 1) as nat);
        let p = pending(buffer, queue);
        if n <= p.len() {
            assert(p.drop_first().take(n - 1) =~= p.take(n as int).drop_first());
            assert(seq![p[0]] + p.take(n as int).drop_first() =~= p.take(n as int));
        }
        if n >= p.len() {
            assert(seq![p[0]] + p.drop_first() =~= p);
        }
    } else if n > 0 {
        assert(pending(buffer, queue) =~= Seq::<T>::empty());
    } else {
        assert(pending(buffer, queue).take(0) =~= Seq::<T>::empty());
    }
}

/// First in, first out: the items `vs` that one producer sends, in that order, into an empty
/// channel come out of as many receives in that same order.
pub proof fn lemma_fifo<T>(vs: Seq<T>)
    ensures
        drain(Seq::<T>::empty(), sends(Seq::<T>::empty(), vs), vs.len()) == vs,
{
    lemma_sends_append(Seq::<T>::empty(), vs);
    assert(Seq::<T>::empty() + vs =~= vs);
    assert(pending(Seq::<T>::empty(), vs) =~= vs);
    lemma_drain_in_order(Seq::<T>::empty(), vs, vs.len());
    assert(vs.take(vs.len() as int) =~= vs);
}

/// Once every sender is gone nothing more is sent, so whatever was pending still comes out,
/// all of it and in order, and every receive after it finds nothing, for good.
pub proof fn lemma_closed_drains<T>(buffer: Seq<T>, queue: Seq<T>, extra: nat)
    ensures
        drain(buffer, queue, pending(buffer, queue).len() + extra) == pending(buffer, queue),
{
    lemma_drain_in_order(buffer, queue, pending(buffer, queue).len() + extra);
}

/// Backpressure: a sender appends only while fewer items than the limit are in flight, so the
/// count never passes the limit, and the limit is the capacity itself for any capacity above
/// zero.
pub proof fn lemma_backpressure(in_flight: nat, capacity: nat)
    ensures
        admits(in_flight, capacity) ==> in_flight + 1 <= slot_limit(capacity),
        !admits(in_flight, capacity) ==> in_flight >= slot_limit(capacity),
        capacity > 0 ==> slot_limit(capacity) == capacity,
{
}

/// Rendezvous: on a channel of capacity zero a sender may append only while nothing is in
/// flight, so one item at a time is handed over; and the receiver's count of taken items moves
/// on every take, which is what the sender that handed it over waits for.
pub proof fn lemma_rendezvous(in_flight: nat, taken: u64)
    ensures
        admits(in_flight, 0) <==> in_flight == 0,
        next_taken(taken) != taken,
{
}

} // verus!
