use chanlib::{bounded, unbounded, BoundedReceiver, UnboundedReceiver};

fn drain_bounded(rx: &mut BoundedReceiver<i32>) -> Vec<i32> {
    let mut out = Vec::new();
    while let Some(x) = rx.recv() {
        out.push(x);
    }
    out
}

fn drain_unbounded(rx: &mut UnboundedReceiver<i32>) -> Vec<i32> {
    let mut out = Vec::new();
    while let Some(x) = rx.recv() {
        out.push(x);
    }
    out
}

#[test]
fn bounded_ping_pong() {
    let (tx, mut rx) = bounded(1);
    tx.send(66);
    assert_eq!(rx.recv(), Some(66));
}

#[test]
fn bounded_close_tx() {
    let (tx, mut rx) = bounded::<()>(1);
    drop(tx);
    assert_eq!(rx.recv(), None);
}

#[test]
fn unbounded_ping_pong() {
    let (tx, mut rx) = unbounded();
    tx.send(66);
    assert_eq!(rx.recv(), Some(66));
}

#[test]
fn unbounded_close_tx() {
    let (tx, mut rx) = unbounded::<()>();
    drop(tx);
    assert_eq!(rx.recv(), None);
}

#[test]
fn bounded_iter() {
    let (tx, mut rx) = bounded(3);
    for i in 0..3 {
        let tx = tx.clone();
        tx.send(i);
    }
    drop(tx);
    assert_eq!(drain_bounded(&mut rx), vec![0, 1, 2]);
}

#[test]
fn unbounded_iter() {
    let (tx, mut rx) = unbounded();
    for i in 0..10 {
        tx.send(i);
    }
    drop(tx);
    assert_eq!(drain_unbounded(&mut rx), (0..10).collect::<Vec<i32>>());
}

#[test]
fn fifo_single_producer_both_kinds() {
    let (tx, mut rx) = unbounded();
    let (btx, mut brx) = bounded(8);
    for v in [5, -3, 5, 0, 42, 7, 7, 1] {
        tx.send(v);
        btx.send(v);
    }
    drop(tx);
    drop(btx);
    assert_eq!(drain_unbounded(&mut rx), vec![5, -3, 5, 0, 42, 7, 7, 1]);
    assert_eq!(drain_bounded(&mut brx), vec![5, -3, 5, 0, 42, 7, 7, 1]);
}

#[test]
fn closed_channel_stays_closed_after_draining() {
    let (tx, mut rx) = bounded(2);
    tx.send(1);
    tx.send(2);
    drop(tx);
    assert_eq!(rx.recv(), Some(1));
    assert_eq!(rx.recv(), Some(2));
    assert_eq!(rx.recv(), None);
    assert_eq!(rx.recv(), None);
    assert_eq!(rx.recv(), None);
}

#[test]
fn closing_needs_every_clone_gone() {
    let (tx, mut rx) = unbounded();
    let tx2 = tx.clone();
    drop(tx);
    tx2.send(9);
    assert_eq!(rx.recv(), Some(9));
    let tx3 = tx2.clone();
    drop(tx2);
    tx3.send(10);
    assert_eq!(rx.recv(), Some(10));
    drop(tx3);
    assert_eq!(rx.recv(), None);
}

#[test]
fn bounded_slots_free_as_items_are_returned() {
    let (tx, mut rx) = bounded(2);
    tx.send(0);
    tx.send(1);
    assert_eq!(rx.recv(), Some(0));
    tx.send(2);
    assert_eq!(rx.recv(), Some(1));
    tx.send(3);
    assert_eq!(rx.recv(), Some(2));
    assert_eq!(rx.recv(), Some(3));
    drop(tx);
    assert_eq!(rx.recv(), None);
}

#[test]
fn unbounded_send_never_waits() {
    let (tx, mut rx) = unbounded();
    for i in 0..10_000 {
        tx.send(i);
    }
    drop(tx);
    assert_eq!(drain_unbounded(&mut rx), (0..10_000).collect::<Vec<i32>>());
}

#[test]
fn scenario_create_bounded_send_recv() {
    let (tx, mut rx) = bounded(1);
    tx.send(66);
    assert_eq!(rx.recv(), Some(66));
}

#[test]
fn scenario_drop_senders_then_recv() {
    let (tx, mut rx) = bounded::<i32>(1);
    drop(tx);
    assert_eq!(rx.recv(), None);
}

#[test]
fn scenario_three_producers_unbounded() {
    let (tx, mut rx) = unbounded();
    let producers = vec![tx.clone(), tx.clone(), tx.clone()];
    drop(tx);
    for (i, p) in producers.into_iter().enumerate() {
        p.send(i as i32);
    }
    let mut got = drain_unbounded(&mut rx);
    got.sort();
    assert_eq!(got, vec![0, 1, 2]);
    assert_eq!(rx.recv(), None);
}

#[test]
fn scenario_buffer_swap_keeps_order() {
    let (tx, mut rx) = unbounded();
    for i in 1..=5 {
        tx.send(i);
    }
    assert_eq!(rx.recv(), Some(1));
    // Items 2 to 5 now sit in the receiver's private buffer, ahead of anything sent later.
    tx.send(6);
    for i in 2..=6 {
        assert_eq!(rx.recv(), Some(i));
    }
    let (btx, mut brx) = bounded(5);
    for i in 1..=5 {
        btx.send(i);
    }
    drop(btx);
    assert_eq!(drain_bounded(&mut brx), vec![1, 2, 3, 4, 5]);
}
