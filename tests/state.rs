use chanlib::channel::state::{must_wait_for_room, Inner};
use std::collections::VecDeque;

#[test]
fn take_batch_moves_the_rest_into_the_buffer() {
    let mut inner = Inner::new();
    for i in 1..=5 {
        inner.push(i);
    }
    let mut buffer = VecDeque::new();
    assert_eq!(inner.take_batch(&mut buffer), Some(1));
    assert_eq!(buffer, VecDeque::from(vec![2, 3, 4, 5]));
    assert!(inner.queue.is_empty());
}

#[test]
fn take_batch_with_one_item_leaves_buffer_empty() {
    let mut inner = Inner::new();
    inner.push(7);
    let mut buffer = VecDeque::new();
    assert_eq!(inner.take_batch(&mut buffer), Some(7));
    assert!(buffer.is_empty());
    assert!(inner.queue.is_empty());
    assert_eq!(inner.take_batch(&mut buffer), None);
}

#[test]
fn receiver_waits_only_while_empty_and_open() {
    let mut inner = Inner::new();
    assert!(inner.receiver_must_wait(true));
    assert!(!inner.receiver_must_wait(false));
    inner.push(1);
    assert!(!inner.receiver_must_wait(true));
}

#[test]
fn senders_wait_at_capacity() {
    assert!(!must_wait_for_room(0, 2));
    assert!(!must_wait_for_room(1, 2));
    assert!(must_wait_for_room(2, 2));
    assert!(must_wait_for_room(3, 2));
}

#[test]
fn rendezvous_admits_one_item_and_waits_for_its_taking() {
    assert!(!must_wait_for_room(0, 0));
    assert!(must_wait_for_room(1, 0));
    let mut inner: Inner<u8> = Inner::new();
    inner.push(5);
    let ticket = inner.taken;
    assert!(inner.not_taken_since(ticket));
    let mut buffer = VecDeque::new();
    assert_eq!(inner.take_batch(&mut buffer), Some(5));
    inner.note_taken();
    assert!(!inner.not_taken_since(ticket));
}

#[test]
fn taken_count_wraps() {
    let mut inner: Inner<u8> = Inner::new();
    inner.taken = u64::MAX;
    inner.note_taken();
    assert_eq!(inner.taken, 0);
}

#[test]
fn receive_decides_item_end_or_wait() {
    let mut inner: Inner<i32> = Inner::new();
    let mut buffer = VecDeque::new();
    assert_eq!(inner.receive(&mut buffer, true), None);
    assert_eq!(inner.receive(&mut buffer, false), Some(None));
    inner.push(3);
    inner.push(4);
    assert_eq!(inner.receive(&mut buffer, false), Some(Some(3)));
    assert_eq!(buffer, VecDeque::from(vec![4]));
    assert!(inner.queue.is_empty());
    let mut empty = VecDeque::new();
    assert_eq!(inner.receive(&mut empty, false), Some(None));
    assert_eq!(inner.receive(&mut empty, false), Some(None));
}
