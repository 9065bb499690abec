use concurrency::channels::{channels, dequeue_oldest, enqueue};
use std::collections::VecDeque;

#[test]
fn channel_delivers_in_sending_order() {
    let (tx, rx) = channels(4);
    for j in 0..4usize {
        tx.send((0usize, j));
    }
    for j in 0..4usize {
        assert_eq!(rx.recv(), (0, j));
    }
}

#[test]
fn cloned_senders_share_the_channel() {
    let (tx, rx) = channels::<u32>(2);
    let tx2 = tx.clone();
    tx.send(1);
    tx2.send(2);
    assert_eq!(rx.recv(), 1);
    assert_eq!(rx.recv(), 2);
    tx2.send(3);
    assert_eq!(rx.recv(), 3);
}

#[test]
fn channel_reuses_its_slots() {
    let (tx, rx) = channels::<String>(1);
    for i in 0..100 {
        tx.send(format!("n{i}"));
        assert_eq!(rx.recv(), format!("n{i}"));
    }
}

#[test]
fn buffer_steps_are_first_in_first_out() {
    let mut q: VecDeque<u8> = VecDeque::new();
    enqueue(&mut q, 1);
    enqueue(&mut q, 2);
    assert_eq!(dequeue_oldest(&mut q), 1);
    enqueue(&mut q, 3);
    assert_eq!(dequeue_oldest(&mut q), 2);
    assert_eq!(dequeue_oldest(&mut q), 3);
    assert!(q.is_empty());
}
