//! Tests of the ring transport: order, capacity, teardown.

use std::cell::Cell;
use std::rc::Rc;

use evering::queue::Queue as PlainQueue;
use evering::uring::{check_pow2, Receiver, Sender, Uring, UringBuilder};

fn ring_of<S, R>(size: usize) -> (
    Sender<S, R>,
    Receiver<S, R>,
    evering::uring::RawUring<S, R, ()>,
) {
    let mut b = UringBuilder::new(());
    b.sqsize(size);
    b.rqsize(size);
    b.build()
}

#[test]
fn fifo_order() {
    // Capacity 4 both directions: three sends arrive in order, the
    // fourth is refused and hands "D" back unchanged.
    let (mut side1, mut side2, mut raw) = ring_of::<&str, &str>(4);
    assert_eq!(side1.send(&mut raw, "A"), Ok(()));
    assert_eq!(side1.send(&mut raw, "B"), Ok(()));
    assert_eq!(side1.send(&mut raw, "C"), Ok(()));
    assert_eq!(side1.send(&mut raw, "D"), Err("D"));
    assert_eq!(side2.recv(&mut raw), Some("A"));
    assert_eq!(side2.recv(&mut raw), Some("B"));
    assert_eq!(side2.recv(&mut raw), Some("C"));
    assert_eq!(side2.recv(&mut raw), None);
    side1.close(&mut raw);
    side2.close(&mut raw);
}

#[test]
fn fifo_order_wraps_around() {
    let (mut a, mut b, mut raw) = ring_of::<u32, u32>(4);
    for round in 0u32..10 {
        assert_eq!(a.send(&mut raw, round), Ok(()));
        assert_eq!(a.send(&mut raw, 100 + round), Ok(()));
        assert_eq!(b.recv(&mut raw), Some(round));
        assert_eq!(b.recv(&mut raw), Some(100 + round));
    }
    assert_eq!(b.recv(&mut raw), None);
    a.close(&mut raw);
    b.close(&mut raw);
}

#[test]
fn capacity_minus_one_pending() {
    // For power-of-two capacities, at most C - 1 entries may be
    // pending; the C-th send fails with the value unchanged.
    for cap in [2usize, 4, 8, 32] {
        let (mut a, mut b, mut raw) = ring_of::<usize, usize>(cap);
        for i in 0..cap - 1 {
            assert_eq!(a.send(&mut raw, i), Ok(()));
        }
        assert_eq!(a.send(&mut raw, 999), Err(999));
        for i in 0..cap - 1 {
            assert_eq!(b.recv(&mut raw), Some(i));
        }
        a.close(&mut raw);
        b.close(&mut raw);
    }
}

#[test]
fn both_directions_are_independent() {
    let (mut a, mut b, mut raw) = ring_of::<&str, u32>(4);
    assert_eq!(a.send(&mut raw, "req"), Ok(()));
    assert_eq!(b.send(&mut raw, 7), Ok(()));
    assert_eq!(b.recv(&mut raw), Some("req"));
    assert_eq!(a.recv(&mut raw), Some(7));
    a.close(&mut raw);
    b.close(&mut raw);
}

#[test]
fn extension_payload_is_shared() {
    let mut builder = UringBuilder::<u8, u8, u32>::new(90);
    builder.sqsize(4);
    builder.rqsize(4);
    let (a, b, mut raw) = builder.build();
    assert_eq!(*a.ext(&raw), 90);
    assert_eq!(*b.ext(&raw), 90);
    assert_eq!(*raw.ext(), 90);
    a.close(&mut raw);
    // The second endpoint dissolves without closing; the region value
    // owns whatever was pending.
    b.into_raw();
}

#[test]
fn default_capacity_is_32() {
    let (mut a, _b, mut raw) = UringBuilder::<usize, usize, ()>::new(()).build();
    for i in 0..31 {
        assert_eq!(a.send(&mut raw, i), Ok(()));
    }
    assert_eq!(a.send(&mut raw, 31), Err(31));
}

struct DropCounter {
    counter: Rc<Cell<usize>>,
}

impl Drop for DropCounter {
    fn drop(&mut self) {
        self.counter.set(self.counter.get() + 1);
    }
}

#[test]
fn teardown_drains_pending_entries_once() {
    // Closing both endpoints destroys every pending entry exactly
    // once, in either close order, with entries pending in both
    // directions.
    for close_sender_first in [true, false] {
        let drops: Rc<Cell<usize>> = Rc::new(Cell::new(0));
        let (mut a, mut b, mut raw) = ring_of::<DropCounter, DropCounter>(8);
        for _ in 0..3 {
            a.send(&mut raw, DropCounter { counter: drops.clone() }).ok().unwrap();
        }
        for _ in 0..2 {
            b.send(&mut raw, DropCounter { counter: drops.clone() }).ok().unwrap();
        }
        // One entry moves across and is consumed by its receiver.
        drop(b.recv(&mut raw).unwrap());
        assert_eq!(drops.get(), 1);
        if close_sender_first {
            a.close(&mut raw);
            assert_eq!(drops.get(), 1);
            b.close(&mut raw);
        } else {
            b.close(&mut raw);
            assert_eq!(drops.get(), 1);
            a.close(&mut raw);
        }
        // The second close destroyed the two still pending in one
        // direction and the two in the other, each exactly once.
        assert_eq!(drops.get(), 5);
        drop(raw);
        assert_eq!(drops.get(), 5);
    }
}

#[test]
fn plain_queue_is_fifo() {
    let mut q: PlainQueue<u32> = PlainQueue::new(3);
    assert_eq!(q.dequeue(), None);
    q.enqueue(1);
    q.enqueue(2);
    q.enqueue(3);
    assert_eq!(q.dequeue(), Some(1));
    q.enqueue(4);
    assert_eq!(q.dequeue(), Some(2));
    assert_eq!(q.dequeue(), Some(3));
    assert_eq!(q.dequeue(), Some(4));
    assert_eq!(q.dequeue(), None);
}

#[test]
fn power_of_two_check() {
    assert!(check_pow2(1));
    assert!(check_pow2(2));
    assert!(check_pow2(32));
    assert!(check_pow2(1024));
    assert!(!check_pow2(0));
    assert!(!check_pow2(3));
    assert!(!check_pow2(12));
}
