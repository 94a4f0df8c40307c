//! A standalone bounded first-in/first-out queue.
//!
//! The queue owns a fixed-size slot array chosen at construction and keeps
//! its pending entries in arrival order. It is the single-owner counterpart
//! of the two-endpoint ring in [`crate::uring`].

use vstd::prelude::*;

verus! {

/// A bounded FIFO queue over a fixed-size slot array.
pub struct Queue<T> {
    buf: Vec<Option<T>>,
    head: usize,
    len: usize,
}

impl<T> Queue<T> {
    /// Index of the `i`-th pending entry inside the slot array.
    spec fn slot_of(&self, i: int) -> int {
        if self.head + i < self.buf@.len() {
            self.head + i
        } else {
            self.head + i - self.buf@.len()
        }
    }

    /// The number of slots this queue was constructed with.
    pub closed spec fn capacity(&self) -> int {
        self.buf@.len() as int
    }

    /// Well-formed: indices in range, and exactly the pending slots are
    /// occupied.
    pub closed spec fn wf(&self) -> bool {
        &&& 0 < self.buf@.len()
        &&& self.head < self.buf@.len()
        &&& self.len <= self.buf@.len()
        &&& forall|i: int|
            0 <= i < self.len ==> (#[trigger] self.buf@[self.slot_of(i)]) is Some
        &&& forall|j: int|
            0 <= j < self.buf@.len() && !self.is_pending_slot(j)
                ==> (#[trigger] self.buf@[j]) is None
    }

    /// Whether slot `j` holds one of the pending entries.
    spec fn is_pending_slot(&self, j: int) -> bool {
        exists|i: int| 0 <= i < self.len && #[trigger] self.slot_of(i) == j
    }

    /// Creates an empty queue with room for `capacity` entries.
    pub fn new(capacity: usize) -> (q: Queue<T>)
        requires
            capacity > 0,
        ensures
            q.wf(),
            q@ =~= Seq::<T>::empty(),
            q.capacity() == capacity,
    {
        let mut buf: Vec<Option<T>> = Vec::new();
        let mut i: usize = 0;
        while i < capacity
            invariant
                i <= capacity,
                buf@.len() == i,
                forall|j: int| 0 <= j < i ==> (#[trigger] buf@[j]) is None,
            decreases capacity - i,
        {
            buf.push(None);
            i = i + 1;
        }
        Queue { buf, head: 0, len: 0 }
    }

    /// Appends `item` at the back of the queue.
    pub fn enqueue(&mut self, item: T)
        requires
            old(self).wf(),
            old(self)@.len() < old(self).capacity(),
        ensures
            final(self).wf(),
            final(self)@ =~= old(self)@.push(item),
            final(self).capacity() == old(self).capacity(),
    {
        let cap = self.buf.len();
        let gap = cap - self.head;
        let idx = if self.len >= gap {
            self.len - gap
        } else {
            self.head + self.len
        };
        proof {
            assert(self.slot_of(self.len as int) == idx);
            assert(!self.is_pending_slot(idx as int));
        }
        self.buf[idx] = Some(item);
        self.len = self.len + 1;
        proof {
            assert forall|i: int| 0 <= i < self.len implies
                (#[trigger] self.buf@[self.slot_of(i)]) is Some
            by {
                if i < self.len - 1 {
                    assert(old(self).buf@[old(self).slot_of(i)] is Some);
                    assert(old(self).slot_of(i) != idx);
                }
            }
            assert forall|j: int|
                0 <= j < self.buf@.len() && !self.is_pending_slot(j) implies
                (#[trigger] self.buf@[j]) is None
            by {
                assert(self.slot_of(self.len - 1) == idx);
                if j != idx {
                    if old(self).is_pending_slot(j) {
                        let i = choose|i: int|
                            0 <= i < old(self).len && #[trigger] old(self).slot_of(i) == j;
                        assert(self.slot_of(i) == j);
                    }
                }
            }
            assert forall|i: int| 0 <= i < self@.len() implies
                self@[i] == old(self)@.push(item)[i]
            by {
                if i < self.len - 1 {
                    assert(old(self).slot_of(i) != idx);
                }
            }
        }
    }

    /// Removes and returns the oldest pending entry, if any.
    pub fn dequeue(&mut self) -> (r: Option<T>)
        requires
            old(self).wf(),
        ensures
            final(self).wf(),
            final(self).capacity() == old(self).capacity(),
            old(self)@.len() == 0 ==> r is None && final(self)@ =~= old(self)@,
            old(self)@.len() > 0 ==> r == Some(old(self)@[0]) && final(self)@ =~= old(self)@.drop_first(),
    {
        if self.len == 0 {
            return None;
        }
        let cap = self.buf.len();
        proof {
            assert(self.slot_of(0) == self.head as int);
        }
        let item = self.buf[self.head].take();
        self.head = if self.head + 1 == cap { 0 } else { self.head + 1 };
        self.len = self.len - 1;
        proof {
            let prev = old(self);
            assert forall|i: int| 0 <= i < self.len implies
                (#[trigger] self.buf@[self.slot_of(i)]) is Some
            by {
                assert(self.slot_of(i) == prev.slot_of(i + 1));
                assert(prev.buf@[prev.slot_of(i + 1)] is Some);
                assert(prev.slot_of(i + 1) != prev.head as int);
            }
            assert forall|j: int|
                0 <= j < self.buf@.len() && !self.is_pending_slot(j) implies
                (#[trigger] self.buf@[j]) is None
            by {
                if j != prev.head as int && prev.is_pending_slot(j) {
                    let i = choose|i: int|
                        0 <= i < prev.len && #[trigger] prev.slot_of(i) == j;
                    assert(i >= 1);
                    assert(self.slot_of(i - 1) == j);
                }
            }
            assert forall|i: int| 0 <= i < self@.len() implies
                self@[i] == prev@.drop_first()[i]
            by {
                assert(self.slot_of(i) == prev.slot_of(i + 1));
                assert(prev.buf@[prev.slot_of(i + 1)] is Some);
            }
            assert(item == Some(prev@[0]));
        }
        item
    }
}

impl<T> View for Queue<T> {
    type V = Seq<T>;

    /// The pending entries, oldest first.
    closed spec fn view(&self) -> Seq<T> {
        Seq::new(self.len as nat, |i: int| self.buf@[self.slot_of(i)].unwrap())
    }
}

} // verus!
