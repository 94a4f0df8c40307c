//! The ring transport: a fixed-capacity, power-of-two circular buffer pair
//! moving opaque entries between exactly two endpoints.
//!
//! One [`RawUring`] value stands for the shared region: a header with the
//! two per-direction offset blocks and the shared reference count, followed
//! by the two slot arrays. The two endpoints, [`Sender`] and [`Receiver`],
//! are the owning capabilities for side A and side B; each writes one
//! direction and reads the other, through the [`Uring`] trait. An endpoint
//! is released with an explicit `close`: the side that brings the shared
//! count to zero drains and destroys every entry still pending in both
//! directions.
//!
//! Each direction keeps one slot reserved to disambiguate an empty queue
//! from a full one, so at most `capacity - 1` entries are pending at once;
//! the next send fails and hands the rejected value back unchanged.

use vstd::prelude::*;
use core::marker::PhantomData;

verus! {

/// Whether `n` is a power of two.
pub open spec fn is_pow2(n: int) -> bool
    decreases n,
{
    if n <= 0 {
        false
    } else if n == 1 {
        true
    } else {
        n % 2 == 0 && is_pow2(n / 2)
    }
}

/// Runtime check matching [`is_pow2`].
pub fn check_pow2(n: usize) -> (r: bool)
    ensures
        r == is_pow2(n as int),
{
    if n == 0 {
        return false;
    }
    let mut m: usize = n;
    while m > 1
        invariant
            m >= 1,
            is_pow2(n as int) == is_pow2(m as int),
        decreases m,
    {
        if m % 2 != 0 {
            return false;
        }
        m = m / 2;
    }
    true
}

/// One direction's offset block: head, tail and the capacity mask.
struct Offsets {
    head: u32,
    tail: u32,
    mask: u32,
}

/// One direction of the ring: an offset block over a fixed slot array.
///
/// Entries live in the slots from `head` (inclusive) to `tail` (exclusive),
/// wrapping at the capacity; `mask` is `capacity - 1`.
pub struct Queue<T> {
    off: Offsets,
    buf: Vec<Option<T>>,
}

impl<T> Queue<T> {
    /// Number of slots, one of which stays reserved.
    pub closed spec fn capacity(&self) -> int {
        self.buf@.len() as int
    }

    /// Number of pending entries.
    spec fn qlen(&self) -> int {
        if self.off.tail >= self.off.head {
            self.off.tail - self.off.head
        } else {
            self.off.tail + self.buf@.len() - self.off.head
        }
    }

    /// Slot index of the `i`-th pending entry.
    spec fn slot_of(&self, i: int) -> int {
        if self.off.head + i < self.buf@.len() {
            self.off.head + i
        } else {
            self.off.head + i - self.buf@.len()
        }
    }

    /// Whether slot `j` holds one of the pending entries.
    spec fn is_pending_slot(&self, j: int) -> bool {
        exists|i: int| 0 <= i < self.qlen() && #[trigger] self.slot_of(i) == j
    }

    /// Well-formed: a power-of-two slot array matching the mask, offsets in
    /// range, and exactly the pending slots occupied.
    pub closed spec fn wf(&self) -> bool {
        &&& self.buf@.len() == self.off.mask + 1
        &&& self.buf@.len() <= 0x8000_0000
        &&& is_pow2(self.buf@.len() as int)
        &&& self.off.head <= self.off.mask
        &&& self.off.tail <= self.off.mask
        &&& forall|i: int|
            0 <= i < self.qlen() ==> (#[trigger] self.buf@[self.slot_of(i)]) is Some
        &&& forall|j: int|
            0 <= j < self.buf@.len() && !self.is_pending_slot(j)
                ==> (#[trigger] self.buf@[j]) is None
    }

    /// Creates an empty direction with `size` slots.
    pub fn new(size: usize) -> (q: Queue<T>)
        requires
            is_pow2(size as int),
            size <= 0x8000_0000,
        ensures
            q.wf(),
            q@ =~= Seq::<T>::empty(),
            q.capacity() == size,
    {
        let mut buf: Vec<Option<T>> = Vec::new();
        let mut i: usize = 0;
        while i < size
            invariant
                i <= size,
                buf@.len() == i,
                forall|j: int| 0 <= j < i ==> (#[trigger] buf@[j]) is None,
            decreases size - i,
        {
            buf.push(None);
            i = i + 1;
        }
        Queue {
            off: Offsets { head: 0, tail: 0, mask: (size - 1) as u32 },
            buf,
        }
    }

    /// Number of pending entries.
    pub fn len(&self) -> (n: usize)
        requires
            self.wf(),
        ensures
            n == self@.len(),
    {
        let head = self.off.head;
        let tail = self.off.tail;
        if tail >= head {
            (tail - head) as usize
        } else {
            (tail + (self.off.mask - head) + 1) as usize
        }
    }

    /// Number of slots.
    pub fn size(&self) -> (n: usize)
        requires
            self.wf(),
        ensures
            n == self.capacity(),
    {
        self.buf.len()
    }

    /// Writes `val` into the slot at the old tail and advances the tail,
    /// unless only the reserved slot is left; then the queue is full and
    /// `val` comes back unchanged.
    pub fn enqueue(&mut self, val: T) -> (r: Result<(), T>)
        requires
            old(self).wf(),
        ensures
            final(self).wf(),
            final(self).capacity() == old(self).capacity(),
            old(self)@.len() < old(self).capacity() - 1 ==> r is Ok
                && final(self)@ =~= old(self)@.push(val),
            old(self)@.len() == old(self).capacity() - 1 ==> r == Err::<(), T>(val)
                && final(self)@ =~= old(self)@,
    {
        let mask = self.off.mask;
        let tail = self.off.tail;
        let next = if tail == mask { 0 } else { tail + 1 };
        if next == self.off.head {
            return Err(val);
        }
        let idx = tail as usize;
        proof {
            assert(self.slot_of(self.qlen()) == idx);
            assert(!self.is_pending_slot(idx as int));
        }
        self.buf[idx] = Some(val);
        self.off.tail = next;
        proof {
            let prev = old(self);
            assert(self.qlen() == prev.qlen() + 1);
            assert forall|i: int| 0 <= i < self.qlen() implies
                (#[trigger] self.buf@[self.slot_of(i)]) is Some
            by {
                assert(self.slot_of(i) == prev.slot_of(i));
                if i < prev.qlen() {
                    assert(prev.buf@[prev.slot_of(i)] is Some);
                    assert(prev.slot_of(i) != idx);
                }
            }
            assert forall|j: int|
                0 <= j < self.buf@.len() && !self.is_pending_slot(j) implies
                (#[trigger] self.buf@[j]) is None
            by {
                assert(self.slot_of(prev.qlen()) == idx);
                if j != idx {
                    if prev.is_pending_slot(j) {
                        let i = choose|i: int|
                            0 <= i < prev.qlen() && #[trigger] prev.slot_of(i) == j;
                        assert(self.slot_of(i) == j);
                    }
                }
            }
            assert forall|i: int| 0 <= i < self@.len() implies
                self@[i] == prev@.push(val)[i]
            by {
                assert(self.slot_of(i) == prev.slot_of(i));
                if i < prev.qlen() {
                    assert(prev.slot_of(i) != idx);
                }
            }
        }
        Ok(())
    }

    /// Takes the value out of the slot at the head and advances the head;
    /// nothing when the queue is empty.
    pub fn dequeue(&mut self) -> (r: Option<T>)
        requires
            old(self).wf(),
        ensures
            final(self).wf(),
            final(self).capacity() == old(self).capacity(),
            old(self)@.len() == 0 ==> r is None && final(self)@ =~= old(self)@,
            old(self)@.len() > 0 ==> r == Some(old(self)@[0])
                && final(self)@ =~= old(self)@.drop_first(),
    {
        let head = self.off.head;
        if head == self.off.tail {
            return None;
        }
        proof {
            assert(self.slot_of(0) == head as int);
        }
        let item = self.buf[head as usize].take();
        self.off.head = if head == self.off.mask { 0 } else { head + 1 };
        proof {
            let prev = old(self);
            assert(self.qlen() == prev.qlen() - 1);
            assert forall|i: int| 0 <= i < self.qlen() implies
                (#[trigger] self.buf@[self.slot_of(i)]) is Some
            by {
                assert(self.slot_of(i) == prev.slot_of(i + 1));
                assert(prev.buf@[prev.slot_of(i + 1)] is Some);
                assert(prev.slot_of(i + 1) != prev.off.head as int);
            }
            assert forall|j: int|
                0 <= j < self.buf@.len() && !self.is_pending_slot(j) implies
                (#[trigger] self.buf@[j]) is None
            by {
                if j != prev.off.head as int && prev.is_pending_slot(j) {
                    let i = choose|i: int|
                        0 <= i < prev.qlen() && #[trigger] prev.slot_of(i) == j;
                    assert(i >= 1);
                    assert(self.slot_of(i - 1) == j);
                }
            }
            assert forall|i: int| 0 <= i < self@.len() implies
                self@[i] == prev@.drop_first()[i]
            by {
                assert(self.slot_of(i) == prev.slot_of(i + 1));
                assert(prev.buf@[prev.slot_of(i + 1)] is Some);
            }
            assert(item == Some(prev@[0]));
        }
        item
    }

    /// Destroys every pending entry, leaving the direction empty.
    fn drain_all(&mut self)
        requires
            old(self).wf(),
        ensures
            final(self).wf(),
            final(self).capacity() == old(self).capacity(),
            final(self)@ =~= Seq::<T>::empty(),
    {
        while self.len() != 0
            invariant
                self.wf(),
                self.capacity() == old(self).capacity(),
            decreases self@.len(),
        {
            let _entry = self.dequeue();
        }
    }
}

impl<T> View for Queue<T> {
    type V = Seq<T>;

    /// The pending entries, oldest first.
    closed spec fn view(&self) -> Seq<T> {
        Seq::new(self.qlen() as nat, |i: int| self.buf@[self.slot_of(i)].unwrap())
    }
}

/// At most `capacity - 1` entries are ever pending in one direction: one
/// slot stays reserved to tell an empty queue from a full one.
pub proof fn lemma_capacity_reserve<T>(q: &Queue<T>)
    requires
        q.wf(),
    ensures
        q@.len() <= q.capacity() - 1,
{
}

/// Entries come back in the order they went in: of the entries pending in
/// one direction, the one sent `k`-th is the one returned by the `k`-th
/// receive (each receive returns the front and keeps the rest in order).
pub proof fn lemma_recv_in_send_order<T>(pending: Seq<T>, k: int)
    requires
        0 <= k < pending.len(),
    ensures
        pending.skip(k).first() == pending[k],
{
}

/// The shared ring header: the reference count over both endpoints and the
/// caller-defined, read-only extension payload set once at construction.
pub struct UringHeader<T> {
    rc: u32,
    ext: T,
}

/// The shared region of one ring: the header and the two directions.
///
/// Exactly two endpoint capabilities exist per ring; the region itself is
/// held wherever both sides can reach it.
pub struct RawUring<Sqe, Rqe, T> {
    header: UringHeader<T>,
    sq: Queue<Sqe>,
    rq: Queue<Rqe>,
}

/// The abstract state of a ring: its reference count and the entries
/// pending in each direction.
#[verifier::ext_equal]
pub ghost struct RingModel<Sqe, Rqe> {
    /// How many endpoints are still alive.
    pub refcount: int,
    /// Entries pending in the A-to-B direction, oldest first.
    pub sq: Seq<Sqe>,
    /// Entries pending in the B-to-A direction, oldest first.
    pub rq: Seq<Rqe>,
}

/// One endpoint closing: the count drops by one, and the side that brings
/// it to zero destroys every entry still pending in both directions.
pub open spec fn teardown_step<Sqe, Rqe>(m: RingModel<Sqe, Rqe>) -> RingModel<Sqe, Rqe> {
    RingModel {
        refcount: m.refcount - 1,
        sq: if m.refcount == 1 { Seq::empty() } else { m.sq },
        rq: if m.refcount == 1 { Seq::empty() } else { m.rq },
    }
}

/// Dropping both endpoints, in either order and with any entries pending,
/// destroys the pending entries exactly once: the first close touches
/// neither direction, the second empties both and ends the ring's life
/// (count zero). Which endpoint goes first does not matter.
pub proof fn lemma_teardown_drains_exactly_once<Sqe, Rqe>(m: RingModel<Sqe, Rqe>)
    requires
        m.refcount == 2,
    ensures
        teardown_step(m).sq == m.sq,
        teardown_step(m).rq == m.rq,
        teardown_step(m).refcount == 1,
        teardown_step(teardown_step(m)).refcount == 0,
        teardown_step(teardown_step(m)).sq =~= Seq::<Sqe>::empty(),
        teardown_step(teardown_step(m)).rq =~= Seq::<Rqe>::empty(),
{
}

impl<Sqe, Rqe, T> RawUring<Sqe, Rqe, T> {
    /// Well-formed: both directions are well-formed and at most two
    /// endpoints are alive.
    pub closed spec fn wf(&self) -> bool {
        &&& self.sq.wf()
        &&& self.rq.wf()
        &&& self.header.rc <= 2
    }

    /// How many endpoints are still alive.
    pub closed spec fn refcount_of(&self) -> int {
        self.header.rc as int
    }

    /// Entries pending in the A-to-B direction, oldest first.
    pub closed spec fn sq_pending(&self) -> Seq<Sqe> {
        self.sq@
    }

    /// Entries pending in the B-to-A direction, oldest first.
    pub closed spec fn rq_pending(&self) -> Seq<Rqe> {
        self.rq@
    }

    /// Slot count of the A-to-B direction.
    pub closed spec fn sq_capacity(&self) -> int {
        self.sq.capacity()
    }

    /// Slot count of the B-to-A direction.
    pub closed spec fn rq_capacity(&self) -> int {
        self.rq.capacity()
    }

    /// The extension payload.
    pub closed spec fn ext_of(&self) -> T {
        self.header.ext
    }

    /// The abstract state of this ring.
    pub open spec fn model(&self) -> RingModel<Sqe, Rqe> {
        RingModel {
            refcount: self.refcount_of(),
            sq: self.sq_pending(),
            rq: self.rq_pending(),
        }
    }

    /// Whether the ring's layout is unchanged: same capacities, same
    /// extension payload.
    pub open spec fn same_layout(&self, other: &Self) -> bool {
        &&& self.sq_capacity() == other.sq_capacity()
        &&& self.rq_capacity() == other.rq_capacity()
        &&& self.ext_of() == other.ext_of()
    }

    /// A read-only borrow of the extension payload.
    pub fn ext(&self) -> (r: &T)
        ensures
            *r == self.ext_of(),
    {
        &self.header.ext
    }

    /// How many entries are pending in the A-to-B direction.
    pub fn sq_len(&self) -> (n: usize)
        requires
            self.wf(),
        ensures
            n == self.sq_pending().len(),
    {
        self.sq.len()
    }

    /// How many entries are pending in the B-to-A direction.
    pub fn rq_len(&self) -> (n: usize)
        requires
            self.wf(),
        ensures
            n == self.rq_pending().len(),
    {
        self.rq.len()
    }

    /// The slot count of the A-to-B direction.
    pub fn sq_size(&self) -> (n: usize)
        requires
            self.wf(),
        ensures
            n == self.sq_capacity(),
    {
        self.sq.size()
    }

    /// The slot count of the B-to-A direction.
    pub fn rq_size(&self) -> (n: usize)
        requires
            self.wf(),
        ensures
            n == self.rq_capacity(),
    {
        self.rq.size()
    }

    /// Releases one endpoint's share; the release that brings the count to
    /// zero destroys everything still pending.
    fn release(&mut self)
        requires
            old(self).wf(),
            old(self).refcount_of() > 0,
        ensures
            final(self).wf(),
            final(self).model() == teardown_step(old(self).model()),
            old(self).same_layout(final(self)),
    {
        self.header.rc = self.header.rc - 1;
        if self.header.rc == 0 {
            self.sq.drain_all();
            self.rq.drain_all();
        }
    }
}

/// One side of a ring: its owner writes entries of type `Self::Sqe` into
/// one direction and reads entries of type `Self::Rqe` out of the other.
///
/// Both operations are non-blocking: a full direction refuses the entry
/// and hands it back, an empty one returns nothing.
pub trait Uring: Sized {
    /// The entry type this side writes.
    type Sqe;

    /// The entry type this side reads.
    type Rqe;

    /// The extension payload type of the shared header.
    type Ext;

    /// The shared region type this side operates on.
    type Raw;

    /// Well-formedness of the shared region.
    spec fn raw_wf(raw: &Self::Raw) -> bool;

    /// Entries pending in the direction this side writes, oldest first.
    spec fn sendq(raw: &Self::Raw) -> Seq<Self::Sqe>;

    /// Entries pending in the direction this side reads, oldest first.
    spec fn recvq(raw: &Self::Raw) -> Seq<Self::Rqe>;

    /// Slot count of the direction this side writes.
    spec fn send_capacity(raw: &Self::Raw) -> int;

    /// Slot count of the direction this side reads.
    spec fn recv_capacity(raw: &Self::Raw) -> int;

    /// How many endpoints of the ring are still alive.
    spec fn refcount_of(raw: &Self::Raw) -> int;

    /// The extension payload.
    spec fn ext_of(raw: &Self::Raw) -> Self::Ext;

    /// Appends `val` to this side's write direction, failing with the
    /// value unchanged when only the reserved slot is left.
    fn send(&mut self, raw: &mut Self::Raw, val: Self::Sqe) -> (r: Result<(), Self::Sqe>)
        requires
            Self::raw_wf(old(raw)),
        ensures
            Self::raw_wf(final(raw)),
            Self::send_capacity(final(raw)) == Self::send_capacity(old(raw)),
            Self::recv_capacity(final(raw)) == Self::recv_capacity(old(raw)),
            Self::recvq(final(raw)) =~= Self::recvq(old(raw)),
            Self::refcount_of(final(raw)) == Self::refcount_of(old(raw)),
            Self::ext_of(final(raw)) == Self::ext_of(old(raw)),
            Self::sendq(old(raw)).len() < Self::send_capacity(old(raw)) - 1 ==> r is Ok
                && Self::sendq(final(raw)) =~= Self::sendq(old(raw)).push(val),
            Self::sendq(old(raw)).len() == Self::send_capacity(old(raw)) - 1
                ==> r == Err::<(), Self::Sqe>(val)
                && Self::sendq(final(raw)) =~= Self::sendq(old(raw)),
    ;

    /// Removes the oldest entry of this side's read direction, if any.
    fn recv(&mut self, raw: &mut Self::Raw) -> (r: Option<Self::Rqe>)
        requires
            Self::raw_wf(old(raw)),
        ensures
            Self::raw_wf(final(raw)),
            Self::send_capacity(final(raw)) == Self::send_capacity(old(raw)),
            Self::recv_capacity(final(raw)) == Self::recv_capacity(old(raw)),
            Self::sendq(final(raw)) =~= Self::sendq(old(raw)),
            Self::refcount_of(final(raw)) == Self::refcount_of(old(raw)),
            Self::ext_of(final(raw)) == Self::ext_of(old(raw)),
            Self::recvq(old(raw)).len() == 0 ==> r is None
                && Self::recvq(final(raw)) =~= Self::recvq(old(raw)),
            Self::recvq(old(raw)).len() > 0 ==> r == Some(Self::recvq(old(raw))[0])
                && Self::recvq(final(raw)) =~= Self::recvq(old(raw)).drop_first(),
    ;

    /// A read-only borrow of the extension payload.
    fn ext<'a>(&self, raw: &'a Self::Raw) -> (r: &'a Self::Ext)
        ensures
            *r == Self::ext_of(raw),
    ;
}

/// The endpoint for side A: writes the A-to-B direction, reads the other.
pub struct Sender<Sqe, Rqe, T = ()> {
    marker: PhantomData<(Sqe, Rqe, T)>,
}

/// The endpoint for side B: writes the B-to-A direction, reads the other.
pub struct Receiver<Sqe, Rqe, T = ()> {
    marker: PhantomData<(Sqe, Rqe, T)>,
}

impl<Sqe, Rqe, T> Sender<Sqe, Rqe, T> {
    /// Dissolves this endpoint into its raw form without releasing its
    /// share of the ring: the shared region value already holds the raw
    /// parts, and the count stays as it is until a reconstituted endpoint
    /// is closed.
    pub fn into_raw(self) {
    }

    /// Closes this endpoint, releasing its share of the ring; the close
    /// that brings the count to zero destroys everything still pending.
    pub fn close(self, raw: &mut RawUring<Sqe, Rqe, T>)
        requires
            old(raw).wf(),
            old(raw).refcount_of() > 0,
        ensures
            final(raw).wf(),
            final(raw).model() == teardown_step(old(raw).model()),
            old(raw).same_layout(final(raw)),
    {
        raw.release();
    }
}

impl<Sqe, Rqe, T> Receiver<Sqe, Rqe, T> {
    /// Dissolves this endpoint into its raw form without releasing its
    /// share of the ring; see [`Sender::into_raw`].
    pub fn into_raw(self) {
    }

    /// Closes this endpoint, releasing its share of the ring; the close
    /// that brings the count to zero destroys everything still pending.
    pub fn close(self, raw: &mut RawUring<Sqe, Rqe, T>)
        requires
            old(raw).wf(),
            old(raw).refcount_of() > 0,
        ensures
            final(raw).wf(),
            final(raw).model() == teardown_step(old(raw).model()),
            old(raw).same_layout(final(raw)),
    {
        raw.release();
    }
}

impl<Sqe, Rqe, T> Uring for Sender<Sqe, Rqe, T> {
    type Sqe = Sqe;

    type Rqe = Rqe;

    type Ext = T;

    type Raw = RawUring<Sqe, Rqe, T>;

    open spec fn raw_wf(raw: &Self::Raw) -> bool {
        raw.wf()
    }

    open spec fn sendq(raw: &Self::Raw) -> Seq<Sqe> {
        raw.sq_pending()
    }

    open spec fn recvq(raw: &Self::Raw) -> Seq<Rqe> {
        raw.rq_pending()
    }

    open spec fn send_capacity(raw: &Self::Raw) -> int {
        raw.sq_capacity()
    }

    open spec fn recv_capacity(raw: &Self::Raw) -> int {
        raw.rq_capacity()
    }

    open spec fn refcount_of(raw: &Self::Raw) -> int {
        raw.refcount_of()
    }

    open spec fn ext_of(raw: &Self::Raw) -> T {
        raw.ext_of()
    }

    fn send(&mut self, raw: &mut Self::Raw, val: Sqe) -> (r: Result<(), Sqe>) {
        raw.sq.enqueue(val)
    }

    fn recv(&mut self, raw: &mut Self::Raw) -> (r: Option<Rqe>) {
        raw.rq.dequeue()
    }

    fn ext<'a>(&self, raw: &'a Self::Raw) -> (r: &'a T) {
        raw.ext()
    }
}

impl<Sqe, Rqe, T> Uring for Receiver<Sqe, Rqe, T> {
    type Sqe = Rqe;

    type Rqe = Sqe;

    type Ext = T;

    type Raw = RawUring<Sqe, Rqe, T>;

    open spec fn raw_wf(raw: &Self::Raw) -> bool {
        raw.wf()
    }

    open spec fn sendq(raw: &Self::Raw) -> Seq<Rqe> {
        raw.rq_pending()
    }

    open spec fn recvq(raw: &Self::Raw) -> Seq<Sqe> {
        raw.sq_pending()
    }

    open spec fn send_capacity(raw: &Self::Raw) -> int {
        raw.rq_capacity()
    }

    open spec fn recv_capacity(raw: &Self::Raw) -> int {
        raw.sq_capacity()
    }

    open spec fn refcount_of(raw: &Self::Raw) -> int {
        raw.refcount_of()
    }

    open spec fn ext_of(raw: &Self::Raw) -> T {
        raw.ext_of()
    }

    fn send(&mut self, raw: &mut Self::Raw, val: Rqe) -> (r: Result<(), Rqe>) {
        raw.rq.enqueue(val)
    }

    fn recv(&mut self, raw: &mut Self::Raw) -> (r: Option<Sqe>) {
        raw.sq.dequeue()
    }

    fn ext<'a>(&self, raw: &'a Self::Raw) -> (r: &'a T) {
        raw.ext()
    }
}

/// Configuration for one ring: the two direction capacities (powers of
/// two, 32 by default) and the extension payload.
pub struct UringBuilder<Sqe, Rqe, T> {
    sqsize: usize,
    rqsize: usize,
    ext: T,
    marker: PhantomData<(Sqe, Rqe)>,
}

impl<Sqe, Rqe, T> UringBuilder<Sqe, Rqe, T> {
    /// Configured capacity of the A-to-B direction.
    pub closed spec fn sqsize_of(&self) -> int {
        self.sqsize as int
    }

    /// Configured capacity of the B-to-A direction.
    pub closed spec fn rqsize_of(&self) -> int {
        self.rqsize as int
    }

    /// The configured extension payload.
    pub closed spec fn ext_of(&self) -> T {
        self.ext
    }

    /// Both configured capacities are powers of two within range.
    pub closed spec fn wf(&self) -> bool {
        &&& is_pow2(self.sqsize as int)
        &&& is_pow2(self.rqsize as int)
        &&& self.sqsize <= 0x8000_0000
        &&& self.rqsize <= 0x8000_0000
    }

    /// Starts a configuration with the default capacities.
    pub fn new(ext: T) -> (b: Self)
        ensures
            b.wf(),
            b.sqsize_of() == 32,
            b.rqsize_of() == 32,
            b.ext_of() == ext,
    {
        proof {
            reveal_with_fuel(is_pow2, 7);
        }
        UringBuilder { sqsize: 32, rqsize: 32, ext, marker: PhantomData }
    }

    /// Sets the A-to-B capacity; it must be a power of two.
    pub fn sqsize(&mut self, size: usize) -> (r: &mut Self)
        requires
            old(self).wf(),
            is_pow2(size as int),
            size <= 0x8000_0000,
        ensures
            r.wf(),
            r.sqsize_of() == size,
            r.rqsize_of() == old(self).rqsize_of(),
            r.ext_of() == old(self).ext_of(),
            *final(self) == *final(r),
    {
        self.sqsize = size;
        self
    }

    /// Sets the B-to-A capacity; it must be a power of two.
    pub fn rqsize(&mut self, size: usize) -> (r: &mut Self)
        requires
            old(self).wf(),
            is_pow2(size as int),
            size <= 0x8000_0000,
        ensures
            r.wf(),
            r.sqsize_of() == old(self).sqsize_of(),
            r.rqsize_of() == size,
            r.ext_of() == old(self).ext_of(),
            *final(self) == *final(r),
    {
        self.rqsize = size;
        self
    }

    /// Builds the ring: an empty shared region with both offsets zeroed
    /// and the count at two, plus the two endpoint capabilities.
    pub fn build(self) -> (r: (Sender<Sqe, Rqe, T>, Receiver<Sqe, Rqe, T>, RawUring<Sqe, Rqe, T>))
        requires
            self.wf(),
        ensures
            r.2.wf(),
            r.2.refcount_of() == 2,
            r.2.sq_pending() =~= Seq::<Sqe>::empty(),
            r.2.rq_pending() =~= Seq::<Rqe>::empty(),
            r.2.sq_capacity() == self.sqsize_of(),
            r.2.rq_capacity() == self.rqsize_of(),
            r.2.ext_of() == self.ext_of(),
    {
        let UringBuilder { sqsize, rqsize, ext, marker: _ } = self;
        let sq = Queue::new(sqsize);
        let rq = Queue::new(rqsize);
        let raw = RawUring { header: UringHeader { rc: 2, ext }, sq, rq };
        (Sender { marker: PhantomData }, Receiver { marker: PhantomData }, raw)
    }
}

} // verus!
