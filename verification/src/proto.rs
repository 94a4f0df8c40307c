//! The two concrete operations that exercise the stack end-to-end: a ping
//! carrying a buffer the remote side fills with a marker byte, and a
//! parameterless exit that tells the remote serving loop to terminate.
//!
//! A request entry ([`Sqe`]) couples an operation identifier with the
//! request data; the matching reply entry ([`Rqe`]) carries the same
//! identifier back with the reply data. The ping's buffer stays with the
//! client-side payload while the operation is in flight — the remote side
//! is considered to hold a reference to it until the reply is observed —
//! so abandoning the ping recycles the buffer into the cancellation
//! artifact instead of dropping it.

use vstd::prelude::*;
use crate::driver::{Driver, OpId, OpState, Resumption};
use crate::op::{Cancellation, Completable, Op};
use crate::uring::{RawUring, Sender, Uring};

verus! {

/// One request entry on the wire.
#[derive(Clone, Copy, Debug, PartialEq, Eq, Structural)]
pub struct Sqe {
    /// The identifier of the operation this request belongs to.
    pub id: OpId,
    /// The request data.
    pub data: SqeData,
}

/// One reply entry on the wire.
#[derive(Clone, Copy, Debug, PartialEq, Eq, Structural)]
pub struct Rqe {
    /// The identifier of the operation this reply resolves.
    pub id: OpId,
    /// The reply data.
    pub data: RqeData,
}

/// The request data of the two operations.
#[derive(Clone, Copy, Debug, PartialEq, Eq, Structural)]
pub enum SqeData {
    /// Terminate the remote serving loop.
    Exit,
    /// Fill the submitter's buffer of `len` bytes with a marker byte.
    Ping {
        /// Length of the buffer the submitter holds ready.
        len: usize,
    },
}

/// The reply data of the two operations.
#[derive(Clone, Copy, Debug, PartialEq, Eq, Structural)]
pub enum RqeData {
    /// The remote serving loop acknowledges termination.
    Exited,
    /// The remote side filled the buffer with `marker`.
    Pong {
        /// The byte the buffer was filled with.
        marker: u8,
    },
}

/// The server's answer to one request: a ping is answered with a pong
/// carrying the server's marker byte, an exit is acknowledged.
pub fn respond(req: &SqeData, marker: u8) -> (r: RqeData)
    ensures
        *req is Ping ==> r == (RqeData::Pong { marker }),
        *req is Exit ==> r == RqeData::Exited,
{
    match req {
        SqeData::Ping { .. } => RqeData::Pong { marker },
        SqeData::Exit => RqeData::Exited,
    }
}

/// The client-side ping payload: owns the buffer the remote side fills.
pub struct Ping {
    /// The buffer exposed to the remote side at submission time.
    pub buf: Vec<u8>,
}

impl Completable for Ping {
    type Payload = RqeData;

    type Output = Vec<u8>;

    /// Only a pong resolves a ping; anything else is protocol corruption.
    open spec fn complete_ok(&self, payload: &RqeData) -> bool {
        *payload is Pong
    }

    /// The result is the owned buffer, same length, every byte now the
    /// marker byte of the pong.
    open spec fn completes(&self, payload: &RqeData, output: &Vec<u8>) -> bool {
        match *payload {
            RqeData::Pong { marker } => output@ == Seq::new(
                self.buf@.len(),
                |i: int| marker,
            ),
            RqeData::Exited => false,
        }
    }

    /// Cancellation keeps the whole buffer alive.
    open spec fn cancels_to(&self) -> Option<Seq<u8>> {
        Some(self.buf@)
    }

    fn complete(self, payload: RqeData) -> (r: Vec<u8>) {
        match payload {
            RqeData::Pong { marker } => {
                let Ping { mut buf } = self;
                let n = buf.len();
                let mut i: usize = 0;
                while i < n
                    invariant
                        i <= n,
                        buf@.len() == n,
                        forall|j: int| 0 <= j < i ==> buf@[j] == marker,
                    decreases n - i,
                {
                    buf[i] = marker;
                    i = i + 1;
                }
                proof {
                    assert(buf@ =~= Seq::new(buf@.len(), |i: int| marker));
                }
                buf
            },
            RqeData::Exited => vstd::pervasive::unreached(),
        }
    }

    fn cancel(self) -> (r: Cancellation) {
        Cancellation::recycle(self.buf)
    }
}

/// The client-side exit payload; it owns nothing.
pub struct Exit;

impl Completable for Exit {
    type Payload = RqeData;

    type Output = ();

    /// Only the termination acknowledgement resolves an exit.
    open spec fn complete_ok(&self, payload: &RqeData) -> bool {
        *payload is Exited
    }

    /// An exit resolves to nothing.
    open spec fn completes(&self, payload: &RqeData, output: &()) -> bool {
        true
    }

    /// A stateless operation recovers nothing.
    open spec fn cancels_to(&self) -> Option<Seq<u8>> {
        None
    }

    fn complete(self, payload: RqeData) -> (r: ()) {
        match payload {
            RqeData::Exited => (),
            RqeData::Pong { .. } => vstd::pervasive::unreached(),
        }
    }

    fn cancel(self) -> (r: Cancellation) {
        Cancellation::noop()
    }
}

/// Submits a ping owning `buf`: registers a fresh operation, places the
/// request entry on the ring, and hands back the handle bound to the new
/// identifier. The ring must have room — backpressure is the caller's
/// business.
pub fn ping<E>(
    driver: &mut Driver<RqeData>,
    sender: &mut Sender<Sqe, Rqe, E>,
    raw: &mut RawUring<Sqe, Rqe, E>,
    buf: Vec<u8>,
) -> (op: Op<Ping>)
    requires
        old(driver).wf(),
        old(raw).wf(),
        old(raw).sq_pending().len() < old(raw).sq_capacity() - 1,
    ensures
        final(driver).wf(),
        final(raw).wf(),
        old(raw).same_layout(final(raw)),
        final(raw).refcount_of() == old(raw).refcount_of(),
        final(raw).rq_pending() =~= old(raw).rq_pending(),
        !old(driver)@.dom().contains(op.id_of()),
        final(driver)@ =~= old(driver)@.insert(op.id_of(), OpState::Submitted),
        op.data_of() == Some(Ping { buf }),
        exists|sqe: Sqe|
            final(raw).sq_pending() =~= old(raw).sq_pending().push(sqe)
                && #[trigger] sqe.id@ == op.id_of()
                && sqe.data == (SqeData::Ping { len: buf.len() }),
{
    let id = driver.submit();
    let len = buf.len();
    let sqe = Sqe { id, data: SqeData::Ping { len } };
    let _sent = sender.send(raw, sqe);
    let op = Op::new(id, Ping { buf });
    proof {
        assert(sqe.id@ == op.id_of());
        assert(raw.sq_pending() =~= old(raw).sq_pending().push(sqe));
    }
    op
}

/// Submits an exit: registers a fresh operation, places the request entry
/// on the ring, and hands back the handle bound to the new identifier.
/// The ring must have room — backpressure is the caller's business.
pub fn exit<E>(
    driver: &mut Driver<RqeData>,
    sender: &mut Sender<Sqe, Rqe, E>,
    raw: &mut RawUring<Sqe, Rqe, E>,
) -> (op: Op<Exit>)
    requires
        old(driver).wf(),
        old(raw).wf(),
        old(raw).sq_pending().len() < old(raw).sq_capacity() - 1,
    ensures
        final(driver).wf(),
        final(raw).wf(),
        old(raw).same_layout(final(raw)),
        final(raw).refcount_of() == old(raw).refcount_of(),
        final(raw).rq_pending() =~= old(raw).rq_pending(),
        !old(driver)@.dom().contains(op.id_of()),
        final(driver)@ =~= old(driver)@.insert(op.id_of(), OpState::Submitted),
        op.data_of() == Some(Exit),
        exists|sqe: Sqe|
            final(raw).sq_pending() =~= old(raw).sq_pending().push(sqe)
                && #[trigger] sqe.id@ == op.id_of()
                && sqe.data == SqeData::Exit,
{
    let id = driver.submit();
    let sqe = Sqe { id, data: SqeData::Exit };
    let _sent = sender.send(raw, sqe);
    let op = Op::new(id, Exit);
    proof {
        assert(sqe.id@ == op.id_of());
        assert(raw.sq_pending() =~= old(raw).sq_pending().push(sqe));
    }
    op
}

/// The pool after one reply lands: a cancelled record is discarded, any
/// other live record completes with the reply's data.
pub open spec fn next_pool(m: Map<int, OpState<RqeData>>, reply: Rqe) -> Map<int, OpState<RqeData>> {
    if m[reply.id@] is Cancelled {
        m.remove(reply.id@)
    } else {
        m.insert(reply.id@, OpState::Completed { payload: reply.data })
    }
}

/// Whether the reply sequence conforms to the pool: each reply, in
/// order, names a live record that has not already completed. A
/// non-conforming peer — a reply for an unknown identifier, or a double
/// reply — is protocol corruption, which is fatal rather than
/// recoverable.
pub open spec fn deliverable(m: Map<int, OpState<RqeData>>, replies: Seq<Rqe>) -> bool
    decreases replies.len(),
{
    replies.len() == 0 || {
        &&& m.dom().contains(replies[0].id@)
        &&& !(m[replies[0].id@] is Completed)
        &&& deliverable(next_pool(m, replies[0]), replies.drop_first())
    }
}

/// The pool after the whole reply sequence has landed.
pub open spec fn delivered(m: Map<int, OpState<RqeData>>, replies: Seq<Rqe>)
    -> Map<int, OpState<RqeData>>
    decreases replies.len(),
{
    if replies.len() == 0 {
        m
    } else {
        delivered(next_pool(m, replies[0]), replies.drop_first())
    }
}

/// The resumptions the reply sequence triggers, in arrival order: one
/// for each reply that lands on a record with a registered waiter.
pub open spec fn resumed(m: Map<int, OpState<RqeData>>, replies: Seq<Rqe>) -> Seq<Resumption>
    decreases replies.len(),
{
    if replies.len() == 0 {
        Seq::empty()
    } else {
        let head = match m[replies[0].id@] {
            OpState::Waiting { resumption } => seq![resumption],
            _ => Seq::empty(),
        };
        head + resumed(next_pool(m, replies[0]), replies.drop_first())
    }
}

/// One turn of the client's driving loop: drains every reply pending on
/// the ring into the driver, in arrival order, and collects the
/// resumptions of the callers that became ready — the caller's
/// scheduler must trigger them. The driver itself never touches the
/// ring; this loop is the bridge.
pub fn drain<E>(
    client: &mut Sender<Sqe, Rqe, E>,
    raw: &mut RawUring<Sqe, Rqe, E>,
    driver: &mut Driver<RqeData>,
) -> (woken: Vec<Resumption>)
    requires
        old(raw).wf(),
        old(driver).wf(),
        deliverable(old(driver)@, old(raw).rq_pending()),
    ensures
        final(raw).wf(),
        final(driver).wf(),
        old(raw).same_layout(final(raw)),
        final(raw).refcount_of() == old(raw).refcount_of(),
        final(raw).sq_pending() =~= old(raw).sq_pending(),
        final(raw).rq_pending() =~= Seq::<Rqe>::empty(),
        final(driver)@ == delivered(old(driver)@, old(raw).rq_pending()),
        woken@ == resumed(old(driver)@, old(raw).rq_pending()),
{
    let mut woken: Vec<Resumption> = Vec::new();
    loop
        invariant
            raw.wf(),
            driver.wf(),
            old(raw).same_layout(raw),
            raw.refcount_of() == old(raw).refcount_of(),
            raw.sq_pending() =~= old(raw).sq_pending(),
            deliverable(driver@, raw.rq_pending()),
            delivered(driver@, raw.rq_pending()) == delivered(old(driver)@, old(raw).rq_pending()),
            woken@ + resumed(driver@, raw.rq_pending())
                == resumed(old(driver)@, old(raw).rq_pending()),
        ensures
            raw.wf(),
            driver.wf(),
            old(raw).same_layout(raw),
            raw.refcount_of() == old(raw).refcount_of(),
            raw.sq_pending() =~= old(raw).sq_pending(),
            raw.rq_pending().len() == 0,
            driver@ == delivered(old(driver)@, old(raw).rq_pending()),
            woken@ == resumed(old(driver)@, old(raw).rq_pending()),
        decreases raw.rq_pending().len(),
    {
        let ghost pool = driver@;
        let ghost replies = raw.rq_pending();
        let reply = match client.recv(raw) {
            Some(reply) => reply,
            None => {
                proof {
                    assert(delivered(driver@, raw.rq_pending()) == driver@);
                    assert(woken@ + resumed(driver@, raw.rq_pending()) =~= woken@);
                }
                break;
            },
        };
        proof {
            assert(reply == replies[0]);
            assert(raw.rq_pending() =~= replies.drop_first());
        }
        if let Some(resumption) = driver.complete(reply.id, reply.data) {
            proof {
                assert(driver@ =~= next_pool(pool, reply));
                assert(woken@.push(resumption) + resumed(driver@, raw.rq_pending())
                    =~= woken@ + (seq![resumption] + resumed(driver@, raw.rq_pending())));
            }
            woken.push(resumption);
        } else {
            proof {
                assert(driver@ =~= next_pool(pool, reply));
                assert(woken@ + (Seq::<Resumption>::empty()
                    + resumed(driver@, raw.rq_pending()))
                    =~= woken@ + resumed(driver@, raw.rq_pending()));
            }
        }
    }
    woken
}

} // verus!
