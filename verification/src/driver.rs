//! The operation driver: an indexed pool of in-flight operation records
//! layered over one side of a ring.
//!
//! The driver assigns identifiers, tracks each operation's lifecycle and
//! bridges "a reply arrived" to "resume the waiting caller". It never
//! touches the ring itself: an external driving loop drains the ring's
//! reply side into [`Driver::complete`] and triggers the resumptions that
//! come back.
//!
//! Every record moves through four states: `Submitted` (no waiter, no
//! result yet), `Waiting` (a caller is suspended on the operation),
//! `Completed` (terminal, consumed once by the next poll) or `Cancelled`
//! (the handle gave up first; the record is retained so a late reply is
//! recognized and discarded instead of corrupting a reused identifier).

use vstd::prelude::*;
use crate::op::{Cancellation, Completable};

verus! {

/// An opaque identifier for one registration inside one driver; valid only
/// for that driver.
#[derive(Clone, Copy, Debug, PartialEq, Eq, Structural)]
pub struct OpId(usize);

impl View for OpId {
    type V = int;

    /// The pool index behind this identifier.
    closed spec fn view(&self) -> int {
        self.0 as int
    }
}

/// An opaque resumption token: the external scheduler resumes the caller
/// that registered it. Two tokens are equivalent exactly when they are
/// equal.
#[derive(Clone, Copy, Debug, PartialEq, Eq, Structural)]
pub struct Resumption {
    /// The scheduler-chosen identity of the suspended caller.
    pub token: u64,
}

/// What one poll of an operation reports: still pending, or resolved with
/// the operation's result.
pub enum OpPoll<P> {
    /// No result yet; a resumption has been registered.
    Pending,
    /// The operation resolved to this value, consumed exactly once.
    Ready(P),
}

/// The lifecycle state of one tracked operation, as driver contracts see
/// it. A cancelled record keeps only the view of its recovery artifact.
pub ghost enum OpState<P> {
    /// Submitted, with no waiter and no result yet.
    Submitted,
    /// A caller is suspended awaiting this operation.
    Waiting { resumption: Resumption },
    /// The reply arrived; the payload awaits its one consumer.
    Completed { payload: P },
    /// The handle was abandoned first; the recovery artifact is retained.
    Cancelled { artifact: Option<Seq<u8>> },
}

/// The same tags, observable at run time through [`Driver::state_of`].
#[derive(Clone, Copy, Debug, PartialEq, Eq, Structural)]
pub enum StateTag {
    /// The record is in the submitted state.
    Submitted,
    /// The record holds a registered resumption.
    Waiting,
    /// The record holds an unconsumed payload.
    Completed,
    /// The record holds a retained recovery artifact.
    Cancelled,
}

enum Lifecycle<P> {
    Submitted,
    Waiting(Resumption),
    Completed(P),
    Cancelled(Cancellation),
}

impl<P> Lifecycle<P> {
    /// The abstract state this record is in.
    spec fn state(&self) -> OpState<P> {
        match self {
            Lifecycle::Submitted => OpState::Submitted,
            Lifecycle::Waiting(resumption) => OpState::Waiting { resumption: *resumption },
            Lifecycle::Completed(payload) => OpState::Completed { payload: *payload },
            Lifecycle::Cancelled(artifact) => OpState::Cancelled { artifact: artifact@ },
        }
    }
}

/// The indexed pool of in-flight operation records.
///
/// Its view is a map from identifier to [`OpState`]; freed indices are
/// reused by later submissions.
pub struct Driver<P> {
    ops: Vec<Option<Lifecycle<P>>>,
    free: Vec<usize>,
}

impl<P> Driver<P> {
    /// Well-formed: the free list holds distinct vacant indices.
    pub closed spec fn wf(&self) -> bool {
        &&& self.free@.no_duplicates()
        &&& forall|k: int|
            0 <= k < self.free@.len()
                ==> #[trigger] self.free@[k] < self.ops@.len()
                    && self.ops@[self.free@[k] as int] is None
    }

    /// Creates an empty driver.
    pub fn new() -> (d: Self)
        ensures
            d.wf(),
            d@ =~= Map::<int, OpState<P>>::empty(),
    {
        Driver { ops: Vec::new(), free: Vec::new() }
    }

    /// Allocates a fresh record in the submitted state; always succeeds.
    /// The identifier is fresh: it names no live record, though it may
    /// reuse the index of one that has been removed.
    pub fn submit(&mut self) -> (id: OpId)
        requires
            old(self).wf(),
        ensures
            final(self).wf(),
            !old(self)@.dom().contains(id@),
            final(self)@ =~= old(self)@.insert(id@, OpState::Submitted),
    {
        match self.free.pop() {
            Some(idx) => {
                self.ops[idx] = Some(Lifecycle::Submitted);
                OpId(idx)
            },
            None => {
                let idx = self.ops.len();
                self.ops.push(Some(Lifecycle::Submitted));
                OpId(idx)
            },
        }
    }

    /// Records the arrival of a reply for `id`, invoked only by the
    /// external draining loop.
    ///
    /// A submitted record completes silently; a waiting record completes
    /// and hands back the registered resumption, which the caller must
    /// trigger; a cancelled record is discarded together with the late
    /// payload, every other record untouched. Completing a completed
    /// record would be a double completion — a protocol corruption the
    /// precondition excludes.
    pub fn complete(&mut self, id: OpId, payload: P) -> (r: Option<Resumption>)
        requires
            old(self).wf(),
            old(self)@.dom().contains(id@),
            !(old(self)@[id@] is Completed),
        ensures
            final(self).wf(),
            old(self)@[id@] is Submitted ==> r is None
                && final(self)@ =~= old(self)@.insert(id@, OpState::Completed { payload }),
            old(self)@[id@] matches OpState::Waiting { resumption } ==> r == Some(resumption)
                && final(self)@ =~= old(self)@.insert(id@, OpState::Completed { payload }),
            old(self)@[id@] is Cancelled ==> r is None
                && final(self)@ =~= old(self)@.remove(id@),
    {
        let idx = id.0;
        let record = self.ops[idx].take();
        match record {
            Some(Lifecycle::Submitted) => {
                self.ops[idx] = Some(Lifecycle::Completed(payload));
                None
            },
            Some(Lifecycle::Waiting(resumption)) => {
                self.ops[idx] = Some(Lifecycle::Completed(payload));
                Some(resumption)
            },
            Some(Lifecycle::Cancelled(_artifact)) => {
                self.free.push(idx);
                None
            },
            _ => vstd::pervasive::unreached(),
        }
    }

    /// Polls the record for `id` on behalf of its handle.
    ///
    /// A record without a result registers (or refreshes) the resumption
    /// and stays pending; a completed record is removed and its payload
    /// returned, consumed exactly once. Polling a cancelled record would
    /// be an internal-invariant violation the precondition excludes.
    pub fn poll(&mut self, id: OpId, resumption: Resumption) -> (r: OpPoll<P>)
        requires
            old(self).wf(),
            old(self)@.dom().contains(id@),
            !(old(self)@[id@] is Cancelled),
        ensures
            final(self).wf(),
            old(self)@[id@] is Submitted || old(self)@[id@] is Waiting ==> r is Pending
                && final(self)@ =~= old(self)@.insert(id@, OpState::Waiting { resumption }),
            old(self)@[id@] matches OpState::Completed { payload } ==> r == OpPoll::Ready(payload)
                && final(self)@ =~= old(self)@.remove(id@),
    {
        let idx = id.0;
        let record = self.ops[idx].take();
        match record {
            Some(Lifecycle::Submitted) => {
                self.ops[idx] = Some(Lifecycle::Waiting(resumption));
                OpPoll::Pending
            },
            Some(Lifecycle::Waiting(_stale)) => {
                self.ops[idx] = Some(Lifecycle::Waiting(resumption));
                OpPoll::Pending
            },
            Some(Lifecycle::Completed(payload)) => {
                self.free.push(idx);
                OpPoll::Ready(payload)
            },
            _ => vstd::pervasive::unreached(),
        }
    }

    /// Disposes of the record for `id` when its handle is abandoned
    /// unresolved, consuming the handle's payload `data`.
    ///
    /// A record still pending invokes the payload's cancellation and is
    /// retained as cancelled, so a later stray reply is recognized and
    /// discarded rather than corrupting a reused identifier. A completed
    /// record is removed, its unread result and the payload dropped. If
    /// the record is already gone this is a silent no-op. Removing a
    /// cancelled record again would be an internal-invariant violation
    /// the precondition excludes.
    pub fn remove<T>(&mut self, id: OpId, data: T)
        where T: Completable<Payload = P>,
        requires
            old(self).wf(),
            old(self)@.dom().contains(id@) ==> !(old(self)@[id@] is Cancelled),
        ensures
            final(self).wf(),
            !old(self)@.dom().contains(id@) ==> final(self)@ =~= old(self)@,
            old(self)@.dom().contains(id@)
                && (old(self)@[id@] is Submitted || old(self)@[id@] is Waiting)
                ==> final(self)@
                    =~= old(self)@.insert(id@, OpState::Cancelled { artifact: data.cancels_to() }),
            old(self)@.dom().contains(id@) && old(self)@[id@] is Completed
                ==> final(self)@ =~= old(self)@.remove(id@),
    {
        let idx = id.0;
        if idx >= self.ops.len() {
            return;
        }
        let record = self.ops[idx].take();
        match record {
            None => {},
            Some(Lifecycle::Submitted) | Some(Lifecycle::Waiting(_)) => {
                self.ops[idx] = Some(Lifecycle::Cancelled(data.cancel()));
            },
            Some(Lifecycle::Completed(_payload)) => {
                self.free.push(idx);
            },
            Some(Lifecycle::Cancelled(_)) => vstd::pervasive::unreached(),
        }
    }

    /// The run-time tag of the record for `id`, if the record is live.
    pub fn state_of(&self, id: OpId) -> (r: Option<StateTag>)
        ensures
            r is Some <==> self@.dom().contains(id@),
            self@.dom().contains(id@) ==> r == Some(match self@[id@] {
                OpState::Submitted => StateTag::Submitted,
                OpState::Waiting { .. } => StateTag::Waiting,
                OpState::Completed { .. } => StateTag::Completed,
                OpState::Cancelled { .. } => StateTag::Cancelled,
            }),
    {
        if id.0 >= self.ops.len() {
            return None;
        }
        match &self.ops[id.0] {
            None => None,
            Some(Lifecycle::Submitted) => Some(StateTag::Submitted),
            Some(Lifecycle::Waiting(_)) => Some(StateTag::Waiting),
            Some(Lifecycle::Completed(_)) => Some(StateTag::Completed),
            Some(Lifecycle::Cancelled(_)) => Some(StateTag::Cancelled),
        }
    }
}

impl<P> View for Driver<P> {
    type V = Map<int, OpState<P>>;

    /// The live records, by identifier.
    closed spec fn view(&self) -> Map<int, OpState<P>> {
        Map::new(
            |i: int| 0 <= i < self.ops@.len() && self.ops@[i] is Some,
            |i: int| self.ops@[i].unwrap().state(),
        )
    }
}

impl<P> Default for Driver<P> {
    /// Creates an empty driver.
    fn default() -> (d: Self)
        ensures
            d.wf(),
            d@ =~= Map::<int, OpState<P>>::empty(),
    {
        Driver::new()
    }
}

/// A late reply is discarded in isolation: dropping the cancelled record
/// for `id` leaves every other identifier's state untouched.
pub proof fn lemma_late_reply_isolated<P>(m: Map<int, OpState<P>>, id: int, other: int)
    requires
        m.dom().contains(id),
        m[id] is Cancelled,
        m.dom().contains(other),
        other != id,
    ensures
        m.remove(id).dom().contains(other),
        m.remove(id)[other] == m[other],
{
}

} // verus!
