//! The operation handle and the completable contract.
//!
//! A request payload type implements [`Completable`]: it is consumed by
//! exactly one of `complete` (the reply arrived) or `cancel` (the handle
//! was abandoned first). Cancellation produces a [`Cancellation`]
//! artifact: whatever must stay alive because the remote side may still
//! reference it until it observes the reply.
//!
//! An [`Op`] binds one payload to one operation identifier. It is created
//! after the request entry has been placed on the ring, polled each
//! scheduling turn, and — if never resolved — released explicitly with
//! [`Op::abandon`], which routes the payload's cancellation through the
//! driver.

use vstd::prelude::*;
use crate::driver::{Driver, OpId, OpPoll, OpState, Resumption};

verus! {

/// The recovery artifact of a cancelled operation: either nothing, or a
/// recycled buffer that the remote side may still reference.
pub struct Cancellation {
    kept: Option<Vec<u8>>,
}

impl Cancellation {
    /// An empty artifact, for stateless operations.
    pub fn noop() -> (r: Cancellation)
        ensures
            r@ is None,
    {
        Cancellation { kept: None }
    }

    /// Keeps `resource` alive inside the artifact.
    pub fn recycle(resource: Vec<u8>) -> (r: Cancellation)
        ensures
            r@ == Some(resource@),
    {
        Cancellation { kept: Some(resource) }
    }

    /// A borrow of the recycled resource, if any.
    pub fn recovered(&self) -> (r: &Option<Vec<u8>>)
        ensures
            *r is Some <==> self@ is Some,
            *r matches Some(b) ==> self@ == Some(b@),
    {
        &self.kept
    }
}

impl View for Cancellation {
    type V = Option<Seq<u8>>;

    /// The bytes kept alive, if any.
    closed spec fn view(&self) -> Option<Seq<u8>> {
        match self.kept {
            Some(ref b) => Some(b@),
            None => None,
        }
    }
}

/// The contract a request payload implements so it can travel with an
/// operation: the payload is consumed by exactly one of [`complete`]
/// (producing the logical result from the reply) or [`cancel`] (producing
/// the recovery artifact).
///
/// [`complete`]: Completable::complete
/// [`cancel`]: Completable::cancel
pub trait Completable: Sized {
    /// The reply payload type delivered by the driver.
    type Payload;

    /// The logical result of the finished operation.
    type Output;

    /// Whether `payload` is a reply this operation accepts; a mismatched
    /// tag is protocol corruption, which is fatal rather than
    /// recoverable.
    spec fn complete_ok(&self, payload: &Self::Payload) -> bool;

    /// Whether `output` is the logical result this operation produces
    /// from the accepted reply `payload`.
    spec fn completes(&self, payload: &Self::Payload, output: &Self::Output) -> bool;

    /// The view of the recovery artifact cancellation produces.
    spec fn cancels_to(&self) -> Option<Seq<u8>>;

    /// Completes this operation with the received payload.
    fn complete(self, payload: Self::Payload) -> (r: Self::Output)
        requires
            self.complete_ok(&payload),
        ensures
            self.completes(&payload, &r),
    ;

    /// Cancels this operation, recovering what must stay alive.
    fn cancel(self) -> (r: Cancellation)
        ensures
            r@ == self.cancels_to(),
    ;
}

/// A typed, owning handle bound to one operation identifier.
pub struct Op<T: Completable> {
    id: OpId,
    data: Option<T>,
}

impl<T: Completable> Op<T> {
    /// The identifier this handle is bound to.
    pub closed spec fn id_of(&self) -> int {
        self.id@
    }

    /// The payload, until one of completion or cancellation consumes it.
    pub closed spec fn data_of(&self) -> Option<T> {
        self.data
    }

    /// The identifier this handle is bound to.
    pub fn id(&self) -> (r: OpId)
        ensures
            r@ == self.id_of(),
    {
        self.id
    }

    /// Binds `data` to the freshly registered `id`; called after the
    /// request entry referencing `id` has been placed on the ring.
    pub fn new(id: OpId, data: T) -> (op: Op<T>)
        ensures
            op.id_of() == id@,
            op.data_of() == Some(data),
    {
        Op { id, data: Some(data) }
    }

    /// One scheduling turn: asks the driver for this operation's state,
    /// registering `resumption` if it is still pending, and completing
    /// the payload with the reply once one has arrived. The record is
    /// removed the instant the result is observed, so a resolved
    /// operation cannot be polled again or cancelled.
    pub fn poll(&mut self, driver: &mut Driver<T::Payload>, resumption: Resumption)
        -> (r: OpPoll<T::Output>)
        requires
            old(self).data_of() is Some,
            old(driver).wf(),
            old(driver)@.dom().contains(old(self).id_of()),
            !(old(driver)@[old(self).id_of()] is Cancelled),
            old(driver)@[old(self).id_of()] matches OpState::Completed { payload }
                ==> old(self).data_of().unwrap().complete_ok(&payload),
        ensures
            final(driver).wf(),
            final(self).id_of() == old(self).id_of(),
            old(driver)@[old(self).id_of()] is Submitted
                || old(driver)@[old(self).id_of()] is Waiting ==> r is Pending
                && final(self).data_of() == old(self).data_of()
                && final(driver)@ =~= old(driver)@.insert(
                    old(self).id_of(),
                    OpState::Waiting { resumption },
                ),
            old(driver)@[old(self).id_of()] matches OpState::Completed { payload }
                ==> (r matches OpPoll::Ready(out)
                    && old(self).data_of().unwrap().completes(&payload, &out))
                && final(self).data_of() is None
                && final(driver)@ =~= old(driver)@.remove(old(self).id_of()),
    {
        match driver.poll(self.id, resumption) {
            OpPoll::Pending => OpPoll::Pending,
            OpPoll::Ready(payload) => {
                let data = self.data.take().unwrap();
                OpPoll::Ready(data.complete(payload))
            },
        }
    }

    /// Releases an unresolved handle: the driver invokes the payload's
    /// cancellation if the operation is still pending (retaining the
    /// record so a late reply is discarded), or drops the unread result
    /// if a reply had already arrived unobserved.
    pub fn abandon(self, driver: &mut Driver<T::Payload>)
        requires
            old(driver).wf(),
            self.data_of() is Some,
            old(driver)@.dom().contains(self.id_of())
                ==> !(old(driver)@[self.id_of()] is Cancelled),
        ensures
            final(driver).wf(),
            !old(driver)@.dom().contains(self.id_of()) ==> final(driver)@ =~= old(driver)@,
            old(driver)@.dom().contains(self.id_of())
                && (old(driver)@[self.id_of()] is Submitted
                    || old(driver)@[self.id_of()] is Waiting)
                ==> final(driver)@ =~= old(driver)@.insert(
                    self.id_of(),
                    OpState::Cancelled { artifact: self.data_of().unwrap().cancels_to() },
                ),
            old(driver)@.dom().contains(self.id_of())
                && old(driver)@[self.id_of()] is Completed
                ==> final(driver)@ =~= old(driver)@.remove(self.id_of()),
    {
        let Op { id, data } = self;
        let data = data.unwrap();
        driver.remove(id, data);
    }
}

} // verus!
