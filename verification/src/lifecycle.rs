//! The lifecycle of one operation record, viewed as a transition machine,
//! and the law that a record's bound payload is consumed by exactly one
//! of completion and cancellation.
//!
//! The contracts of [`Driver::poll`], [`Driver::complete`] and
//! [`Driver::remove`] each pin how the record of one identifier moves;
//! [`record_step`] writes those moves down as a relation on one record's
//! state (`None` standing for a removed record). Over any valid sequence
//! of such moves, [`lemma_consumption_accounting`] balances the books:
//! the consuming moves — the poll that observes the reply (completion)
//! and the removal of a still-pending record (cancellation) — together
//! with the one forgetting move (removing a record whose reply arrived
//! but was never observed) account exactly for the payload's passing
//! from live to gone. At-most-once consumption holds unconditionally;
//! exactly-once holds for every record whose reply is not forgotten.
//!
//! [`Driver::poll`]: crate::driver::Driver::poll
//! [`Driver::complete`]: crate::driver::Driver::complete
//! [`Driver::remove`]: crate::driver::Driver::remove

use vstd::prelude::*;
use crate::driver::{OpState, Resumption};

verus! {

/// One move in the life of a single operation record.
pub ghost enum OpEvent<P> {
    /// The handle polled the record, offering `resumption`.
    Poll {
        /// The resumption to register if the record is still pending.
        resumption: Resumption,
    },
    /// The draining loop delivered the reply `payload`.
    Complete {
        /// The delivered reply.
        payload: P,
    },
    /// The abandoned handle disposed of the record; a still-pending
    /// record retains `artifact`, the view of what its payload's
    /// cancellation recovered.
    Remove {
        /// The recovery artifact of the payload's cancellation.
        artifact: Option<Seq<u8>>,
    },
}

/// The transition relation on one record's state that the driver's
/// contracts induce; `None` stands for a removed record.
pub open spec fn record_step<P>(
    before: Option<OpState<P>>,
    ev: OpEvent<P>,
    after: Option<OpState<P>>,
) -> bool {
    match ev {
        OpEvent::Poll { resumption } => match before {
            Some(OpState::Submitted) => after == Some::<OpState<P>>(OpState::Waiting { resumption }),
            Some(OpState::Waiting { .. }) => after == Some::<OpState<P>>(OpState::Waiting { resumption }),
            Some(OpState::Completed { .. }) => after is None,
            _ => false,
        },
        OpEvent::Complete { payload } => match before {
            Some(OpState::Submitted) => after == Some::<OpState<P>>(OpState::Completed { payload }),
            Some(OpState::Waiting { .. }) => after == Some::<OpState<P>>(OpState::Completed { payload }),
            Some(OpState::Cancelled { .. }) => after is None,
            _ => false,
        },
        OpEvent::Remove { artifact } => match before {
            Some(OpState::Submitted) => after == Some::<OpState<P>>(OpState::Cancelled { artifact }),
            Some(OpState::Waiting { .. }) => after == Some::<OpState<P>>(OpState::Cancelled { artifact }),
            Some(OpState::Completed { .. }) => after is None,
            None => after is None,
            _ => false,
        },
    }
}

/// Whether the move consumes the record's bound payload: completion (the
/// poll that observes the reply) or cancellation (the removal of a
/// still-pending record).
pub open spec fn consumes<P>(before: Option<OpState<P>>, ev: OpEvent<P>) -> bool {
    match ev {
        OpEvent::Poll { .. } => before matches Some(OpState::Completed { .. }),
        OpEvent::Remove { .. } => before matches Some(OpState::Submitted)
            || before matches Some(OpState::Waiting { .. }),
        OpEvent::Complete { .. } => false,
    }
}

/// Whether the move forgets the payload: removing a record whose reply
/// arrived but was never observed drops the unread result and the
/// payload, invoking neither completion nor cancellation.
pub open spec fn forgets<P>(before: Option<OpState<P>>, ev: OpEvent<P>) -> bool {
    ev matches OpEvent::Remove { .. } && before matches Some(OpState::Completed { .. })
}

/// How many consumptions are still possible from `s`: one while the
/// payload is live, none once the record is cancelled or gone.
pub open spec fn consumable<P>(s: Option<OpState<P>>) -> nat {
    match s {
        Some(OpState::Submitted) => 1,
        Some(OpState::Waiting { .. }) => 1,
        Some(OpState::Completed { .. }) => 1,
        _ => 0,
    }
}

/// A trace: each entry is one move and the record state it leads to.
/// Valid when every move is a [`record_step`] from the state before it.
pub open spec fn valid_trace<P>(
    s: Option<OpState<P>>,
    tr: Seq<(OpEvent<P>, Option<OpState<P>>)>,
) -> bool
    decreases tr.len(),
{
    tr.len() == 0 || (record_step(s, tr[0].0, tr[0].1) && valid_trace(tr[0].1, tr.drop_first()))
}

/// The record state after the whole trace.
pub open spec fn end_state<P>(
    s: Option<OpState<P>>,
    tr: Seq<(OpEvent<P>, Option<OpState<P>>)>,
) -> Option<OpState<P>> {
    if tr.len() == 0 {
        s
    } else {
        tr.last().1
    }
}

/// How many moves of the trace consume the bound payload.
pub open spec fn consumption_count<P>(
    s: Option<OpState<P>>,
    tr: Seq<(OpEvent<P>, Option<OpState<P>>)>,
) -> nat
    decreases tr.len(),
{
    if tr.len() == 0 {
        0
    } else {
        (if consumes(s, tr[0].0) { 1 as nat } else { 0 as nat })
            + consumption_count(tr[0].1, tr.drop_first())
    }
}

/// How many moves of the trace forget the payload.
pub open spec fn forget_count<P>(
    s: Option<OpState<P>>,
    tr: Seq<(OpEvent<P>, Option<OpState<P>>)>,
) -> nat
    decreases tr.len(),
{
    if tr.len() == 0 {
        0
    } else {
        (if forgets(s, tr[0].0) { 1 as nat } else { 0 as nat })
            + forget_count(tr[0].1, tr.drop_first())
    }
}

/// The state of the record for `id` in the pool view `m`; `None` when
/// the record is gone.
pub open spec fn record_of<P>(m: Map<int, OpState<P>>, id: int) -> Option<OpState<P>> {
    if m.dom().contains(id) {
        Some(m[id])
    } else {
        None
    }
}

/// A poll, as `Driver::poll`'s contract pins it on the pool view, is one
/// [`record_step`] of the polled record and leaves every other record
/// untouched.
pub proof fn lemma_poll_projects<P>(
    pre: Map<int, OpState<P>>,
    post: Map<int, OpState<P>>,
    id: int,
    resumption: Resumption,
)
    requires
        pre.dom().contains(id),
        !(pre[id] is Cancelled),
        pre[id] is Submitted || pre[id] is Waiting
            ==> post == pre.insert(id, OpState::Waiting { resumption }),
        pre[id] is Completed ==> post == pre.remove(id),
    ensures
        record_step(record_of(pre, id), OpEvent::Poll { resumption }, record_of(post, id)),
        forall|other: int| other != id
            ==> #[trigger] record_of(post, other) == record_of(pre, other),
{
}

/// A delivered reply, as `Driver::complete`'s contract pins it on the
/// pool view, is one [`record_step`] of the completed record and leaves
/// every other record untouched — in particular, a late reply for an
/// abandoned record is discarded in isolation.
pub proof fn lemma_complete_projects<P>(
    pre: Map<int, OpState<P>>,
    post: Map<int, OpState<P>>,
    id: int,
    payload: P,
)
    requires
        pre.dom().contains(id),
        !(pre[id] is Completed),
        pre[id] is Submitted || pre[id] is Waiting
            ==> post == pre.insert(id, OpState::Completed { payload }),
        pre[id] is Cancelled ==> post == pre.remove(id),
    ensures
        record_step(record_of(pre, id), OpEvent::Complete { payload }, record_of(post, id)),
        forall|other: int| other != id
            ==> #[trigger] record_of(post, other) == record_of(pre, other),
{
}

/// A disposal, as `Driver::remove`'s contract pins it on the pool view,
/// is one [`record_step`] of the removed record and leaves every other
/// record untouched.
pub proof fn lemma_remove_projects<P>(
    pre: Map<int, OpState<P>>,
    post: Map<int, OpState<P>>,
    id: int,
    artifact: Option<Seq<u8>>,
)
    requires
        pre.dom().contains(id) ==> !(pre[id] is Cancelled),
        !pre.dom().contains(id) ==> post == pre,
        pre.dom().contains(id) && (pre[id] is Submitted || pre[id] is Waiting)
            ==> post == pre.insert(id, OpState::Cancelled { artifact }),
        pre.dom().contains(id) && pre[id] is Completed ==> post == pre.remove(id),
    ensures
        record_step(record_of(pre, id), OpEvent::Remove { artifact }, record_of(post, id)),
        forall|other: int| other != id
            ==> #[trigger] record_of(post, other) == record_of(pre, other),
{
}

/// The accounting law: over any valid trace, consumptions and
/// forgettings together spend exactly the payload's liveness — what was
/// consumable at the start and is no longer consumable at the end.
pub proof fn lemma_consumption_accounting<P>(
    s: Option<OpState<P>>,
    tr: Seq<(OpEvent<P>, Option<OpState<P>>)>,
)
    requires
        valid_trace(s, tr),
    ensures
        consumption_count(s, tr) + forget_count(s, tr)
            == consumable(s) - consumable(end_state(s, tr)),
    decreases tr.len(),
{
    if tr.len() > 0 {
        lemma_consumption_accounting(tr[0].1, tr.drop_first());
    }
}

/// The bound payload of an operation is never consumed twice: over any
/// valid trace of one record, at most one move completes or cancels it.
pub proof fn lemma_consumed_at_most_once<P>(
    s: Option<OpState<P>>,
    tr: Seq<(OpEvent<P>, Option<OpState<P>>)>,
)
    requires
        valid_trace(s, tr),
    ensures
        consumption_count(s, tr) <= 1,
{
    lemma_consumption_accounting(s, tr);
}

/// Exactly one of completion and cancellation is invoked on a record's
/// bound payload over its whole life — from freshly submitted to gone —
/// provided no move forgets the payload (the one exception being the
/// removal of an abandoned record whose reply had already arrived
/// unobserved).
pub proof fn lemma_consumed_exactly_once<P>(tr: Seq<(OpEvent<P>, Option<OpState<P>>)>)
    requires
        valid_trace(Some(OpState::Submitted), tr),
        end_state(Some(OpState::Submitted), tr) is None,
        forget_count(Some(OpState::Submitted), tr) == 0,
    ensures
        consumption_count(Some(OpState::Submitted), tr) == 1,
{
    lemma_consumption_accounting(Some(OpState::Submitted), tr);
}

} // verus!
