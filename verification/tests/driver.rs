//! Tests of the operation driver's lifecycle state machine.

use evering::driver::{Driver, OpPoll, Resumption, StateTag};

#[test]
fn driver_lifecycle() {
    // Submit registers a record; the first poll suspends; completion
    // hands back the registered resumption; the next poll yields the
    // payload and the record is gone.
    let mut d: Driver<u64> = Driver::new();
    let id = d.submit();
    assert_eq!(d.state_of(id), Some(StateTag::Submitted));
    let rsm = Resumption { token: 5 };
    assert!(matches!(d.poll(id, rsm), OpPoll::Pending));
    assert_eq!(d.state_of(id), Some(StateTag::Waiting));
    let woken = d.complete(id, 42);
    assert_eq!(woken, Some(rsm));
    assert_eq!(d.state_of(id), Some(StateTag::Completed));
    match d.poll(id, rsm) {
        OpPoll::Ready(v) => assert_eq!(v, 42),
        OpPoll::Pending => panic!("operation must be ready"),
    }
    assert_eq!(d.state_of(id), None);
}

#[test]
fn completion_without_waiter_wakes_nobody() {
    let mut d: Driver<u64> = Driver::new();
    let id = d.submit();
    assert_eq!(d.complete(id, 7), None);
    assert_eq!(d.state_of(id), Some(StateTag::Completed));
    match d.poll(id, Resumption { token: 1 }) {
        OpPoll::Ready(v) => assert_eq!(v, 7),
        OpPoll::Pending => panic!("operation must be ready"),
    }
}

#[test]
fn resumption_is_refreshed() {
    // A later poll with a different resumption replaces the stale one;
    // an equal resumption leaves the registration as it is.
    let mut d: Driver<u64> = Driver::new();
    let id = d.submit();
    assert!(matches!(d.poll(id, Resumption { token: 1 }), OpPoll::Pending));
    assert!(matches!(d.poll(id, Resumption { token: 1 }), OpPoll::Pending));
    assert!(matches!(d.poll(id, Resumption { token: 2 }), OpPoll::Pending));
    assert_eq!(d.complete(id, 9), Some(Resumption { token: 2 }));
}

#[test]
fn identifiers_are_reused_after_consumption() {
    let mut d: Driver<u64> = Driver::new();
    let id0 = d.submit();
    let id1 = d.submit();
    assert_ne!(id0, id1);
    assert_eq!(d.complete(id0, 1), None);
    assert!(matches!(d.poll(id0, Resumption { token: 0 }), OpPoll::Ready(1)));
    // The freed index comes back for the next submission; the two live
    // records never share an identifier.
    let id2 = d.submit();
    assert_eq!(id2, id0);
    assert_ne!(id2, id1);
    assert_eq!(d.state_of(id1), Some(StateTag::Submitted));
    assert_eq!(d.state_of(id2), Some(StateTag::Submitted));
}

#[test]
fn independent_records_do_not_interfere() {
    let mut d: Driver<u64> = Driver::new();
    let ids: Vec<_> = (0..5).map(|_| d.submit()).collect();
    assert_eq!(d.complete(ids[2], 22), None);
    assert_eq!(d.state_of(ids[2]), Some(StateTag::Completed));
    for (k, id) in ids.iter().enumerate() {
        if k != 2 {
            assert_eq!(d.state_of(*id), Some(StateTag::Submitted));
        }
    }
    match d.poll(ids[2], Resumption { token: 3 }) {
        OpPoll::Ready(v) => assert_eq!(v, 22),
        OpPoll::Pending => panic!("operation must be ready"),
    }
    for (k, id) in ids.iter().enumerate() {
        if k != 2 {
            assert_eq!(d.state_of(*id), Some(StateTag::Submitted));
        }
    }
}

#[test]
fn default_driver_is_empty() {
    let d: Driver<u8> = Driver::default();
    let mut d = d;
    let id = d.submit();
    assert_eq!(d.state_of(id), Some(StateTag::Submitted));
}
