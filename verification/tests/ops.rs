//! End-to-end tests of the two concrete operations over a ring and a
//! driver: completion, cancellation, and late-reply discarding.

use evering::driver::{Driver, OpPoll, Resumption, StateTag};
use evering::op::{Cancellation, Completable, Op};
use evering::proto::{drain, exit, ping, respond, Exit, Ping, Rqe, RqeData, Sqe, SqeData};
use evering::uring::{RawUring, Receiver, Sender, Uring, UringBuilder};

type TestRing = (
    Sender<Sqe, Rqe>,
    Receiver<Sqe, Rqe>,
    RawUring<Sqe, Rqe, ()>,
);

fn ring() -> TestRing {
    let mut b = UringBuilder::new(());
    b.sqsize(4);
    b.rqsize(4);
    b.build()
}

/// The server's turn: answer every pending request with `marker`.
fn serve(server: &mut Receiver<Sqe, Rqe>, raw: &mut RawUring<Sqe, Rqe, ()>, marker: u8) {
    while let Some(req) = server.recv(raw) {
        let data = respond(&req.data, marker);
        server.send(raw, Rqe { id: req.id, data }).ok().unwrap();
    }
}

#[test]
fn ping_pong_fills_buffer() {
    // The client submits a ping with a 16-byte untouched buffer; the
    // server replies with its marker; the resolved handle yields the
    // buffer fully filled with the marker byte.
    let (mut client, mut server, mut raw) = ring();
    let mut d: Driver<RqeData> = Driver::new();
    let buf = vec![0u8; 16];
    let mut op = ping(&mut d, &mut client, &mut raw, buf);
    let rsm = Resumption { token: 1 };
    assert!(matches!(op.poll(&mut d, rsm), OpPoll::Pending));

    serve(&mut server, &mut raw, 0xAB);
    let woken = drain(&mut client, &mut raw, &mut d);
    assert_eq!(woken, vec![rsm]);

    match op.poll(&mut d, rsm) {
        OpPoll::Ready(out) => assert_eq!(out, vec![0xAB; 16]),
        OpPoll::Pending => panic!("the reply has arrived"),
    }
    assert_eq!(d.state_of(op.id()), None);
}

#[test]
fn exit_resolves_to_unit() {
    let (mut client, mut server, mut raw) = ring();
    let mut d: Driver<RqeData> = Driver::new();
    let mut op = exit(&mut d, &mut client, &mut raw);
    serve(&mut server, &mut raw, 0);
    drain(&mut client, &mut raw, &mut d);
    match op.poll(&mut d, Resumption { token: 2 }) {
        OpPoll::Ready(()) => {},
        OpPoll::Pending => panic!("the acknowledgement has arrived"),
    }
}

#[test]
fn respond_answers_each_request() {
    assert_eq!(respond(&SqeData::Ping { len: 4 }, 7), RqeData::Pong { marker: 7 });
    assert_eq!(respond(&SqeData::Exit, 7), RqeData::Exited);
}

#[test]
fn abandoned_ping_recycles_buffer_and_discards_late_reply() {
    // The handle is abandoned before any reply: its cancellation keeps
    // the buffer; a later reply for the same identifier is silently
    // discarded and every other operation's state stays untouched.
    let (mut client, mut server, mut raw) = ring();
    let mut d: Driver<RqeData> = Driver::new();
    let op1 = ping(&mut d, &mut client, &mut raw, vec![9u8; 8]);
    let mut op2 = ping(&mut d, &mut client, &mut raw, vec![0u8; 4]);
    let id1 = op1.id();
    let id2 = op2.id();

    op1.abandon(&mut d);
    assert_eq!(d.state_of(id1), Some(StateTag::Cancelled));
    assert_eq!(d.state_of(id2), Some(StateTag::Submitted));

    // The server still answers both requests.
    serve(&mut server, &mut raw, 0x5A);
    let woken = drain(&mut client, &mut raw, &mut d);
    assert_eq!(woken, vec![]);

    // The late reply for the abandoned operation is gone without a
    // trace; the live operation resolved normally.
    assert_eq!(d.state_of(id1), None);
    assert_eq!(d.state_of(id2), Some(StateTag::Completed));
    match op2.poll(&mut d, Resumption { token: 4 }) {
        OpPoll::Ready(out) => assert_eq!(out, vec![0x5A; 4]),
        OpPoll::Pending => panic!("the reply has arrived"),
    }
}

#[test]
fn abandon_after_unobserved_reply_drops_result() {
    // The reply arrives, but the handle is abandoned before observing
    // it: the record is removed and the unread result dropped, with no
    // cancellation artifact retained.
    let (mut client, mut server, mut raw) = ring();
    let mut d: Driver<RqeData> = Driver::new();
    let op = ping(&mut d, &mut client, &mut raw, vec![0u8; 4]);
    let id = op.id();
    serve(&mut server, &mut raw, 1);
    drain(&mut client, &mut raw, &mut d);
    assert_eq!(d.state_of(id), Some(StateTag::Completed));
    op.abandon(&mut d);
    assert_eq!(d.state_of(id), None);
}

#[test]
fn ping_cancel_recovers_buffer() {
    let payload = Ping { buf: vec![1, 2, 3] };
    let artifact = payload.cancel();
    assert_eq!(artifact.recovered(), &Some(vec![1, 2, 3]));
}

#[test]
fn exit_cancel_recovers_nothing() {
    let artifact = Exit.cancel();
    assert_eq!(artifact.recovered(), &None);
    assert_eq!(Cancellation::noop().recovered(), &None);
}

#[test]
fn ping_complete_consumes_payload_once() {
    // The one completion of a payload happens at the poll that observes
    // the reply; afterwards the handle holds nothing and the record is
    // gone, so neither a second completion nor a cancellation is
    // possible.
    let (mut client, mut server, mut raw) = ring();
    let mut d: Driver<RqeData> = Driver::new();
    let mut op = ping(&mut d, &mut client, &mut raw, vec![0u8; 2]);
    serve(&mut server, &mut raw, 3);
    drain(&mut client, &mut raw, &mut d);
    let first = op.poll(&mut d, Resumption { token: 9 });
    assert!(matches!(first, OpPoll::Ready(_)));
    assert_eq!(d.state_of(op.id()), None);
}

#[test]
fn request_entries_carry_the_operation_id() {
    let (mut client, mut server, mut raw) = ring();
    let mut d: Driver<RqeData> = Driver::new();
    let op_a = ping(&mut d, &mut client, &mut raw, vec![0u8; 1]);
    let op_b = exit(&mut d, &mut client, &mut raw);
    let first = server.recv(&mut raw).unwrap();
    let second = server.recv(&mut raw).unwrap();
    assert_eq!(first.id, op_a.id());
    assert_eq!(first.data, SqeData::Ping { len: 1 });
    assert_eq!(second.id, op_b.id());
    assert_eq!(second.data, SqeData::Exit);
    op_a.abandon(&mut d);
    op_b.abandon(&mut d);
}
