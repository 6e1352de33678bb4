use trader::frames::SocketError;
use trader::message::{Message, Multipart};
use trader::poll_kind::PollKind;
use trader::pollable::{Error, Pollable, Response, OUTBOUND_CAPACITY};

fn mp(b: &[u8]) -> Multipart {
    Multipart::from_message(Message::from_slice(b))
}

fn first_bytes(m: &Multipart) -> Vec<u8> {
    m.get(0).unwrap().as_bytes().to_vec()
}

#[test]
fn new_pollable_is_idle() {
    let p: Pollable<&str, u8> = Pollable::new("sock", 7);
    assert_eq!(p.id(), 7);
    assert_eq!(*p.sock(), "sock");
    assert_eq!(p.kind(), PollKind::UNUSED);
    assert_eq!(p.outbound_len(), 0);
    assert!(!p.has_send_responder());
    assert!(!p.has_recv_responder());
    assert!(!p.has_partial_inbound());
}

#[test]
fn queue_holds_thirty_messages() {
    let mut p: Pollable<(), u8> = Pollable::new((), 0);
    for i in 0..OUTBOUND_CAPACITY {
        assert!(p.queue_message(mp(&[i as u8])).is_none());
    }
    assert_eq!(p.outbound_len(), 30);
    let back = p.queue_message(mp(b"x")).unwrap();
    assert_eq!(first_bytes(&back), b"x".to_vec());
    assert_eq!(p.outbound_len(), 30);
}

#[test]
fn readiness_follows_interest() {
    let mut p: Pollable<(), u8> = Pollable::new((), 0);
    assert!(!p.is_readable(true));
    p.read();
    assert!(p.is_readable(true));
    assert!(!p.is_readable(false));
    assert!(!p.is_writable(true));
    p.write();
    assert!(p.is_writable(true));
    assert_eq!(p.kind(), PollKind::SendRecv);
    p.clear_write();
    assert_eq!(p.kind(), PollKind::RecvMsg);
    p.clear_read();
    assert_eq!(p.kind(), PollKind::UNUSED);
}

#[test]
fn fetch_answers_waiting_requester() {
    let mut p: Pollable<(), u8> = Pollable::new((), 0);
    p.set_recv_responder(9);
    p.read();
    assert!(p.after_fetch(Ok(None)).is_none());
    assert!(p.has_recv_responder());
    assert!(p.after_fetch(Err(SocketError::Fsm)).is_none());
    assert!(p.after_fetch(Err(SocketError::Again)).is_none());
    assert!(p.has_recv_responder());
    assert_eq!(p.kind(), PollKind::RecvMsg);
    match p.after_fetch(Ok(Some(mp(b"in")))) {
        Some((9, Response::Received(m))) => assert_eq!(first_bytes(&m), b"in".to_vec()),
        _ => panic!("expected the received message"),
    }
    assert!(!p.has_recv_responder());
    assert_eq!(p.kind(), PollKind::UNUSED);
}

#[test]
fn fetch_error_answers_with_error() {
    let mut p: Pollable<(), u8> = Pollable::new((), 0);
    p.set_recv_responder(3);
    p.read();
    match p.after_fetch(Err(SocketError::Other(11))) {
        Some((3, Response::Error(Error::Zmq(SocketError::Other(11))))) => {}
        _ => panic!("expected the error"),
    }
    assert_eq!(p.kind(), PollKind::UNUSED);
}

#[test]
fn gather_hands_out_complete_message() {
    let mut p: Pollable<(), u8> = Pollable::new((), 0);
    assert!(p.gather(Message::from_slice(b"a"), true).is_none());
    assert!(p.has_partial_inbound());
    let m = p.gather(Message::from_slice(b"b"), false).unwrap();
    assert_eq!(m.len(), 2);
    assert!(!p.has_partial_inbound());
}

#[test]
fn flush_sends_until_blocked() {
    let mut p: Pollable<(), u8> = Pollable::new((), 0);
    p.queue_message(mp(b"one"));
    p.queue_message(mp(b"two"));
    p.write();
    p.set_send_responder(5);
    let first = p.next_outbound().unwrap();
    assert_eq!(first_bytes(&first), b"one".to_vec());
    let step = p.after_flush_send(Ok(None));
    assert!(!step.done);
    assert!(matches!(step.reply, Some((5, Response::Sent))));
    let second = p.next_outbound().unwrap();
    let step = p.after_flush_send(Ok(Some(second)));
    assert!(step.done);
    assert!(step.reply.is_none());
    assert_eq!(p.kind(), PollKind::SendMsg);
    let again = p.next_outbound().unwrap();
    assert_eq!(first_bytes(&again), b"two".to_vec());
    let step = p.after_flush_send(Ok(None));
    assert!(step.done);
    assert!(step.reply.is_none());
    assert_eq!(p.kind(), PollKind::UNUSED);
    assert!(p.next_outbound().is_none());
}

#[test]
fn flush_error_clears_write_and_answers() {
    let mut p: Pollable<(), u8> = Pollable::new((), 0);
    p.queue_message(mp(b"one"));
    p.write();
    p.read();
    p.set_send_responder(2);
    let _ = p.next_outbound();
    let step = p.after_flush_send(Err(SocketError::Other(1)));
    assert!(step.done);
    assert!(matches!(step.reply, Some((2, Response::Error(Error::Zmq(SocketError::Other(1)))))));
    assert_eq!(p.kind(), PollKind::RecvMsg);
    let mut q: Pollable<(), u8> = Pollable::new((), 0);
    q.queue_message(mp(b"lost"));
    q.write();
    let _ = q.next_outbound();
    let step = q.after_flush_send(Err(SocketError::Fsm));
    assert!(step.done && step.reply.is_none());
    assert_eq!(q.kind(), PollKind::SendMsg);
    assert_eq!(q.outbound_len(), 0);
}

#[test]
fn responders_taken_once() {
    let mut p: Pollable<(), u8> = Pollable::new((), 0);
    p.set_send_responder(1);
    p.set_recv_responder(2);
    assert_eq!(p.send_responder(), Some(1));
    assert_eq!(p.send_responder(), None);
    assert_eq!(p.recv_responder(), Some(2));
    assert_eq!(p.recv_responder(), None);
}
