use trader::frames::SocketError;
use trader::message::{Message, Multipart};
use trader::poll_kind::PollKind;
use trader::poll_thread::{poll_timeout, Action, FollowUp, PollThread, Reply, Request};
use trader::pollable::{Error, Response};

type Thread = PollThread<&'static str, u32>;
type Req = Request<&'static str, u32, u32>;

fn mp(b: &[u8]) -> Multipart {
    Multipart::from_message(Message::from_slice(b))
}

fn init(t: &mut Thread, sock: &'static str, ri: u32) -> usize {
    let h = t.receive::<u32>(Req::Init(sock, ri));
    match h.replies.as_slice() {
        [Reply::Initialized(r, id)] => {
            assert_eq!(*r, ri);
            *id
        }
        _ => panic!("expected one init reply"),
    }
}

fn is_dropped(reply: &Reply<u32, u32>, r: u32) -> bool {
    matches!(reply, Reply::Respond(x, Response::Error(Error::Dropped)) if *x == r)
}

#[test]
fn sockets_get_increasing_numbers() {
    let mut t = Thread::new();
    assert_eq!(init(&mut t, "a", 1), 0);
    assert_eq!(init(&mut t, "b", 2), 1);
    assert_eq!(t.next_sock_id(), 2);
    assert_eq!(t.socket(1), Some(&"b"));
    assert!(t.contains(0));
    assert_eq!(t.ids(), vec![0, 1]);
    assert_eq!(t.interest_of(0), Some(PollKind::UNUSED));
}

#[test]
fn send_to_missing_socket_is_dropped() {
    let mut t = Thread::new();
    let h = t.receive::<u32>(Req::SendMessage(4, mp(b"x"), 9));
    assert_eq!(h.replies.len(), 1);
    assert!(is_dropped(&h.replies[0], 9));
    assert!(matches!(h.follow_up, FollowUp::Nothing));
    let h = t.receive::<u32>(Req::ReceiveMessage(4, 8));
    assert!(is_dropped(&h.replies[0], 8));
}

#[test]
fn send_queues_and_asks_for_flush() {
    let mut t = Thread::new();
    let id = init(&mut t, "a", 1);
    let h = t.receive::<u32>(Req::SendMessage(id, mp(b"x"), 9));
    assert!(h.replies.is_empty());
    assert!(matches!(h.follow_up, FollowUp::Flush(i) if i == id));
    assert_eq!(t.interest_of(id), Some(PollKind::SendMsg));
    let out = t.next_outbound(id).unwrap();
    assert_eq!(out.get(0).unwrap().as_bytes(), b"x");
    let step = t.after_flush_send(id, Ok(None));
    assert!(step.done);
    assert!(matches!(step.reply, Some((9, Response::Sent))));
    assert_eq!(t.interest_of(id), Some(PollKind::UNUSED));
}

#[test]
fn full_queue_flushes_then_requeues() {
    let mut t = Thread::new();
    let id = init(&mut t, "a", 1);
    for i in 0..30u32 {
        let h = t.receive::<u32>(Req::SendMessage(id, mp(b"m"), i));
        assert!(matches!(h.follow_up, FollowUp::Flush(_)));
        let _ = t.take_send_responder(id);
    }
    let h = t.receive::<u32>(Req::SendMessage(id, mp(b"late"), 99));
    let (m, r) = match h.follow_up {
        FollowUp::FlushThenRequeue(i, m, r) => {
            assert_eq!(i, id);
            (m, r)
        }
        _ => panic!("expected a flush before requeueing"),
    };
    let h2 = t.requeue::<u32>(id, m, r);
    match h2.replies.as_slice() {
        [Reply::Respond(99, Response::Full(back))] => assert_eq!(back.get(0).unwrap().as_bytes(), b"late"),
        _ => panic!("expected the message handed back as full"),
    }
    let _ = t.next_outbound(id).unwrap();
    let step = t.after_flush_send(id, Ok(None));
    assert!(!step.done);
    let h3 = t.requeue::<u32>(id, mp(b"late"), 100);
    assert!(h3.replies.is_empty());
    assert!(matches!(h3.follow_up, FollowUp::Flush(_)));
}

#[test]
fn receive_waits_and_fetches() {
    let mut t = Thread::new();
    let id = init(&mut t, "a", 1);
    let h = t.receive::<u32>(Req::ReceiveMessage(id, 5));
    assert!(matches!(h.follow_up, FollowUp::Fetch(i) if i == id));
    assert!(t.awaits_receive(id));
    assert!(t.gather(id, Message::from_slice(b"p1"), true).is_none());
    assert!(t.has_partial_inbound(id));
    let done = t.gather(id, Message::from_slice(b"p2"), false).unwrap();
    let reply = t.after_fetch(id, Ok(Some(done)));
    match reply {
        Some((5, Response::Received(m))) => assert_eq!(m.len(), 2),
        _ => panic!("expected the message"),
    }
    assert!(!t.awaits_receive(id));
}

#[test]
fn dropping_a_socket_answers_its_requesters() {
    let mut t = Thread::new();
    let id = init(&mut t, "a", 1);
    let _ = t.receive::<u32>(Req::SendMessage(id, mp(b"x"), 7));
    let _ = t.receive::<u32>(Req::ReceiveMessage(id, 8));
    let h = t.receive::<u32>(Req::DropSocket(id));
    assert_eq!(h.replies.len(), 2);
    assert!(is_dropped(&h.replies[0], 7));
    assert!(is_dropped(&h.replies[1], 8));
    assert!(!t.contains(id));
    let h = t.receive::<u32>(Req::DropSocket(id));
    assert!(h.replies.is_empty());
}

#[test]
fn stopping_keeps_numbering_but_takes_nothing() {
    let mut t = Thread::new();
    let first = init(&mut t, "a", 1);
    let h = t.receive::<u32>(Req::Done);
    assert!(h.replies.is_empty());
    assert!(t.is_stopping());
    let id = init(&mut t, "b", 2);
    assert_eq!(id, first + 1);
    assert!(!t.contains(id));
    let h = t.receive::<u32>(Req::SendMessage(first, mp(b"x"), 3));
    assert!(is_dropped(&h.replies[0], 3));
    let h = t.receive::<u32>(Req::ReceiveMessage(first, 4));
    assert!(is_dropped(&h.replies[0], 4));
    let _ = t.receive::<u32>(Req::Done);
    assert!(t.is_stopping());
}

#[test]
fn overwriting_a_waiting_requester_is_refused() {
    let mut t = Thread::new();
    let id = init(&mut t, "a", 1);
    let _ = t.receive::<u32>(Req::ReceiveMessage(id, 5));
    assert!(!t.can_handle::<u32>(&Req::ReceiveMessage(id, 6)));
    assert!(t.can_handle::<u32>(&Req::SendMessage(id, mp(b"x"), 6)));
    let _ = t.receive::<u32>(Req::SendMessage(id, mp(b"x"), 6));
    assert!(!t.can_handle::<u32>(&Req::SendMessage(id, mp(b"y"), 7)));
    assert!(t.can_handle::<u32>(&Req::DropSocket(id)));
}

#[test]
fn actions_after_poll_send_before_receive() {
    let mut t = Thread::new();
    let a = init(&mut t, "a", 1);
    let b = init(&mut t, "b", 2);
    let _ = t.receive::<u32>(Req::SendMessage(a, mp(b"x"), 1));
    let _ = t.receive::<u32>(Req::ReceiveMessage(a, 2));
    let _ = t.receive::<u32>(Req::ReceiveMessage(b, 3));
    let acts = t.plan_actions(&vec![(a, true, true), (b, true, false), (7, true, true)]);
    assert_eq!(acts, vec![Action::Rcv(b), Action::Snd(a), Action::Rcv(a)]);
    let none = t.plan_actions(&vec![(a, false, false), (b, false, true)]);
    assert!(none.is_empty());
}

#[test]
fn poll_waits_only_when_idle() {
    assert_eq!(poll_timeout(true), 0);
    assert_eq!(poll_timeout(false), 50);
}

#[test]
fn cancelled_requesters_can_be_taken_and_restored() {
    let mut t = Thread::new();
    let id = init(&mut t, "a", 1);
    let _ = t.receive::<u32>(Req::ReceiveMessage(id, 5));
    let r = t.take_recv_responder(id).unwrap();
    assert!(!t.awaits_receive(id));
    t.restore_recv_responder(id, r);
    assert!(t.awaits_receive(id));
    let _ = t.receive::<u32>(Req::SendMessage(id, mp(b"x"), 6));
    let s = t.take_send_responder(id).unwrap();
    assert_eq!(s, 6);
    t.restore_send_responder(id, s);
    assert_eq!(t.take_send_responder(id), Some(6));
    let _ = SocketError::Again;
}

#[test]
fn requeue_is_refused_over_a_waiting_sender() {
    let mut t = Thread::new();
    assert!(t.can_requeue(3));
    let id = init(&mut t, "a", 1);
    assert!(t.can_requeue(id));
    let _ = t.receive::<u32>(Req::SendMessage(id, mp(b"x"), 7));
    assert!(!t.can_requeue(id));
    let _ = t.take_send_responder(id);
    assert!(t.can_requeue(id));
}

#[test]
fn fetch_with_nobody_waiting_does_nothing() {
    let mut t = Thread::new();
    assert!(t.after_fetch(7, Ok(Some(mp(b"x")))).is_none());
    let id = init(&mut t, "a", 1);
    assert!(t.after_fetch(id, Ok(Some(mp(b"x")))).is_none());
    assert!(t.after_fetch(id, Err(SocketError::Other(3))).is_none());
    assert_eq!(t.interest_of(id), Some(PollKind::UNUSED));
    assert!(!t.awaits_receive(id));
}
