use std::collections::VecDeque;
use trader::evented::{ready_by_events, recv_attempt, response_step, send_attempt, AsyncSink, MultipartRequest, MultipartResponse, ResponseStep, SocketSink, SocketStream};
use trader::frames::SocketError;
use trader::message::{Message, Multipart};
use trader::poll_kind::{PollEvents, POLLIN, POLLOUT};
use trader::pollable::{Error, Response};
use trader::send_state::{accept_send, must_flush_before_send, read_recv_answer, read_send_answer, RecvState, SendState, SinkState, Work};
use trader::sink_stream::{CompleteWork, Error as SinkError, MultipartSinkStream, SinkStreamState};
use trader::streams::{
    drop_err, drop_item, ending, set_err, unwrap_err, Async, ControlHandler, ControlledStream, EndHandler, EndingStream,
};

fn mp(b: &[u8]) -> Multipart {
    Multipart::from_message(Message::from_slice(b))
}

#[test]
fn send_state_retries_a_full_send() {
    let mut s: SendState<u8> = SendState::Pending(mp(b"x"));
    match s.begin_flush() {
        Ok(Work::Start(m)) => assert_eq!(m.get(0).unwrap().as_bytes(), b"x"),
        _ => panic!("expected to start"),
    }
    assert!(matches!(s, SendState::Polling));
    assert!(matches!(s.begin_flush(), Err(Error::Polling)));
    assert_eq!(s.settle(1, Async::Ready(Some(mp(b"x")))), Async::NotReady);
    assert!(matches!(s, SendState::Pending(_)));
    let _ = s.begin_flush();
    assert_eq!(s.settle(2, Async::NotReady), Async::NotReady);
    assert!(matches!(s, SendState::Running(2)));
    assert!(matches!(s.begin_flush(), Ok(Work::Resume(2))));
    assert_eq!(s.settle(2, Async::Ready(None)), Async::Ready(()));
    assert!(matches!(s, SendState::Polling));
}

#[test]
fn recv_state_runs_until_ready() {
    let mut r: RecvState<u8> = RecvState::Pending;
    assert!(matches!(r.begin_fetch(), Ok(Work::Start(()))));
    assert!(matches!(r.begin_fetch(), Err(Error::Polling)));
    let mut r: RecvState<u8> = RecvState::Pending;
    let _ = r.begin_fetch();
    assert!(matches!(r.settle(4, Async::NotReady), Async::NotReady));
    assert!(matches!(r.begin_fetch(), Ok(Work::Resume(4))));
    match r.settle(4, Async::Ready(mp(b"m"))) {
        Async::Ready(m) => assert_eq!(m.len(), 1),
        Async::NotReady => panic!("expected the message"),
    }
}

#[test]
fn sink_state_sends_queue_in_order() {
    let mut q: VecDeque<Multipart> = VecDeque::new();
    q.push_back(mp(b"1"));
    q.push_back(mp(b"2"));
    let mut s: SinkState<u8> = SinkState::Pending;
    let first = s.begin_flush(&mut q).unwrap().unwrap();
    match first {
        SendState::Pending(m) => assert_eq!(m.get(0).unwrap().as_bytes(), b"1"),
        _ => panic!("expected the first message"),
    }
    assert!(matches!(s.begin_flush(&mut q), Err(Error::Polling)));
    assert!(!s.settle(SendState::Running(3), false));
    assert!(matches!(s, SinkState::Running(SendState::Running(3))));
    let again = s.begin_flush(&mut q).unwrap().unwrap();
    assert!(s.settle(again, true));
    let second = s.begin_flush(&mut q).unwrap().unwrap();
    assert!(matches!(second, SendState::Pending(_)));
    assert!(s.settle(second, true));
    assert!(s.begin_flush(&mut q).unwrap().is_none());
    assert!(matches!(s, SinkState::Pending));
}

#[test]
fn sink_accepts_unless_flush_stalls() {
    assert!(must_flush_before_send(25, 25));
    assert!(!must_flush_before_send(24, 25));
    let mut q: VecDeque<Multipart> = VecDeque::new();
    assert!(accept_send(&mut q, mp(b"a"), None).is_none());
    assert!(accept_send(&mut q, mp(b"b"), Some(true)).is_none());
    let back = accept_send(&mut q, mp(b"c"), Some(false)).unwrap();
    assert_eq!(back.get(0).unwrap().as_bytes(), b"c");
    assert_eq!(q.len(), 2);
    let mut empty: VecDeque<Multipart> = VecDeque::new();
    assert!(accept_send(&mut empty, mp(b"d"), Some(false)).is_none());
    assert_eq!(empty.len(), 1);
}

#[test]
fn answers_of_the_poll_loop() {
    assert!(matches!(read_send_answer(Response::Sent), Ok(None)));
    assert!(matches!(read_send_answer(Response::Full(mp(b"f"))), Ok(Some(_))));
    assert!(matches!(read_send_answer(Response::Error(Error::Dropped)), Err(Error::Dropped)));
    assert!(matches!(read_recv_answer(Response::Received(mp(b"r"))), Ok(_)));
    assert!(matches!(read_recv_answer(Response::Error(Error::Canceled)), Err(Error::Canceled)));
}

#[test]
fn sink_stream_halves() {
    let mut s: MultipartSinkStream<&str, &str> = MultipartSinkStream::new(25);
    assert_eq!(s.buffer_size(), 25);
    assert!(matches!(s.begin_poll_complete(), Ok(CompleteWork::Done)));
    assert_eq!(s.begin_start_send(), Ok((None, None)));
    s.finish_start_send("sink", None);
    assert!(matches!(s.begin_start_send(), Ok((Some("sink"), None))));
    assert!(matches!(s.begin_start_send(), Err(SinkError::Sink)));
    s.finish_start_send("sink", None);
    assert_eq!(s.begin_poll(), Ok((None, Some("sink"))));
    s.settle_stream("stream", Some("sink"), false);
    assert!(matches!(s.begin_poll_complete(), Ok(CompleteWork::PollSink("sink", Some("stream")))));
    s.settle_sink("sink", Some("stream"), true);
    assert!(matches!(s.begin_poll_complete(), Ok(CompleteWork::Done)));
    assert_eq!(s.begin_poll(), Ok((Some("stream"), None)));
    assert!(matches!(s.begin_poll(), Err(SinkError::Stream)));
    s.settle_stream("stream", None, true);
    assert_eq!(s.begin_poll(), Ok((None, None)));
    let _ = SinkStreamState::<u8, u8>::Ready;
}

struct StopOn(&'static [u8]);

impl EndHandler for StopOn {
    fn stops(&self, multipart: Multipart) -> bool {
        multipart.get(0).map(|m| m.as_bytes() == self.0).unwrap_or(false)
    }

    fn should_stop(&mut self, multipart: &Multipart) -> bool {
        multipart.get(0).map(|m| m.as_bytes() == self.0).unwrap_or(false)
    }
}

struct Always;

impl ControlHandler for Always {
    fn stops(&self, _: Multipart) -> bool {
        true
    }

    fn should_stop(&mut self, _: Multipart) -> bool {
        true
    }
}

struct Never;

impl ControlHandler for Never {
    fn stops(&self, _: Multipart) -> bool {
        false
    }

    fn should_stop(&mut self, _: Multipart) -> bool {
        false
    }
}

#[test]
fn ending_stream_stops_on_message() {
    assert!(matches!(ending(Async::Ready(Some(mp(b"a"))), true), Async::Ready(None)));
    assert!(matches!(ending(Async::Ready(Some(mp(b"a"))), false), Async::Ready(Some(_))));
    assert!(matches!(ending(Async::NotReady, true), Async::NotReady));
    let mut e = EndingStream::new(0u8, StopOn(b"STOP"));
    let r: Result<_, ()> = e.on_poll(Ok(Async::Ready(Some(mp(b"go")))));
    assert!(matches!(r, Ok(Async::Ready(Some(_)))));
    let r: Result<_, ()> = e.on_poll(Ok(Async::Ready(Some(mp(b"STOP")))));
    assert!(matches!(r, Ok(Async::Ready(None))));
    let r: Result<_, u8> = e.on_poll(Err(5));
    assert!(matches!(r, Err(5)));
    *e.stream_mut() = 1;
}

#[test]
fn controlled_stream_stops_on_control() {
    let mut c = ControlledStream::new(0u8, 1u8, Always);
    assert!(!c.should_stop(Async::NotReady));
    assert!(c.should_stop(Async::Ready(None)));
    assert!(c.should_stop(Async::Ready(Some(mp(b"stop")))));
    let mut n = ControlledStream::new(0u8, 1u8, Never);
    assert!(!n.should_stop(Async::Ready(Some(mp(b"go")))));
    assert_eq!(*n.control_mut(), 1);
    assert_eq!(*n.stream_mut(), 0);
}

#[test]
fn future_adapters() {
    let d = drop_err(0u8);
    assert_eq!(d.map_poll::<u8, &str>(Err("boom")), Err(()));
    assert_eq!(d.map_poll::<u8, &str>(Ok(Async::Ready(3))), Ok(Async::Ready(3)));
    let i = drop_item(0u8);
    assert_eq!(i.map_poll::<u8, &str>(Ok(Async::Ready(3))), Ok(Async::Ready(())));
    assert_eq!(i.map_poll::<u8, &str>(Ok(Async::NotReady)), Ok(Async::NotReady));
    assert_eq!(i.map_poll::<u8, &str>(Err("e")), Err("e"));
    let u = unwrap_err(0u8);
    assert_eq!(u.map_poll::<u8, &str>(Ok(Async::Ready(9))), Async::Ready(9));
    let mut s = set_err(0u8, "replaced");
    assert_eq!(s.map_poll::<u8, u32>(Ok(Async::Ready(1))), Ok(Async::Ready(1)));
    assert_eq!(s.map_poll::<u8, u32>(Err(7)), Err("replaced"));
}

#[test]
fn evented_sink_sends_frame_by_frame() {
    let mut s = SocketSink::from_raw(0u8);
    let mut m = Multipart::new();
    m.push_back(Message::from_slice(b"a"));
    m.push_back(Message::from_slice(b"b"));
    assert!(matches!(s.start_send(m), AsyncSink::Ready));
    let busy = s.start_send(mp(b"later"));
    assert!(matches!(busy, AsyncSink::NotReady(_)));
    let (f1, last1) = s.next_frame().unwrap();
    assert_eq!((f1.as_bytes(), last1), (&b"a"[..], false));
    let (f2, last2) = s.next_frame().unwrap();
    assert_eq!((f2.as_bytes(), last2), (&b"b"[..], true));
    s.frame_blocked(f2);
    assert!(!s.is_flushed());
    let (f3, last3) = s.next_frame().unwrap();
    assert_eq!((f3.as_bytes(), last3), (&b"b"[..], true));
    assert!(s.next_frame().is_none());
    assert!(s.is_flushed());
    assert_eq!(*s.sock(), 0);
}

#[test]
fn evented_stream_gathers() {
    let mut s = SocketStream::from_raw(0u8);
    assert!(s.gather(Message::from_slice(b"a"), true).is_none());
    assert_eq!(s.gather(Message::from_slice(b"b"), false).unwrap().len(), 2);
    assert_eq!(*s.sock(), 0);
}

#[test]
fn attempts_and_readiness() {
    assert_eq!(send_attempt(Ok(())), (Ok(Async::Ready(())), false));
    assert_eq!(send_attempt(Err(SocketError::Again)), (Ok(Async::NotReady), true));
    assert_eq!(send_attempt(Err(SocketError::Fsm)), (Err(SocketError::Fsm), false));
    assert!(matches!(recv_attempt(Err(SocketError::Again)), (Ok(Async::NotReady), true)));
    assert!(matches!(recv_attempt(Ok(Message::new())), (Ok(Async::Ready(_)), false)));
    assert!(ready_by_events(true, None, POLLOUT));
    assert!(ready_by_events(false, Some(PollEvents { bits: 3 }), POLLOUT));
    assert!(!ready_by_events(false, Some(PollEvents { bits: POLLIN }), POLLOUT));
}

#[test]
fn response_steps() {
    let mut g = Multipart::new();
    assert!(matches!(response_step(&mut g, true, Async::NotReady), ResponseStep::NotReady));
    assert!(matches!(response_step(&mut g, true, Async::Ready((Message::from_slice(b"a"), true))), ResponseStep::Continue));
    assert!(matches!(response_step(&mut g, false, Async::NotReady), ResponseStep::Continue));
    match response_step(&mut g, false, Async::Ready((Message::from_slice(b"b"), false))) {
        ResponseStep::Complete(m) => assert_eq!(m.len(), 2),
        _ => panic!("expected a complete message"),
    }
    assert!(g.is_empty());
}

#[test]
fn control_errors_pass_through() {
    let mut c = ControlledStream::new(0u8, 1u8, Always);
    assert!(matches!(c.on_control::<u8>(Err(4)), Err(4)));
    assert!(matches!(c.on_control::<u8>(Ok(Async::NotReady)), Ok(false)));
    assert!(matches!(c.on_control::<u8>(Ok(Async::Ready(Some(mp(b"x"))))), Ok(true)));
    let mut n = ControlledStream::new(0u8, 1u8, Never);
    assert!(matches!(n.on_control::<u8>(Ok(Async::Ready(Some(mp(b"x"))))), Ok(false)));
    assert!(matches!(n.on_control::<u8>(Ok(Async::Ready(None))), Ok(true)));
}

#[test]
fn failed_send_leaves_sink_stream_failed() {
    let mut s: MultipartSinkStream<&str, &str> = MultipartSinkStream::new(25);
    assert_eq!(s.begin_start_send(), Ok((None, None)));
    // the sending half failed: nothing is handed back
    assert!(matches!(s.begin_start_send(), Err(SinkError::Sink)));
    assert!(matches!(s.begin_poll_complete(), Err(SinkError::Sink)));
    assert!(matches!(s.begin_poll(), Err(SinkError::Stream)));
    assert!(matches!(s.begin_start_send(), Err(SinkError::Sink)));
}

#[test]
fn request_future_is_refused_once_done() {
    let mut f = MultipartRequest::new("sock", mp(b"out"));
    let sock = f.begin().unwrap();
    assert_eq!(f.multipart_mut().pop_front().unwrap().as_bytes(), b"out");
    f.pending(sock);
    assert_eq!(f.begin(), Ok("sock"));
    assert_eq!(f.begin(), Err(SinkError::Reused));
}

#[test]
fn response_future_is_refused_once_done() {
    let mut f = MultipartResponse::new(3u8);
    assert_eq!(f.begin(), Ok(3));
    f.multipart_mut().push_back(Message::from_slice(b"in"));
    f.pending(3);
    assert_eq!(f.multipart_mut().len(), 1);
    assert_eq!(f.begin(), Ok(3));
    assert_eq!(f.begin(), Err(SinkError::Reused));
}
