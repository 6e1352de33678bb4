use trader::frames::{
    after_frame_send, gather_frame, next_send_frame, receive_outcome, send_flags, send_outcome, FrameStep,
    SocketError, DONTWAIT, SNDMORE,
};
use trader::message::{Message, Multipart};

fn bytes(mp: &Multipart) -> Vec<Vec<u8>> {
    let mut out = Vec::new();
    let mut i = 0;
    while let Some(m) = mp.get(i) {
        out.push(m.as_bytes().to_vec());
        i += 1;
    }
    out
}

fn mp_of(parts: &[&[u8]]) -> Multipart {
    let mut mp = Multipart::new();
    for p in parts {
        mp.push_back(Message::from_slice(p));
    }
    mp
}

#[test]
fn message_from_slice_and_len() {
    let m = Message::from_slice(b"Hello");
    assert_eq!(m.as_bytes(), b"Hello");
    assert_eq!(m.len(), 5);
    assert!(!m.is_empty());
    assert!(Message::new().is_empty());
    assert_eq!(m.duplicate().as_bytes(), b"Hello");
    assert_eq!(Message::from_vec(vec![1, 2]).into_bytes(), vec![1, 2]);
}

#[test]
fn multipart_deque_operations() {
    let mut mp = Multipart::from_message(Message::from_slice(b"b"));
    mp.push_front(Message::from_slice(b"a"));
    mp.push_back(Message::from_slice(b"c"));
    assert_eq!(mp.len(), 3);
    assert_eq!(bytes(&mp), vec![b"a".to_vec(), b"b".to_vec(), b"c".to_vec()]);
    assert!(mp.get(3).is_none());
    assert_eq!(mp.pop_back().unwrap().as_bytes(), b"c");
    assert_eq!(mp.pop_front().unwrap().as_bytes(), b"a");
    assert_eq!(mp.pop_front().unwrap().as_bytes(), b"b");
    assert!(mp.pop_front().is_none());
    assert!(mp.pop_back().is_none());
    assert!(mp.is_empty());
}

#[test]
fn multipart_vec_round_trip() {
    let mp = Multipart::from_vec(vec![Message::from_slice(b"x"), Message::from_slice(b"y")]);
    let v = mp.into_vec();
    assert_eq!(v.len(), 2);
    assert_eq!(v[0].as_bytes(), b"x");
    assert_eq!(v[1].as_bytes(), b"y");
    let d = Multipart::from_vec(v).into_inner();
    assert_eq!(d.len(), 2);
}

#[test]
fn send_flags_mark_all_but_last() {
    assert_eq!(send_flags(true), DONTWAIT);
    assert_eq!(send_flags(false), DONTWAIT | SNDMORE);
    assert_eq!(send_flags(false), 3);
}

#[test]
fn frames_sent_in_order_with_sndmore() {
    let mut mp = mp_of(&[b"a", b"b", b"c"]);
    let (m1, f1) = next_send_frame(&mut mp).unwrap();
    let (m2, f2) = next_send_frame(&mut mp).unwrap();
    let (m3, f3) = next_send_frame(&mut mp).unwrap();
    assert!(next_send_frame(&mut mp).is_none());
    assert_eq!((m1.as_bytes(), f1), (&b"a"[..], 3));
    assert_eq!((m2.as_bytes(), f2), (&b"b"[..], 3));
    assert_eq!((m3.as_bytes(), f3), (&b"c"[..], 1));
}

#[test]
fn gathering_completes_one_message() {
    let mut g = Multipart::new();
    assert!(gather_frame(&mut g, Message::from_slice(b"a"), true).is_none());
    assert!(gather_frame(&mut g, Message::from_slice(b"b"), true).is_none());
    let done = gather_frame(&mut g, Message::from_slice(b"c"), false).unwrap();
    assert_eq!(bytes(&done), vec![b"a".to_vec(), b"b".to_vec(), b"c".to_vec()]);
    assert!(g.is_empty());
    let single = gather_frame(&mut g, Message::from_slice(b"z"), false).unwrap();
    assert_eq!(bytes(&single), vec![b"z".to_vec()]);
}

#[test]
fn outcomes_of_socket_calls() {
    assert_eq!(receive_outcome(Ok(Message::from_slice(b"q"))).unwrap().unwrap().as_bytes(), b"q");
    assert!(receive_outcome(Err(SocketError::Again)).unwrap().is_none());
    assert_eq!(receive_outcome(Err(SocketError::Fsm)).err(), Some(SocketError::Fsm));
    assert!(send_outcome(Ok(()), Message::new()).unwrap().is_none());
    assert_eq!(send_outcome(Err(SocketError::Again), Message::from_slice(b"k")).unwrap().unwrap().as_bytes(), b"k");
    assert_eq!(send_outcome(Err(SocketError::Other(4)), Message::new()).err(), Some(SocketError::Other(4)));
}

#[test]
fn blocked_frame_goes_back_first() {
    let mut rest = mp_of(&[b"b"]);
    assert_eq!(after_frame_send(&mut rest, Ok(None)), FrameStep::Continue);
    assert_eq!(rest.len(), 1);
    assert_eq!(after_frame_send(&mut rest, Ok(Some(Message::from_slice(b"a")))), FrameStep::Blocked);
    assert_eq!(bytes(&rest), vec![b"a".to_vec(), b"b".to_vec()]);
    assert_eq!(after_frame_send(&mut rest, Err(SocketError::Fsm)), FrameStep::Failed(SocketError::Fsm));
}
