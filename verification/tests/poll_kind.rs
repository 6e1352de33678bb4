use trader::poll_kind::{PollKind, POLLIN, POLLOUT};

#[test]
fn read_then_clear_read_restores_unused() {
    let mut k = PollKind::UNUSED;
    k.read();
    assert_eq!(k, PollKind::RecvMsg);
    assert!(k.is_read());
    assert!(!k.is_write());
    k.clear_read();
    assert_eq!(k, PollKind::UNUSED);
}

#[test]
fn write_on_recv_gives_send_recv() {
    let mut k = PollKind::RecvMsg;
    k.write();
    assert_eq!(k, PollKind::SendRecv);
    assert_eq!(k.as_events().bits, POLLIN | POLLOUT);
}

#[test]
fn read_on_send_recv_drops_write() {
    let mut k = PollKind::SendRecv;
    k.read();
    assert_eq!(k, PollKind::RecvMsg);
}

#[test]
fn clearing_both_leaves_unused() {
    for k in [PollKind::SendMsg, PollKind::RecvMsg, PollKind::SendRecv, PollKind::UNUSED] {
        let mut a = k;
        a.clear_read();
        a.clear_write();
        assert_eq!(a, PollKind::UNUSED);
        let mut b = k;
        b.clear_write();
        b.clear_read();
        assert_eq!(b, PollKind::UNUSED);
    }
}

#[test]
fn events_match_interest() {
    assert_eq!(PollKind::SendMsg.as_events().bits, POLLOUT);
    assert_eq!(PollKind::RecvMsg.as_events().bits, POLLIN);
    assert_eq!(PollKind::UNUSED.as_events().bits, 0);
    assert!(PollKind::SendRecv.is_read() && PollKind::SendRecv.is_write());
    assert!(!PollKind::UNUSED.is_read() && !PollKind::UNUSED.is_write());
    assert!(PollKind::SendMsg.as_events().contains(POLLOUT));
    assert!(!PollKind::SendMsg.as_events().contains(POLLIN));
}

#[test]
fn read_twice_from_send_msg_loses_write() {
    let mut k = PollKind::SendMsg;
    k.read();
    assert_eq!(k, PollKind::SendRecv);
    k.read();
    assert_eq!(k, PollKind::RecvMsg);
}
