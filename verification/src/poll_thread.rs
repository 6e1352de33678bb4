//! The decisions of the socket poll loop: the table of sockets it owns, how
//! each request from a socket's owner changes that table and who is answered,
//! and in which order ready sockets are served after a poll.
use vstd::prelude::*;
use std::collections::BTreeMap;
use vstd::std_specs::btree::{increasing_seq, spec_keys_iter};
use vstd::std_specs::cmp::OrdSpec;
use vstd::std_specs::iter::IteratorSpec;
use crate::frames::SocketError;
use crate::message::{Message, Multipart};
use crate::pollable::{
    fetch_step, flush_step, gather_step, outbound_taken, Error, FlushStep, Pollable, Response,
    OUTBOUND_CAPACITY,
};
use crate::poll_kind::{kind_reads, kind_writes, spec_read, spec_write, PollKind};

verus! {

broadcast use vstd::laws_cmp::group_laws_cmp;

/// A request to the poll loop. `S` is a socket, `RI` the handle that
/// answers an `Init` with the new socket's number, `R` the handle that
/// answers a send or a receive.
pub enum Request<S, RI, R> {
    /// Take over a socket.
    Init(S, RI),
    /// Send a multipart message on a socket.
    SendMessage(usize, Multipart, R),
    /// Receive a multipart message from a socket.
    ReceiveMessage(usize, R),
    /// Give up a socket.
    DropSocket(usize),
    /// Stop serving sockets.
    Done,
}

/// An answer to a requester.
pub enum Reply<RI, R> {
    /// The socket taken over got this number.
    Initialized(RI, usize),
    /// The answer to a send or a receive.
    Respond(R, Response),
}

/// Socket work the loop does right after handling a request.
pub enum FollowUp<R> {
    Nothing,
    /// Send what is queued on the socket.
    Flush(usize),
    /// Receive for the requester waiting on the socket.
    Fetch(usize),
    /// The socket's queue was full: send what is queued, then queue the
    /// message again with `requeue`.
    FlushThenRequeue(usize, Multipart, R),
}

/// What handling one request gives: answers to send, and socket work to do.
pub struct Handled<RI, R> {
    pub replies: Vec<Reply<RI, R>>,
    pub follow_up: FollowUp<R>,
}

/// Work chosen after a poll: send on a socket, or receive from it.
#[derive(Clone, Copy, PartialEq, Eq, Structural, Debug)]
pub enum Action {
    Snd(usize),
    Rcv(usize),
}

/// How long a poll waits, in milliseconds, when requests are already pending.
pub const BUSY_POLL_TIMEOUT_MS: i64 = 0;

/// How long a poll waits, in milliseconds, when no request is pending.
pub const IDLE_POLL_TIMEOUT_MS: i64 = 50;

/// The poll loop's state: the number the next socket gets, whether it is
/// stopping, and its sockets by number.
pub struct PollThread<S, R> {
    next_sock_id: usize,
    should_stop: bool,
    sockets: BTreeMap<usize, Pollable<S, R>>,
}

/// `p` is a socket just taken over: socket `s`, number `id`, nothing queued or
/// gathered, nobody waiting, no interest.
pub open spec fn is_fresh<S, R>(p: Pollable<S, R>, s: S, id: usize) -> bool {
    &&& p.socket() == s
    &&& p.sock_id() == id
    &&& p.interest() == PollKind::UNUSED
    &&& p.outbound_queue() == Seq::<Multipart>::empty()
    &&& p.inbound_frames() == Seq::<Message>::empty()
    &&& p.pending_send() is None
    &&& p.pending_recv() is None
}

/// `p1` is `p0` with requester `r` waiting for a receive and readability
/// started.
pub open spec fn recv_started<S, R>(p0: Pollable<S, R>, p1: Pollable<S, R>, r: R) -> bool {
    &&& p1.socket() == p0.socket()
    &&& p1.sock_id() == p0.sock_id()
    &&& p1.outbound_queue() == p0.outbound_queue()
    &&& p1.inbound_frames() == p0.inbound_frames()
    &&& p1.pending_send() == p0.pending_send()
    &&& p1.pending_recv() == Some(r)
    &&& p1.interest() == spec_read(p0.interest())
}

/// `p1` is `p0` with `mp` queued, requester `r` waiting for the send, and
/// writability started.
pub open spec fn send_queued<S, R>(p0: Pollable<S, R>, p1: Pollable<S, R>, mp: Multipart, r: R) -> bool {
    &&& p1.socket() == p0.socket()
    &&& p1.sock_id() == p0.sock_id()
    &&& p1.outbound_queue() == p0.outbound_queue().push(mp)
    &&& p1.inbound_frames() == p0.inbound_frames()
    &&& p1.pending_recv() == p0.pending_recv()
    &&& p1.pending_send() == Some(r)
    &&& p1.interest() == spec_write(p0.interest())
}

/// The answers owed to the requesters waiting on a socket that goes away:
/// first the send requester, then the receive requester, each told the
/// socket was dropped.
pub open spec fn dropped_replies<S, RI, R>(p: Pollable<S, R>) -> Seq<Reply<RI, R>> {
    let s = match p.pending_send() {
        Some(r) => seq![Reply::Respond(r, Response::Error(Error::Dropped))],
        None => Seq::empty(),
    };
    let v = match p.pending_recv() {
        Some(r) => seq![Reply::Respond(r, Response::Error(Error::Dropped))],
        None => Seq::empty(),
    };
    s + v
}

/// Whether a reply is the answer "the socket was dropped" to `r`.
pub open spec fn is_dropped_reply<RI, R>(reply: Reply<RI, R>, r: R) -> bool {
    reply matches Reply::Respond(r2, Response::Error(Error::Dropped)) && r2 == r
}

impl<S, R> PollThread<S, R> {
    /// The number the next socket taken over gets.
    pub closed spec fn next_id(&self) -> usize {
        self.next_sock_id
    }

    /// Whether the loop is stopping.
    pub closed spec fn stopping(&self) -> bool {
        self.should_stop
    }

    /// The sockets, by number.
    pub closed spec fn table(&self) -> Map<usize, Pollable<S, R>> {
        self.sockets@
    }

    /// Each socket is filed under its own number, which is below the next
    /// number to give out.
    pub open spec fn wf(&self) -> bool {
        forall|k: usize|
            #[trigger] self.table().contains_key(k) ==> self.table()[k].sock_id() == k && k
                < self.next_id()
    }

    /// Handling `req` does not overwrite a waiting requester (which the
    /// loop refuses by panicking) and does not run out of socket numbers.
    pub open spec fn admissible<RI>(&self, req: &Request<S, RI, R>) -> bool {
        match req {
            Request::Init(_, _) => self.next_id() < usize::MAX,
            Request::SendMessage(id, _, _) => !self.stopping() && self.table().contains_key(*id)
                && self.table()[*id].outbound_queue().len() < OUTBOUND_CAPACITY
                ==> self.table()[*id].pending_send() is None,
            Request::ReceiveMessage(id, _) => !self.stopping() && self.table().contains_key(*id)
                ==> self.table()[*id].pending_recv() is None,
            _ => true,
        }
    }

    /// What handling `req` while serving sockets does (see `handle_request`).
    pub open spec fn handled<RI>(
        old_t: Self,
        new_t: Self,
        req: Request<S, RI, R>,
        out: Handled<RI, R>,
    ) -> bool {
        match req {
            Request::Init(s, ri) => {
                &&& new_t.next_id() == old_t.next_id() + 1
                &&& new_t.stopping() == old_t.stopping()
                &&& new_t.table().contains_key(old_t.next_id())
                &&& is_fresh(new_t.table()[old_t.next_id()], s, old_t.next_id())
                &&& new_t.table().remove(old_t.next_id()) == old_t.table()
                &&& out.replies@.len() == 1
                &&& out.replies@[0] matches Reply::Initialized(ri2, id) && ri2 == ri && id == old_t.next_id()
                &&& out.follow_up is Nothing
            },
            Request::SendMessage(id, mp, r) => {
                &&& new_t.next_id() == old_t.next_id()
                &&& new_t.stopping() == old_t.stopping()
                &&& if !old_t.table().contains_key(id) {
                    &&& new_t.table() == old_t.table()
                    &&& out.replies@.len() == 1
                    &&& is_dropped_reply(out.replies@[0], r)
                    &&& out.follow_up is Nothing
                } else if old_t.table()[id].outbound_queue().len() < OUTBOUND_CAPACITY {
                    &&& new_t.table().contains_key(id)
                    &&& new_t.table().remove(id) == old_t.table().remove(id)
                    &&& send_queued(old_t.table()[id], new_t.table()[id], mp, r)
                    &&& out.replies@.len() == 0
                    &&& out.follow_up matches FollowUp::Flush(fid) && fid == id
                } else {
                    &&& new_t.table() == old_t.table()
                    &&& out.replies@.len() == 0
                    &&& out.follow_up matches FollowUp::FlushThenRequeue(fid, m, r2) && fid == id && m == mp && r2 == r
                }
            },
            Request::ReceiveMessage(id, r) => {
                &&& new_t.next_id() == old_t.next_id()
                &&& new_t.stopping() == old_t.stopping()
                &&& if !old_t.table().contains_key(id) {
                    &&& new_t.table() == old_t.table()
                    &&& out.replies@.len() == 1
                    &&& is_dropped_reply(out.replies@[0], r)
                    &&& out.follow_up is Nothing
                } else {
                    &&& new_t.table().contains_key(id)
                    &&& new_t.table().remove(id) == old_t.table().remove(id)
                    &&& recv_started(old_t.table()[id], new_t.table()[id], r)
                    &&& out.replies@.len() == 0
                    &&& out.follow_up matches FollowUp::Fetch(fid) && fid == id
                }
            },
            Request::DropSocket(id) => Self::socket_dropped(old_t, new_t, id, out),
            Request::Done => {
                &&& new_t.next_id() == old_t.next_id()
                &&& new_t.stopping()
                &&& new_t.table() == old_t.table()
                &&& out.replies@.len() == 0
                &&& out.follow_up is Nothing
            },
        }
    }

    /// Socket `id` is given up: it leaves the table, and its waiting
    /// requesters are told it was dropped.
    pub open spec fn socket_dropped<RI>(old_t: Self, new_t: Self, id: usize, out: Handled<RI, R>) -> bool {
        &&& new_t.next_id() == old_t.next_id()
        &&& new_t.stopping() == old_t.stopping()
        &&& new_t.table() == old_t.table().remove(id)
        &&& out.follow_up is Nothing
        &&& if old_t.table().contains_key(id) {
            out.replies@ == dropped_replies::<S, RI, R>(old_t.table()[id])
        } else {
            out.replies@.len() == 0
        }
    }

    /// What handling `req` while stopping does (see `respond_stopping`).
    pub open spec fn handled_stopping<RI>(
        old_t: Self,
        new_t: Self,
        req: Request<S, RI, R>,
        out: Handled<RI, R>,
    ) -> bool {
        match req {
            Request::Init(_, ri) => {
                &&& new_t.next_id() == old_t.next_id() + 1
                &&& new_t.stopping() == old_t.stopping()
                &&& new_t.table() == old_t.table()
                &&& out.replies@.len() == 1
                &&& out.replies@[0] matches Reply::Initialized(ri2, id) && ri2 == ri && id == old_t.next_id()
                &&& out.follow_up is Nothing
            },
            Request::SendMessage(_, _, r) | Request::ReceiveMessage(_, r) => {
                &&& new_t.next_id() == old_t.next_id()
                &&& new_t.stopping() == old_t.stopping()
                &&& new_t.table() == old_t.table()
                &&& out.replies@.len() == 1
                &&& is_dropped_reply(out.replies@[0], r)
                &&& out.follow_up is Nothing
            },
            Request::DropSocket(id) => Self::socket_dropped(old_t, new_t, id, out),
            Request::Done => {
                &&& new_t.next_id() == old_t.next_id()
                &&& new_t.stopping()
                &&& new_t.table() == old_t.table()
                &&& out.replies@.len() == 0
                &&& out.follow_up is Nothing
            },
        }
    }

    /// A loop with no socket, giving out number 0 first.
    pub fn new() -> (t: Self)
        ensures
            t.wf(),
            t.next_id() == 0,
            !t.stopping(),
            t.table() == Map::<usize, Pollable<S, R>>::empty(),
    {
        PollThread { next_sock_id: 0, should_stop: false, sockets: BTreeMap::new() }
    }

    /// The number the next socket taken over gets.
    pub fn next_sock_id(&self) -> (n: usize)
        ensures
            n == self.next_id(),
    {
        self.next_sock_id
    }

    /// Whether the loop is stopping.
    pub fn is_stopping(&self) -> (b: bool)
        ensures
            b == self.stopping(),
    {
        self.should_stop
    }

    /// Whether socket `id` is in the table.
    pub fn contains(&self, id: usize) -> (b: bool)
        ensures
            b == self.table().contains_key(id),
    {
        self.sockets.contains_key(&id)
    }

    /// Socket `id`, if it is in the table.
    pub fn socket(&self, id: usize) -> (s: Option<&S>)
        ensures
            self.table().contains_key(id) ==> s == Some(&self.table()[id].socket()),
            !self.table().contains_key(id) ==> s is None,
    {
        match self.sockets.get(&id) {
            Some(p) => Some(p.sock()),
            None => None,
        }
    }

    /// What socket `id` waits for, if it is in the table.
    pub fn interest_of(&self, id: usize) -> (k: Option<PollKind>)
        ensures
            self.table().contains_key(id) ==> k == Some(self.table()[id].interest()),
            !self.table().contains_key(id) ==> k is None,
    {
        match self.sockets.get(&id) {
            Some(p) => Some(p.kind()),
            None => None,
        }
    }

    /// Whether handling `req` is admissible.
    pub fn can_handle<RI>(&self, req: &Request<S, RI, R>) -> (b: bool)
        ensures
            b == self.admissible(req),
    {
        match req {
            Request::Init(_, _) => self.next_sock_id < usize::MAX,
            Request::SendMessage(id, _, _) => match self.sockets.get(id) {
                Some(p) => self.should_stop || p.outbound_len() >= OUTBOUND_CAPACITY || !p.has_send_responder(),
                None => true,
            },
            Request::ReceiveMessage(id, _) => match self.sockets.get(id) {
                Some(p) => self.should_stop || !p.has_recv_responder(),
                None => true,
            },
            _ => true,
        }
    }

    /// Whether a message can be queued again on socket `id` with `requeue`
    /// without overwriting a waiting send requester.
    pub fn can_requeue(&self, id: usize) -> (b: bool)
        ensures
            b == (self.table().contains_key(id) && self.table()[id].outbound_queue().len()
                < OUTBOUND_CAPACITY ==> self.table()[id].pending_send() is None),
    {
        match self.sockets.get(&id) {
            Some(p) => p.outbound_len() >= OUTBOUND_CAPACITY || !p.has_send_responder(),
            None => true,
        }
    }

    /// Give up socket `id`: it leaves the table, and its waiting requesters
    /// are told it was dropped.
    fn drop_socket<RI>(&mut self, id: usize) -> (out: Handled<RI, R>)
        requires
            old(self).wf(),
        ensures
            final(self).wf(),
            Self::socket_dropped(*old(self), *final(self), id, out),
    {
        let mut replies: Vec<Reply<RI, R>> = Vec::new();
        let removed = self.sockets.remove(&id);
        assert(self.table() =~= old(self).table().remove(id));
        match removed {
            Some(mut p) => {
                let ghost p0 = p;
                match p.send_responder() {
                    Some(r) => replies.push(Reply::Respond(r, Response::Error(Error::Dropped))),
                    None => {},
                }
                match p.recv_responder() {
                    Some(r) => replies.push(Reply::Respond(r, Response::Error(Error::Dropped))),
                    None => {},
                }
                assert(replies@ =~= dropped_replies::<S, RI, R>(p0));
            },
            None => {},
        }
        Handled { replies, follow_up: FollowUp::Nothing }
    }

    /// Handle a request while serving sockets. `Init` files the socket under
    /// the next number and answers with it. `SendMessage` to a socket that is
    /// not there answers "dropped"; otherwise the message is queued, the
    /// requester waits, writability starts, and the queue is to be flushed;
    /// when the queue is full, the queue is to be flushed first and the
    /// message queued again. `ReceiveMessage` to a missing socket answers
    /// "dropped"; otherwise the requester waits, readability starts, and a
    /// receive is to be tried. `DropSocket` gives the socket up. `Done` makes
    /// the loop stop.
    pub fn handle_request<RI>(&mut self, req: Request<S, RI, R>) -> (out: Handled<RI, R>)
        requires
            old(self).wf(),
            !old(self).stopping(),
            old(self).admissible(&req),
        ensures
            final(self).wf(),
            Self::handled(*old(self), *final(self), req, out),
    {
        match req {
            Request::Init(sock, responder) => {
                let id = self.next_sock_id;
                let p = Pollable::new(sock, id);
                self.sockets.insert(id, p);
                self.next_sock_id = id + 1;
                let mut replies: Vec<Reply<RI, R>> = Vec::new();
                replies.push(Reply::Initialized(responder, id));
                proof {
                    assert(!old(self).table().contains_key(id));
                    assert(self.table().remove(id) =~= old(self).table());
                }
                Handled { replies, follow_up: FollowUp::Nothing }
            },
            Request::SendMessage(id, message, responder) => {
                match self.sockets.remove(&id) {
                    Some(mut p) => {
                        let ghost p0 = p;
                        if p.outbound_len() < OUTBOUND_CAPACITY {
                            let _ = p.queue_message(message);
                            p.write();
                            p.set_send_responder(responder);
                            self.sockets.insert(id, p);
                            proof {
                                assert(self.table().remove(id) =~= old(self).table().remove(id));
                            }
                            Handled { replies: Vec::new(), follow_up: FollowUp::Flush(id) }
                        } else {
                            self.sockets.insert(id, p);
                            proof {
                                assert(self.table() =~= old(self).table());
                            }
                            Handled {
                                replies: Vec::new(),
                                follow_up: FollowUp::FlushThenRequeue(id, message, responder),
                            }
                        }
                    },
                    None => {
                        assert(self.table() =~= old(self).table());
                        let mut replies: Vec<Reply<RI, R>> = Vec::new();
                        replies.push(Reply::Respond(responder, Response::Error(Error::Dropped)));
                        Handled { replies, follow_up: FollowUp::Nothing }
                    },
                }
            },
            Request::ReceiveMessage(id, responder) => {
                match self.sockets.remove(&id) {
                    Some(mut p) => {
                        p.set_recv_responder(responder);
                        p.read();
                        self.sockets.insert(id, p);
                        proof {
                            assert(self.table().remove(id) =~= old(self).table().remove(id));
                        }
                        Handled { replies: Vec::new(), follow_up: FollowUp::Fetch(id) }
                    },
                    None => {
                        assert(self.table() =~= old(self).table());
                        let mut replies: Vec<Reply<RI, R>> = Vec::new();
                        replies.push(Reply::Respond(responder, Response::Error(Error::Dropped)));
                        Handled { replies, follow_up: FollowUp::Nothing }
                    },
                }
            },
            Request::DropSocket(id) => self.drop_socket(id),
            Request::Done => {
                self.should_stop = true;
                Handled { replies: Vec::new(), follow_up: FollowUp::Nothing }
            },
        }
    }

    /// Handle a request while stopping: `Init` still gives out a number (the
    /// socket is not kept), sends and receives are answered "dropped",
    /// `DropSocket` gives the socket up, `Done` keeps the loop stopping.
    pub fn respond_stopping<RI>(&mut self, req: Request<S, RI, R>) -> (out: Handled<RI, R>)
        requires
            old(self).wf(),
            old(self).admissible(&req),
        ensures
            final(self).wf(),
            Self::handled_stopping(*old(self), *final(self), req, out),
    {
        match req {
            Request::Init(_sock, responder) => {
                let id = self.next_sock_id;
                self.next_sock_id = id + 1;
                let mut replies: Vec<Reply<RI, R>> = Vec::new();
                replies.push(Reply::Initialized(responder, id));
                Handled { replies, follow_up: FollowUp::Nothing }
            },
            Request::SendMessage(_id, _msg, responder) => {
                let mut replies: Vec<Reply<RI, R>> = Vec::new();
                replies.push(Reply::Respond(responder, Response::Error(Error::Dropped)));
                Handled { replies, follow_up: FollowUp::Nothing }
            },
            Request::ReceiveMessage(_id, responder) => {
                let mut replies: Vec<Reply<RI, R>> = Vec::new();
                replies.push(Reply::Respond(responder, Response::Error(Error::Dropped)));
                Handled { replies, follow_up: FollowUp::Nothing }
            },
            Request::DropSocket(id) => self.drop_socket(id),
            Request::Done => {
                self.should_stop = true;
                Handled { replies: Vec::new(), follow_up: FollowUp::Nothing }
            },
        }
    }

    /// Handle one request from a socket's owner, as `handle_request` does
    /// while serving and as `respond_stopping` does while stopping.
    pub fn receive<RI>(&mut self, req: Request<S, RI, R>) -> (out: Handled<RI, R>)
        requires
            old(self).wf(),
            old(self).admissible(&req),
        ensures
            final(self).wf(),
            !old(self).stopping() ==> Self::handled(*old(self), *final(self), req, out),
            old(self).stopping() ==> Self::handled_stopping(*old(self), *final(self), req, out),
    {
        if !self.should_stop {
            self.handle_request(req)
        } else {
            self.respond_stopping(req)
        }
    }

    /// Queue again a message whose queue was full, after the queue was
    /// flushed: if socket `id` is gone, answer "dropped"; if its queue is
    /// still full, hand the message back with "full"; otherwise queue it,
    /// let the requester wait, start writability, and flush.
    pub fn requeue<RI>(&mut self, id: usize, message: Multipart, responder: R) -> (out: Handled<RI, R>)
        requires
            old(self).wf(),
            old(self).table().contains_key(id) && old(self).table()[id].outbound_queue().len()
                < OUTBOUND_CAPACITY ==> old(self).table()[id].pending_send() is None,
        ensures
            final(self).wf(),
            final(self).next_id() == old(self).next_id(),
            final(self).stopping() == old(self).stopping(),
            if !old(self).table().contains_key(id) {
                &&& final(self).table() == old(self).table()
                &&& out.replies@.len() == 1
                &&& is_dropped_reply(out.replies@[0], responder)
                &&& out.follow_up is Nothing
            } else if old(self).table()[id].outbound_queue().len() < OUTBOUND_CAPACITY {
                &&& final(self).table().contains_key(id)
                &&& final(self).table().remove(id) == old(self).table().remove(id)
                &&& send_queued(old(self).table()[id], final(self).table()[id], message, responder)
                &&& out.replies@.len() == 0
                &&& out.follow_up matches FollowUp::Flush(fid) && fid == id
            } else {
                &&& final(self).table() == old(self).table()
                &&& out.replies@.len() == 1
                &&& out.replies@[0] matches Reply::Respond(r, Response::Full(m)) && r == responder && m == message
                &&& out.follow_up is Nothing
            },
    {
        let removed = self.sockets.remove(&id);
        match removed {
            Some(mut p) => {
                if p.outbound_len() < OUTBOUND_CAPACITY {
                    let _ = p.queue_message(message);
                    p.write();
                    p.set_send_responder(responder);
                    self.sockets.insert(id, p);
                    proof {
                        assert(self.table().remove(id) =~= old(self).table().remove(id));
                    }
                    Handled { replies: Vec::new(), follow_up: FollowUp::Flush(id) }
                } else {
                    self.sockets.insert(id, p);
                    proof {
                        assert(self.table() =~= old(self).table());
                    }
                    let mut replies: Vec<Reply<RI, R>> = Vec::new();
                    replies.push(Reply::Respond(responder, Response::Full(message)));
                    Handled { replies, follow_up: FollowUp::Nothing }
                }
            },
            None => {
                assert(self.table() =~= old(self).table());
                let mut replies: Vec<Reply<RI, R>> = Vec::new();
                replies.push(Reply::Respond(responder, Response::Error(Error::Dropped)));
                Handled { replies, follow_up: FollowUp::Nothing }
            },
        }
    }

    /// Take the next queued message of socket `id` to send, if the socket is
    /// there and something is queued.
    pub fn next_outbound(&mut self, id: usize) -> (r: Option<Multipart>)
        requires
            old(self).wf(),
        ensures
            final(self).wf(),
            final(self).next_id() == old(self).next_id(),
            final(self).stopping() == old(self).stopping(),
            !old(self).table().contains_key(id) ==> r is None && final(self).table() == old(self).table(),
            old(self).table().contains_key(id) ==> {
                &&& final(self).table().contains_key(id)
                &&& final(self).table().remove(id) == old(self).table().remove(id)
                &&& outbound_taken(old(self).table()[id], final(self).table()[id], r)
            },
    {
        let removed = self.sockets.remove(&id);
        match removed {
            Some(mut p) => {
                let r = p.next_outbound();
                self.sockets.insert(id, p);
                proof {
                    assert(self.table().remove(id) =~= old(self).table().remove(id));
                }
                r
            },
            None => {
                assert(self.table() =~= old(self).table());
                None
            },
        }
    }

    /// Take the outcome of sending the message last taken from socket `id`
    /// (see `flush_step`); a missing socket ends the flush. A send that would
    /// block is reported by handing the rest of the message back, never as
    /// an error.
    pub fn after_flush_send(&mut self, id: usize, outcome: Result<Option<Multipart>, SocketError>) -> (step: FlushStep<R>)
        requires
            old(self).wf(),
            !(outcome matches Err(SocketError::Again)),
        ensures
            final(self).wf(),
            final(self).next_id() == old(self).next_id(),
            final(self).stopping() == old(self).stopping(),
            !old(self).table().contains_key(id) ==> step.done && step.reply is None && final(self).table() == old(self).table(),
            old(self).table().contains_key(id) ==> {
                &&& final(self).table().contains_key(id)
                &&& final(self).table().remove(id) == old(self).table().remove(id)
                &&& flush_step(old(self).table()[id], final(self).table()[id], outcome, step)
            },
    {
        let removed = self.sockets.remove(&id);
        match removed {
            Some(mut p) => {
                let step = p.after_flush_send(outcome);
                self.sockets.insert(id, p);
                proof {
                    assert(self.table().remove(id) =~= old(self).table().remove(id));
                }
                step
            },
            None => {
                assert(self.table() =~= old(self).table());
                FlushStep { reply: None, done: true }
            },
        }
    }

    /// Whether a requester waits for a receive on socket `id`.
    pub fn awaits_receive(&self, id: usize) -> (b: bool)
        ensures
            b == (self.table().contains_key(id) && self.table()[id].pending_recv() is Some),
    {
        match self.sockets.get(&id) {
            Some(p) => p.has_recv_responder(),
            None => false,
        }
    }

    /// Whether frames of an incoming message of socket `id` have arrived and
    /// the message is not complete.
    pub fn has_partial_inbound(&self, id: usize) -> (b: bool)
        ensures
            b == (self.table().contains_key(id) && self.table()[id].inbound_frames().len() > 0),
    {
        match self.sockets.get(&id) {
            Some(p) => p.has_partial_inbound(),
            None => false,
        }
    }

    /// Add a frame received on socket `id` to its incoming message (see
    /// `gather_step`); nothing happens for a missing socket.
    pub fn gather(&mut self, id: usize, msg: Message, more: bool) -> (r: Option<Multipart>)
        requires
            old(self).wf(),
        ensures
            final(self).wf(),
            final(self).next_id() == old(self).next_id(),
            final(self).stopping() == old(self).stopping(),
            !old(self).table().contains_key(id) ==> r is None && final(self).table() == old(self).table(),
            old(self).table().contains_key(id) ==> {
                &&& final(self).table().contains_key(id)
                &&& final(self).table().remove(id) == old(self).table().remove(id)
                &&& gather_step(old(self).table()[id], final(self).table()[id], msg, more, r)
            },
    {
        let removed = self.sockets.remove(&id);
        match removed {
            Some(mut p) => {
                let r = p.gather(msg, more);
                self.sockets.insert(id, p);
                proof {
                    assert(self.table().remove(id) =~= old(self).table().remove(id));
                }
                r
            },
            None => {
                assert(self.table() =~= old(self).table());
                None
            },
        }
    }

    /// Take the outcome of a receive attempt on socket `id` for its waiting
    /// requester (see `fetch_step`); with no such socket, or nobody waiting,
    /// nothing happens.
    pub fn after_fetch(&mut self, id: usize, outcome: Result<Option<Multipart>, SocketError>) -> (reply: Option<(R, Response)>)
        requires
            old(self).wf(),
        ensures
            final(self).wf(),
            final(self).next_id() == old(self).next_id(),
            final(self).stopping() == old(self).stopping(),
            !old(self).table().contains_key(id) ==> reply is None && final(self).table() == old(self).table(),
            old(self).table().contains_key(id) ==> {
                &&& final(self).table().contains_key(id)
                &&& final(self).table().remove(id) == old(self).table().remove(id)
                &&& fetch_step(old(self).table()[id], final(self).table()[id], outcome, reply)
            },
    {
        let removed = self.sockets.remove(&id);
        match removed {
            Some(mut p) => {
                let reply = p.after_fetch(outcome);
                self.sockets.insert(id, p);
                proof {
                    assert(self.table().remove(id) =~= old(self).table().remove(id));
                }
                reply
            },
            None => {
                assert(self.table() =~= old(self).table());
                None
            },
        }
    }

    /// Take out the requester waiting for a send on socket `id`, if any.
    pub fn take_send_responder(&mut self, id: usize) -> (r: Option<R>)
        requires
            old(self).wf(),
        ensures
            final(self).wf(),
            final(self).next_id() == old(self).next_id(),
            final(self).stopping() == old(self).stopping(),
            final(self).table().dom() == old(self).table().dom(),
            final(self).table().remove(id) == old(self).table().remove(id),
            old(self).table().contains_key(id) ==> {
                &&& r == old(self).table()[id].pending_send()
                &&& final(self).table()[id].pending_send() is None
                &&& old(self).table()[id].same_queues(&final(self).table()[id])
                &&& final(self).table()[id].interest() == old(self).table()[id].interest()
            },
            !old(self).table().contains_key(id) ==> r is None,
    {
        let removed = self.sockets.remove(&id);
        match removed {
            Some(mut p) => {
                let r = p.send_responder();
                self.sockets.insert(id, p);
                proof {
                    assert(self.table().remove(id) =~= old(self).table().remove(id));
                    assert(self.table().dom() =~= old(self).table().dom());
                }
                r
            },
            None => {
                assert(self.table() =~= old(self).table());
                None
            },
        }
    }

    /// Take out the requester waiting for a receive on socket `id`, if any.
    pub fn take_recv_responder(&mut self, id: usize) -> (r: Option<R>)
        requires
            old(self).wf(),
        ensures
            final(self).wf(),
            final(self).next_id() == old(self).next_id(),
            final(self).stopping() == old(self).stopping(),
            final(self).table().dom() == old(self).table().dom(),
            final(self).table().remove(id) == old(self).table().remove(id),
            old(self).table().contains_key(id) ==> {
                &&& r == old(self).table()[id].pending_recv()
                &&& final(self).table()[id].pending_recv() is None
                &&& final(self).table()[id].socket() == old(self).table()[id].socket()
                &&& final(self).table()[id].sock_id() == old(self).table()[id].sock_id()
                &&& final(self).table()[id].outbound_queue() == old(self).table()[id].outbound_queue()
                &&& final(self).table()[id].inbound_frames() == old(self).table()[id].inbound_frames()
                &&& final(self).table()[id].pending_send() == old(self).table()[id].pending_send()
                &&& final(self).table()[id].interest() == old(self).table()[id].interest()
            },
            !old(self).table().contains_key(id) ==> r is None,
    {
        let removed = self.sockets.remove(&id);
        match removed {
            Some(mut p) => {
                let r = p.recv_responder();
                self.sockets.insert(id, p);
                proof {
                    assert(self.table().remove(id) =~= old(self).table().remove(id));
                    assert(self.table().dom() =~= old(self).table().dom());
                }
                r
            },
            None => {
                assert(self.table() =~= old(self).table());
                None
            },
        }
    }

    /// Put back a send requester that is still waiting on socket `id`.
    pub fn restore_send_responder(&mut self, id: usize, r: R)
        requires
            old(self).wf(),
            old(self).table().contains_key(id),
            old(self).table()[id].pending_send() is None,
        ensures
            final(self).wf(),
            final(self).next_id() == old(self).next_id(),
            final(self).stopping() == old(self).stopping(),
            final(self).table().contains_key(id),
            final(self).table().remove(id) == old(self).table().remove(id),
            final(self).table()[id].pending_send() == Some(r),
            old(self).table()[id].same_queues(&final(self).table()[id]),
            final(self).table()[id].interest() == old(self).table()[id].interest(),
    {
        let removed = self.sockets.remove(&id);
        match removed {
            Some(mut p) => {
                p.set_send_responder(r);
                self.sockets.insert(id, p);
                proof {
                    assert(self.table().remove(id) =~= old(self).table().remove(id));
                }
            },
            None => {},
        }
    }

    /// Put back a receive requester that is still waiting on socket `id`.
    pub fn restore_recv_responder(&mut self, id: usize, r: R)
        requires
            old(self).wf(),
            old(self).table().contains_key(id),
            old(self).table()[id].pending_recv() is None,
        ensures
            final(self).wf(),
            final(self).next_id() == old(self).next_id(),
            final(self).stopping() == old(self).stopping(),
            final(self).table().contains_key(id),
            final(self).table().remove(id) == old(self).table().remove(id),
            final(self).table()[id].pending_recv() == Some(r),
            final(self).table()[id].socket() == old(self).table()[id].socket(),
            final(self).table()[id].sock_id() == old(self).table()[id].sock_id(),
            final(self).table()[id].outbound_queue() == old(self).table()[id].outbound_queue(),
            final(self).table()[id].inbound_frames() == old(self).table()[id].inbound_frames(),
            final(self).table()[id].pending_send() == old(self).table()[id].pending_send(),
            final(self).table()[id].interest() == old(self).table()[id].interest(),
    {
        let removed = self.sockets.remove(&id);
        match removed {
            Some(mut p) => {
                p.set_recv_responder(r);
                self.sockets.insert(id, p);
                proof {
                    assert(self.table().remove(id) =~= old(self).table().remove(id));
                }
            },
            None => {},
        }
    }
}

/// The work one poll result calls for on one socket: send if the socket
/// waits for writability and the poll found it writable, then receive if it
/// waits for readability and the poll found it readable.
pub open spec fn socket_actions<S, R>(
    table: Map<usize, Pollable<S, R>>,
    item: (usize, bool, bool),
) -> Seq<Action> {
    let (id, readable, writable) = item;
    let snd = if table.contains_key(id) && kind_writes(table[id].interest()) && writable {
        seq![Action::Snd(id)]
    } else {
        Seq::empty()
    };
    let rcv = if table.contains_key(id) && kind_reads(table[id].interest()) && readable {
        seq![Action::Rcv(id)]
    } else {
        Seq::empty()
    };
    snd + rcv
}

/// The work called for by poll results `(socket, readable, writable)`:
/// the results are taken last to first, and each socket's send comes before
/// its receive (outbound messages go before inbound ones).
pub open spec fn ready_actions<S, R>(
    table: Map<usize, Pollable<S, R>>,
    ready: Seq<(usize, bool, bool)>,
) -> Seq<Action>
    decreases ready.len(),
{
    if ready.len() == 0 {
        Seq::empty()
    } else {
        socket_actions(table, ready.last()) + ready_actions(table, ready.drop_last())
    }
}

/// Two entries of an increasing sequence compare as less, in order.
proof fn lemma_increasing_less<K: Ord>(s: Seq<K>, i: int, j: int)
    requires
        vstd::laws_cmp::obeys_cmp::<K>(),
        increasing_seq(s),
        0 <= i < j < s.len(),
    ensures
        s[i].cmp_spec(&s[j]) is Less,
{
    vstd::std_specs::btree::axiom_increasing_seq_meaning(s);
}

/// The keys of a socket table come out of its key iterator in increasing
/// order.
proof fn lemma_keys_increasing<S, R>(m: &BTreeMap<usize, Pollable<S, R>>)
    ensures
        forall|i: int, j: int|
            0 <= i < j < spec_keys_iter(m).remaining().len() ==> spec_keys_iter(m).remaining().unref()[i]
                < spec_keys_iter(m).remaining().unref()[j],
{
    broadcast use vstd::std_specs::btree::axiom_spec_keys_iter;
    let r = spec_keys_iter(m).remaining();
    assert(vstd::laws_cmp::obeys_cmp::<usize>());
    assert(vstd::laws_cmp::obeys_cmp::<&usize>());
    assert forall|i: int, j: int| 0 <= i < j < r.len() implies r.unref()[i] < r.unref()[j] by {
        lemma_increasing_less(r, i, j);
    }
}

impl<S, R> PollThread<S, R> {
    /// The numbers of the sockets in the table, in increasing order.
    pub fn ids(&self) -> (v: Vec<usize>)
        ensures
            v@.to_set() == self.table().dom(),
            v@.no_duplicates(),
            forall|i: int, j: int| 0 <= i < j < v@.len() ==> v@[i] < v@[j],
    {
        let mut v: Vec<usize> = Vec::new();
        let ghost all: Seq<usize> = spec_keys_iter(&self.sockets).remaining().unref();
        for k in it: self.sockets.keys()
            invariant
                all == it.seq().unref(),
                all.to_set() == self.sockets@.dom(),
                all.no_duplicates(),
                v@ == all.subrange(0, it.index() as int),
        {
            v.push(*k);
            assert(v@ =~= all.subrange(0, it.index() + 1));
        }
        assert(v@ =~= all);
        proof {
            lemma_keys_increasing(&self.sockets);
        }
        v
    }

    /// The work to do after a poll, given the poll results
    /// `(socket, readable, writable)` in socket order: the results are served
    /// last to first, and for each socket the send (if it waits for
    /// writability and is writable) comes before the receive (if it waits for
    /// readability and is readable).
    pub fn plan_actions(&self, ready: &Vec<(usize, bool, bool)>) -> (acts: Vec<Action>)
        ensures
            acts@ == ready_actions(self.table(), ready@),
    {
        let mut acts: Vec<Action> = Vec::new();
        let mut i: usize = ready.len();
        assert(ready@.subrange(0, i as int) =~= ready@);
        assert(acts@ + ready_actions(self.table(), ready@) =~= ready_actions(self.table(), ready@));
        while i > 0
            invariant
                i <= ready@.len(),
                ready_actions(self.table(), ready@) == acts@ + ready_actions(self.table(), ready@.subrange(0, i as int)),
            decreases i,
        {
            let (id, readable, writable) = ready[i - 1];
            let ghost before = acts@;
            proof {
                let sub = ready@.subrange(0, i as int);
                assert(sub.drop_last() =~= ready@.subrange(0, i - 1));
                assert(sub.last() == ready@[i - 1]);
            }
            match self.sockets.get(&id) {
                Some(p) => {
                    if p.is_writable(writable) {
                        acts.push(Action::Snd(id));
                    }
                    if p.is_readable(readable) {
                        acts.push(Action::Rcv(id));
                    }
                },
                None => {},
            }
            proof {
                assert(acts@ =~= before + socket_actions(self.table(), ready@[i - 1]));
                assert(ready_actions(self.table(), ready@) == acts@ + ready_actions(self.table(), ready@.subrange(0, i - 1)));
            }
            i = i - 1;
        }
        proof {
            assert(acts@ + ready_actions(self.table(), ready@.subrange(0, 0)) =~= acts@);
        }
        acts
    }
}

/// How long a poll waits: not at all when requests are already pending,
/// otherwise the idle timeout.
pub fn poll_timeout(requests_pending: bool) -> (ms: i64)
    ensures
        ms == if requests_pending { BUSY_POLL_TIMEOUT_MS } else { IDLE_POLL_TIMEOUT_MS },
{
    if requests_pending {
        BUSY_POLL_TIMEOUT_MS
    } else {
        IDLE_POLL_TIMEOUT_MS
    }
}

/// Once the loop stops, handling any request keeps it stopped, takes over no
/// socket, and keeps giving out fresh numbers.
pub proof fn law_stopping_is_final<S, RI, R>(
    old_t: PollThread<S, R>,
    new_t: PollThread<S, R>,
    req: Request<S, RI, R>,
    out: Handled<RI, R>,
)
    requires
        old_t.stopping(),
        PollThread::<S, R>::handled_stopping(old_t, new_t, req, out),
    ensures
        new_t.stopping(),
        new_t.table().dom().subset_of(old_t.table().dom()),
        new_t.next_id() >= old_t.next_id(),
{
}

/// A socket taken over is filed, fresh (no interest, nothing queued or
/// gathered, nobody waiting), under a number that no socket in the table
/// has; the next number to give out is one past it, the requester is
/// answered with it, the other sockets are untouched, and every socket's
/// number stays below the next one: numbers are never reused.
pub proof fn law_socket_numbers_fresh<S, RI, R>(
    old_t: PollThread<S, R>,
    new_t: PollThread<S, R>,
    s: S,
    ri: RI,
    out: Handled<RI, R>,
)
    requires
        old_t.wf(),
        !old_t.stopping(),
        PollThread::<S, R>::handled(old_t, new_t, Request::Init(s, ri), out),
    ensures
        !old_t.table().contains_key(old_t.next_id()),
        new_t.table().contains_key(old_t.next_id()),
        is_fresh(new_t.table()[old_t.next_id()], s, old_t.next_id()),
        new_t.next_id() == old_t.next_id() + 1,
        out.replies@.len() == 1,
        out.replies@[0] matches Reply::Initialized(ri2, id) && ri2 == ri && id == old_t.next_id(),
        forall|k: usize| k != old_t.next_id() ==> (#[trigger] new_t.table().contains_key(k) == old_t.table().contains_key(k)),
        forall|k: usize| k != old_t.next_id() && old_t.table().contains_key(k) ==> #[trigger] new_t.table()[k] == old_t.table()[k],
        new_t.wf(),
{
    let n = old_t.next_id();
    assert forall|k: usize| k != n implies (#[trigger] new_t.table().contains_key(k) == old_t.table().contains_key(k)) by {
        assert(new_t.table().remove(n).contains_key(k) == new_t.table().contains_key(k));
    }
    assert forall|k: usize| k != n && old_t.table().contains_key(k) implies #[trigger] new_t.table()[k] == old_t.table()[k] by {
        assert(new_t.table().remove(n)[k] == new_t.table()[k]);
    }
    assert forall|k: usize| #[trigger] new_t.table().contains_key(k) implies new_t.table()[k].sock_id() == k && k < new_t.next_id() by {
        if k != n {
            assert(new_t.table().remove(n).contains_key(k));
            assert(old_t.table().contains_key(k));
            assert(new_t.table()[k] == old_t.table()[k]);
        }
    }
}

/// While stopping, sends and receives are answered "dropped" and touch no
/// socket; a socket handed over still gets the next number but is not
/// kept; giving a socket up removes it and answers its waiting requesters
/// "dropped"; `Done` changes nothing.
pub proof fn law_stopping_refuses_work<S, RI, R>(
    old_t: PollThread<S, R>,
    new_t: PollThread<S, R>,
    req: Request<S, RI, R>,
    out: Handled<RI, R>,
)
    requires
        old_t.wf(),
        old_t.stopping(),
        PollThread::<S, R>::handled_stopping(old_t, new_t, req, out),
    ensures
        match req {
            Request::SendMessage(_, _, r) | Request::ReceiveMessage(_, r) => {
                &&& new_t.table() == old_t.table()
                &&& out.replies@.len() == 1
                &&& is_dropped_reply(out.replies@[0], r)
            },
            Request::Init(_, ri) => {
                &&& !new_t.table().contains_key(old_t.next_id())
                &&& new_t.table() == old_t.table()
                &&& new_t.next_id() == old_t.next_id() + 1
                &&& out.replies@[0] matches Reply::Initialized(ri2, id) && ri2 == ri && id == old_t.next_id()
            },
            Request::DropSocket(id) => {
                &&& new_t.table() == old_t.table().remove(id)
                &&& old_t.table().contains_key(id) ==> out.replies@ == dropped_replies::<S, RI, R>(old_t.table()[id])
            },
            Request::Done => new_t.table() == old_t.table() && new_t.next_id() == old_t.next_id(),
        },
        new_t.stopping(),
        out.follow_up is Nothing,
{
}

/// Outbound messages go before inbound ones: a socket waiting both ways
/// and found both readable and writable is sent on before it is received
/// from.
pub proof fn law_send_before_receive<S, R>(table: Map<usize, Pollable<S, R>>, id: usize)
    requires
        table.contains_key(id),
        table[id].interest() == PollKind::SendRecv,
    ensures
        ready_actions(table, seq![(id, true, true)]) == seq![Action::Snd(id), Action::Rcv(id)],
{
    let ready = seq![(id, true, true)];
    assert(ready.drop_last() =~= Seq::<(usize, bool, bool)>::empty());
    assert(ready.last() == (id, true, true));
    assert(ready_actions(table, Seq::<(usize, bool, bool)>::empty()) == Seq::<Action>::empty());
    assert(socket_actions(table, (id, true, true)) =~= seq![Action::Snd(id), Action::Rcv(id)]);
    assert(ready_actions(table, ready) == socket_actions(table, ready.last()) + ready_actions(table, ready.drop_last()));
    assert(ready_actions(table, ready) =~= seq![Action::Snd(id), Action::Rcv(id)]);
}

/// Whether some poll result reports socket `id` writable.
pub open spec fn reported_writable(ready: Seq<(usize, bool, bool)>, id: usize) -> bool {
    exists|k: int| 0 <= k < ready.len() && (#[trigger] ready[k]).0 == id && ready[k].2
}

/// Whether some poll result reports socket `id` readable.
pub open spec fn reported_readable(ready: Seq<(usize, bool, bool)>, id: usize) -> bool {
    exists|k: int| 0 <= k < ready.len() && (#[trigger] ready[k]).0 == id && ready[k].1
}

proof fn lemma_concat_contains<A>(a: Seq<A>, b: Seq<A>, x: A)
    ensures
        (a + b).contains(x) <==> a.contains(x) || b.contains(x),
{
    if (a + b).contains(x) {
        let k = choose|k: int| 0 <= k < (a + b).len() && (a + b)[k] == x;
        if k < a.len() {
            assert(a[k] == x);
        } else {
            assert(b[k - a.len()] == x);
        }
    }
    if a.contains(x) {
        let k = choose|k: int| 0 <= k < a.len() && a[k] == x;
        assert((a + b)[k] == x);
    }
    if b.contains(x) {
        let k = choose|k: int| 0 <= k < b.len() && b[k] == x;
        assert((a + b)[k + a.len()] == x);
    }
}

/// The work planned after a poll: a socket of the table is sent on exactly
/// when it waits for writability and some poll result reports it writable,
/// whatever the poll says of its readability; it is received from exactly
/// when it waits for readability and some result reports it readable,
/// whatever the poll says of its writability. Sockets not in the table get
/// no work.
pub proof fn law_planned_work<S, R>(table: Map<usize, Pollable<S, R>>, ready: Seq<(usize, bool, bool)>, id: usize)
    ensures
        ready_actions(table, ready).contains(Action::Snd(id)) <==> (table.contains_key(id) && kind_writes(
            table[id].interest(),
        ) && reported_writable(ready, id)),
        ready_actions(table, ready).contains(Action::Rcv(id)) <==> (table.contains_key(id) && kind_reads(
            table[id].interest(),
        ) && reported_readable(ready, id)),
    decreases ready.len(),
{
    if ready.len() == 0 {
        assert(!ready_actions(table, ready).contains(Action::Snd(id)));
        assert(!ready_actions(table, ready).contains(Action::Rcv(id)));
    } else {
        let rest = ready.drop_last();
        let item = ready.last();
        law_planned_work(table, rest, id);
        let here = socket_actions(table, item);
        lemma_concat_contains(here, ready_actions(table, rest), Action::Snd(id));
        lemma_concat_contains(here, ready_actions(table, rest), Action::Rcv(id));
        let (iid, readable, writable) = item;
        assert(here.contains(Action::Snd(id)) <==> (iid == id && table.contains_key(id) && kind_writes(
            table[id].interest(),
        ) && writable)) by {
            if here.contains(Action::Snd(id)) {
                let k = choose|k: int| 0 <= k < here.len() && here[k] == Action::Snd(id);
            }
            if iid == id && table.contains_key(id) && kind_writes(table[id].interest()) && writable {
                assert(here[0] == Action::Snd(id));
            }
        }
        assert(here.contains(Action::Rcv(id)) <==> (iid == id && table.contains_key(id) && kind_reads(
            table[id].interest(),
        ) && readable)) by {
            if here.contains(Action::Rcv(id)) {
                let k = choose|k: int| 0 <= k < here.len() && here[k] == Action::Rcv(id);
            }
            if iid == id && table.contains_key(id) && kind_reads(table[id].interest()) && readable {
                assert(here[here.len() - 1] == Action::Rcv(id));
            }
        }
        assert(reported_writable(ready, id) <==> (reported_writable(rest, id) || (iid == id && writable))) by {
            if reported_writable(ready, id) {
                let k = choose|k: int| 0 <= k < ready.len() && (#[trigger] ready[k]).0 == id && ready[k].2;
                if k < rest.len() {
                    assert(rest[k] == ready[k]);
                }
            }
            if reported_writable(rest, id) {
                let k = choose|k: int| 0 <= k < rest.len() && (#[trigger] rest[k]).0 == id && rest[k].2;
                assert(ready[k] == rest[k]);
            }
            if iid == id && writable {
                assert(ready[ready.len() - 1] == item);
            }
        }
        assert(reported_readable(ready, id) <==> (reported_readable(rest, id) || (iid == id && readable))) by {
            if reported_readable(ready, id) {
                let k = choose|k: int| 0 <= k < ready.len() && (#[trigger] ready[k]).0 == id && ready[k].1;
                if k < rest.len() {
                    assert(rest[k] == ready[k]);
                }
            }
            if reported_readable(rest, id) {
                let k = choose|k: int| 0 <= k < rest.len() && (#[trigger] rest[k]).0 == id && rest[k].1;
                assert(ready[k] == rest[k]);
            }
            if iid == id && readable {
                assert(ready[ready.len() - 1] == item);
            }
        }
    }
}

/// Later poll results are served first: the work for the results `a`
/// followed by `b` is the work for `b`, then the work for `a`.
pub proof fn law_later_results_served_first<S, R>(
    table: Map<usize, Pollable<S, R>>,
    a: Seq<(usize, bool, bool)>,
    b: Seq<(usize, bool, bool)>,
)
    ensures
        ready_actions(table, a + b) == ready_actions(table, b) + ready_actions(table, a),
    decreases b.len(),
{
    if b.len() == 0 {
        assert(a + b =~= a);
        assert(ready_actions(table, b) + ready_actions(table, a) =~= ready_actions(table, a));
    } else {
        law_later_results_served_first(table, a, b.drop_last());
        assert((a + b).drop_last() =~= a + b.drop_last());
        assert((a + b).last() == b.last());
        assert(ready_actions(table, a + b) =~= socket_actions(table, b.last()) + (ready_actions(table, b.drop_last())
            + ready_actions(table, a)));
    }
}

/// Giving a socket up answers each requester waiting on it exactly once,
/// with "dropped": as many answers as waiting requesters, the send
/// requester first.
pub proof fn law_drop_answers_each_waiting_requester<S, RI, R>(p: Pollable<S, R>)
    ensures
        dropped_replies::<S, RI, R>(p).len() == (if p.pending_send() is Some { 1int } else { 0int }) + (if p.pending_recv() is Some {
            1int
        } else {
            0int
        }),
        p.pending_send() matches Some(r) ==> is_dropped_reply(dropped_replies::<S, RI, R>(p)[0], r),
        p.pending_recv() matches Some(r) ==> is_dropped_reply(
            dropped_replies::<S, RI, R>(p)[dropped_replies::<S, RI, R>(p).len() - 1],
            r,
        ),
{
}

/// A send request to a socket loses neither the requester nor the message:
/// the requester is answered "dropped" when the socket is gone; otherwise
/// the message is queued last and the requester waits on the socket, or,
/// when the queue is full, both are handed back to be queued again after a
/// flush. The socket's other work is untouched.
pub proof fn law_send_request_keeps_message<S, RI, R>(
    old_t: PollThread<S, R>,
    new_t: PollThread<S, R>,
    id: usize,
    mp: Multipart,
    r: R,
    out: Handled<RI, R>,
)
    requires
        PollThread::<S, R>::handled(old_t, new_t, Request::SendMessage(id, mp, r), out),
    ensures
        !old_t.table().contains_key(id) ==> out.replies@.len() == 1 && is_dropped_reply(out.replies@[0], r),
        old_t.table().contains_key(id) ==> out.replies@.len() == 0,
        old_t.table().contains_key(id) && old_t.table()[id].outbound_queue().len() < OUTBOUND_CAPACITY ==> {
            &&& new_t.table()[id].outbound_queue() == old_t.table()[id].outbound_queue().push(mp)
            &&& new_t.table()[id].pending_send() == Some(r)
            &&& new_t.table()[id].pending_recv() == old_t.table()[id].pending_recv()
            &&& new_t.table()[id].inbound_frames() == old_t.table()[id].inbound_frames()
            &&& kind_writes(new_t.table()[id].interest())
        },
        old_t.table().contains_key(id) && old_t.table()[id].outbound_queue().len() >= OUTBOUND_CAPACITY ==> {
            &&& new_t.table() == old_t.table()
            &&& out.follow_up matches FollowUp::FlushThenRequeue(fid, m, r2) && fid == id && m == mp && r2 == r
        },
{
}

/// A receive request to a socket loses no requester: it is answered
/// "dropped" when the socket is gone, and otherwise waits on the socket,
/// which then waits for readability and is to be received from.
pub proof fn law_receive_request_waits<S, RI, R>(
    old_t: PollThread<S, R>,
    new_t: PollThread<S, R>,
    id: usize,
    r: R,
    out: Handled<RI, R>,
)
    requires
        PollThread::<S, R>::handled(old_t, new_t, Request::ReceiveMessage(id, r), out),
    ensures
        !old_t.table().contains_key(id) ==> out.replies@.len() == 1 && is_dropped_reply(out.replies@[0], r),
        old_t.table().contains_key(id) ==> {
            &&& out.replies@.len() == 0
            &&& new_t.table()[id].pending_recv() == Some(r)
            &&& kind_reads(new_t.table()[id].interest())
            &&& new_t.table()[id].outbound_queue() == old_t.table()[id].outbound_queue()
            &&& new_t.table()[id].pending_send() == old_t.table()[id].pending_send()
            &&& out.follow_up matches FollowUp::Fetch(fid) && fid == id
        },
{
}

/// A socket just taken over is idle: it waits for nothing, has nothing to
/// send and nothing gathered, and nobody waits on it.
pub proof fn law_fresh_socket_is_idle<S, R>(p: Pollable<S, R>, s: S, id: usize)
    requires
        is_fresh(p, s, id),
    ensures
        !kind_reads(p.interest()),
        !kind_writes(p.interest()),
        p.outbound_queue().len() == 0,
        p.inbound_frames().len() == 0,
        p.pending_send() is None,
        p.pending_recv() is None,
        p.socket() == s,
        p.sock_id() == id,
{
}

} // verus!
