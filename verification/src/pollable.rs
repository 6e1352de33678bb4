//! One socket of the poll loop: what it waits for, the multipart messages
//! queued to go out, the frames of an incoming message gathered so far, and
//! the requesters waiting for a send or a receive to finish.
use vstd::prelude::*;
use std::collections::VecDeque;
use crate::frames::{gather_frame, spec_gather, SocketError};
use crate::message::{Message, Multipart};
use crate::poll_kind::{kind_reads, kind_writes, spec_clear_read, spec_clear_write, spec_read, spec_write, PollKind};

verus! {

/// How many multipart messages may wait to be sent on one socket.
pub const OUTBOUND_CAPACITY: usize = 30;

/// The errors that a socket's requesters can be answered with.
#[derive(Clone, Copy, PartialEq, Eq, Structural, Debug)]
pub enum Error {
    /// A socket call failed.
    Zmq(SocketError),
    /// The answering side went away.
    Canceled,
    /// A state machine was polled while it was being polled.
    Polling,
    /// The socket was dropped.
    Dropped,
}

/// The answer sent to a requester.
pub enum Response {
    /// The queued message was sent.
    Sent,
    /// A multipart message was received.
    Received(Multipart),
    /// The send queue was full; the message is handed back.
    Full(Multipart),
    /// The request failed.
    Error(Error),
}

/// One socket of the poll loop. `S` is the socket itself and `R` the handle
/// through which a waiting requester is answered.
pub struct Pollable<S, R> {
    sock: S,
    id: usize,
    kind: PollKind,
    outbound: VecDeque<Multipart>,
    inbound: Multipart,
    send_responder: Option<R>,
    recv_responder: Option<R>,
}

/// What the poll loop does after one multipart send of a flush.
pub struct FlushStep<R> {
    /// The requester to answer, and the answer.
    pub reply: Option<(R, Response)>,
    /// Whether the flush stops here.
    pub done: bool,
}

/// One received frame was gathered into `p0`'s incoming message, giving `p1`
/// and the completed message `r`, if any.
pub open spec fn gather_step<S, R>(
    p0: Pollable<S, R>,
    p1: Pollable<S, R>,
    msg: Message,
    more: bool,
    r: Option<Multipart>,
) -> bool {
    &&& p1.inbound_frames() == spec_gather(p0.inbound_frames(), msg, more).0
    &&& match r {
        Some(mp) => spec_gather(p0.inbound_frames(), msg, more).1 == Some(mp@),
        None => spec_gather(p0.inbound_frames(), msg, more).1 is None,
    }
    &&& p1.socket() == p0.socket()
    &&& p1.sock_id() == p0.sock_id()
    &&& p1.interest() == p0.interest()
    &&& p1.outbound_queue() == p0.outbound_queue()
    &&& p1.pending_send() == p0.pending_send()
    &&& p1.pending_recv() == p0.pending_recv()
}

/// The outcome of a receive attempt for the requester waiting on `p0` was
/// taken in, giving `p1` and the answer `reply`, if any. With nobody waiting
/// nothing changes and nobody is answered. Otherwise a complete message
/// answers the requester and ends the wait for readability; nothing yet
/// (including a receive that would block), or a socket in the wrong state,
/// keeps it waiting; any other error answers it
/// with the error and ends the wait.
pub open spec fn fetch_step<S, R>(
    p0: Pollable<S, R>,
    p1: Pollable<S, R>,
    outcome: Result<Option<Multipart>, SocketError>,
    reply: Option<(R, Response)>,
) -> bool {
    if p0.pending_recv() is None {
        &&& reply is None
        &&& p1 == p0
    } else {
        &&& p1.socket() == p0.socket()
        &&& p1.sock_id() == p0.sock_id()
        &&& p1.outbound_queue() == p0.outbound_queue()
        &&& p1.inbound_frames() == p0.inbound_frames()
        &&& p1.pending_send() == p0.pending_send()
        &&& match outcome {
            Ok(Some(mp)) => {
                &&& reply matches Some((r, Response::Received(m)))
                &&& r == p0.pending_recv()->0
                &&& m == mp
                &&& p1.pending_recv() is None
                &&& p1.interest() == spec_clear_read(p0.interest())
            },
            Ok(None) | Err(SocketError::Again) | Err(SocketError::Fsm) => {
                &&& reply is None
                &&& p1.pending_recv() == p0.pending_recv()
                &&& p1.interest() == p0.interest()
            },
            Err(e) => {
                &&& reply matches Some((r, Response::Error(Error::Zmq(e2))))
                &&& r == p0.pending_recv()->0
                &&& e2 == e
                &&& p1.pending_recv() is None
                &&& p1.interest() == spec_clear_read(p0.interest())
            },
        }
    }
}

/// The first queued message `r` of `p0` was taken out, giving `p1`; `r` is
/// `None` when nothing was queued.
pub open spec fn outbound_taken<S, R>(p0: Pollable<S, R>, p1: Pollable<S, R>, r: Option<Multipart>) -> bool {
    &&& p0.outbound_queue().len() == 0 ==> r is None && p1.outbound_queue() == p0.outbound_queue()
    &&& p0.outbound_queue().len() > 0 ==> {
        &&& r == Some(p0.outbound_queue()[0])
        &&& p1.outbound_queue() == p0.outbound_queue().drop_first()
    }
    &&& p1.socket() == p0.socket()
    &&& p1.sock_id() == p0.sock_id()
    &&& p1.interest() == p0.interest()
    &&& p1.inbound_frames() == p0.inbound_frames()
    &&& p1.pending_send() == p0.pending_send()
    &&& p1.pending_recv() == p0.pending_recv()
}

/// The outcome of sending the message last taken out of `p0` was taken in,
/// giving `p1` and the flush `step`. Handed back because the socket would
/// block: it goes back to the front of the queue and the flush stops. Sent:
/// the waiting requester, if any, is told, and the flush goes on unless the
/// queue is empty, in which case the wait for writability ends. A socket in
/// the wrong state stops the flush (the message is not requeued). Any other
/// error ends the wait for writability, answers the requester with the
/// error, and stops the flush.
pub open spec fn flush_step<S, R>(
    p0: Pollable<S, R>,
    p1: Pollable<S, R>,
    outcome: Result<Option<Multipart>, SocketError>,
    step: FlushStep<R>,
) -> bool {
    &&& p1.socket() == p0.socket()
    &&& p1.sock_id() == p0.sock_id()
    &&& p1.inbound_frames() == p0.inbound_frames()
    &&& p1.pending_recv() == p0.pending_recv()
    &&& match outcome {
        Ok(Some(rest)) => {
            &&& step.done
            &&& step.reply is None
            &&& p1.outbound_queue() == seq![rest].add(p0.outbound_queue())
            &&& p1.interest() == p0.interest()
            &&& p1.pending_send() == p0.pending_send()
        },
        Ok(None) => {
            &&& step.done == (p0.outbound_queue().len() == 0)
            &&& p1.outbound_queue() == p0.outbound_queue()
            &&& p1.pending_send() is None
            &&& match p0.pending_send() {
                Some(r0) => step.reply matches Some((r, Response::Sent)) && r == r0,
                None => step.reply is None,
            }
            &&& p1.interest() == if p0.outbound_queue().len() == 0 {
                spec_clear_write(p0.interest())
            } else {
                p0.interest()
            }
        },
        Err(SocketError::Fsm) => {
            &&& step.done
            &&& step.reply is None
            &&& p1.outbound_queue() == p0.outbound_queue()
            &&& p1.interest() == p0.interest()
            &&& p1.pending_send() == p0.pending_send()
        },
        Err(e) => {
            &&& step.done
            &&& p1.outbound_queue() == p0.outbound_queue()
            &&& p1.interest() == spec_clear_write(p0.interest())
            &&& p1.pending_send() is None
            &&& match p0.pending_send() {
                Some(r0) => step.reply matches Some((r, Response::Error(Error::Zmq(e2)))) && r == r0 && e2 == e,
                None => step.reply is None,
            }
        },
    }
}

impl<S, R> Pollable<S, R> {
    /// The socket.
    pub closed spec fn socket(&self) -> S {
        self.sock
    }

    /// The socket's number in the poll loop.
    pub closed spec fn sock_id(&self) -> usize {
        self.id
    }

    /// What the socket waits for.
    pub closed spec fn interest(&self) -> PollKind {
        self.kind
    }

    /// The multipart messages waiting to be sent, first to go first.
    pub closed spec fn outbound_queue(&self) -> Seq<Multipart> {
        self.outbound@
    }

    /// The frames of the incoming multipart message gathered so far.
    pub closed spec fn inbound_frames(&self) -> Seq<Message> {
        self.inbound@
    }

    /// The requester waiting for a send, if any.
    pub closed spec fn pending_send(&self) -> Option<R> {
        self.send_responder
    }

    /// The requester waiting for a receive, if any.
    pub closed spec fn pending_recv(&self) -> Option<R> {
        self.recv_responder
    }

    /// `other` differs from `self` at most in what it waits for and in its
    /// pending send requester.
    pub open spec fn same_queues(&self, other: &Self) -> bool {
        &&& other.socket() == self.socket()
        &&& other.sock_id() == self.sock_id()
        &&& other.outbound_queue() == self.outbound_queue()
        &&& other.inbound_frames() == self.inbound_frames()
        &&& other.pending_recv() == self.pending_recv()
    }

    /// A socket with nothing queued, nothing gathered, nobody waiting, and
    /// no interest.
    pub fn new(sock: S, id: usize) -> (p: Self)
        ensures
            p.socket() == sock,
            p.sock_id() == id,
            p.interest() == PollKind::UNUSED,
            p.outbound_queue() == Seq::<Multipart>::empty(),
            p.inbound_frames() == Seq::<Message>::empty(),
            p.pending_send() is None,
            p.pending_recv() is None,
    {
        Pollable {
            sock,
            id,
            kind: PollKind::UNUSED,
            outbound: VecDeque::new(),
            inbound: Multipart::new(),
            send_responder: None,
            recv_responder: None,
        }
    }

    /// The socket's number.
    pub fn id(&self) -> (id: usize)
        ensures
            id == self.sock_id(),
    {
        self.id
    }

    /// The socket.
    pub fn sock(&self) -> (s: &S)
        ensures
            *s == self.socket(),
    {
        &self.sock
    }

    /// What the socket waits for.
    pub fn kind(&self) -> (k: PollKind)
        ensures
            k == self.interest(),
    {
        self.kind
    }

    /// The number of multipart messages waiting to be sent.
    pub fn outbound_len(&self) -> (n: usize)
        ensures
            n == self.outbound_queue().len(),
    {
        self.outbound.len()
    }

    /// Whether a requester waits for a send.
    pub fn has_send_responder(&self) -> (b: bool)
        ensures
            b == self.pending_send() is Some,
    {
        self.send_responder.is_some()
    }

    /// Whether a requester waits for a receive.
    pub fn has_recv_responder(&self) -> (b: bool)
        ensures
            b == self.pending_recv() is Some,
    {
        self.recv_responder.is_some()
    }

    /// Whether a frame of an incoming message has arrived and its message is
    /// not complete yet.
    pub fn has_partial_inbound(&self) -> (b: bool)
        ensures
            b == (self.inbound_frames().len() > 0),
    {
        !self.inbound.is_empty()
    }

    /// Take out the requester waiting for a send.
    pub fn send_responder(&mut self) -> (r: Option<R>)
        ensures
            r == old(self).pending_send(),
            final(self).pending_send() is None,
            old(self).same_queues(final(self)),
            final(self).interest() == old(self).interest(),
    {
        self.send_responder.take()
    }

    /// Take out the requester waiting for a receive.
    pub fn recv_responder(&mut self) -> (r: Option<R>)
        ensures
            r == old(self).pending_recv(),
            final(self).pending_recv() is None,
            final(self).socket() == old(self).socket(),
            final(self).sock_id() == old(self).sock_id(),
            final(self).outbound_queue() == old(self).outbound_queue(),
            final(self).inbound_frames() == old(self).inbound_frames(),
            final(self).pending_send() == old(self).pending_send(),
            final(self).interest() == old(self).interest(),
    {
        self.recv_responder.take()
    }

    /// Whether the socket is to be read, given whether the poll found it
    /// readable.
    pub fn is_readable(&self, item_readable: bool) -> (b: bool)
        ensures
            b == (kind_reads(self.interest()) && item_readable),
    {
        self.kind.is_read() && item_readable
    }

    /// Whether the socket is to be written, given whether the poll found it
    /// writable.
    pub fn is_writable(&self, item_writable: bool) -> (b: bool)
        ensures
            b == (kind_writes(self.interest()) && item_writable),
    {
        self.kind.is_write() && item_writable
    }

    /// Start waiting for readability.
    pub fn read(&mut self)
        ensures
            final(self).interest() == spec_read(old(self).interest()),
            old(self).same_queues(final(self)),
            final(self).pending_send() == old(self).pending_send(),
    {
        self.kind.read();
    }

    /// Stop waiting for readability.
    pub fn clear_read(&mut self)
        ensures
            final(self).interest() == spec_clear_read(old(self).interest()),
            old(self).same_queues(final(self)),
            final(self).pending_send() == old(self).pending_send(),
    {
        self.kind.clear_read();
    }

    /// Start waiting for writability.
    pub fn write(&mut self)
        ensures
            final(self).interest() == spec_write(old(self).interest()),
            old(self).same_queues(final(self)),
            final(self).pending_send() == old(self).pending_send(),
    {
        self.kind.write();
    }

    /// Stop waiting for writability.
    pub fn clear_write(&mut self)
        ensures
            final(self).interest() == spec_clear_write(old(self).interest()),
            old(self).same_queues(final(self)),
            final(self).pending_send() == old(self).pending_send(),
    {
        self.kind.clear_write();
    }

    /// Queue a multipart message to be sent, or hand it back when
    /// `OUTBOUND_CAPACITY` messages already wait.
    pub fn queue_message(&mut self, multipart: Multipart) -> (r: Option<Multipart>)
        ensures
            old(self).outbound_queue().len() < OUTBOUND_CAPACITY ==> {
                &&& r is None
                &&& final(self).outbound_queue() == old(self).outbound_queue().push(multipart)
            },
            old(self).outbound_queue().len() >= OUTBOUND_CAPACITY ==> {
                &&& r == Some(multipart)
                &&& final(self).outbound_queue() == old(self).outbound_queue()
            },
            final(self).socket() == old(self).socket(),
            final(self).sock_id() == old(self).sock_id(),
            final(self).interest() == old(self).interest(),
            final(self).inbound_frames() == old(self).inbound_frames(),
            final(self).pending_send() == old(self).pending_send(),
            final(self).pending_recv() == old(self).pending_recv(),
    {
        if self.outbound.len() < OUTBOUND_CAPACITY {
            self.outbound.push_back(multipart);
            None
        } else {
            Some(multipart)
        }
    }

    /// Record the requester waiting for a send; none may wait already.
    pub fn set_send_responder(&mut self, r: R)
        requires
            old(self).pending_send() is None,
        ensures
            final(self).pending_send() == Some(r),
            old(self).same_queues(final(self)),
            final(self).interest() == old(self).interest(),
    {
        self.send_responder = Some(r);
    }

    /// Record the requester waiting for a receive; none may wait already.
    pub fn set_recv_responder(&mut self, r: R)
        requires
            old(self).pending_recv() is None,
        ensures
            final(self).pending_recv() == Some(r),
            final(self).socket() == old(self).socket(),
            final(self).sock_id() == old(self).sock_id(),
            final(self).outbound_queue() == old(self).outbound_queue(),
            final(self).inbound_frames() == old(self).inbound_frames(),
            final(self).pending_send() == old(self).pending_send(),
            final(self).interest() == old(self).interest(),
    {
        self.recv_responder = Some(r);
    }

    /// Add a received frame to the incoming message; the message is handed
    /// out when the frame is its last.
    pub fn gather(&mut self, msg: Message, more: bool) -> (r: Option<Multipart>)
        ensures
            gather_step(*old(self), *final(self), msg, more, r),
    {
        gather_frame(&mut self.inbound, msg, more)
    }

    /// Take the outcome of a receive attempt for the waiting requester (see
    /// `fetch_step`).
    pub fn after_fetch(&mut self, outcome: Result<Option<Multipart>, SocketError>) -> (reply: Option<(R, Response)>)
        ensures
            fetch_step(*old(self), *final(self), outcome, reply),
    {
        if self.recv_responder.is_none() {
            return None;
        }
        match outcome {
            Ok(Some(mp)) => {
                let r = self.recv_responder.take();
                self.kind.clear_read();
                match r {
                    Some(r) => Some((r, Response::Received(mp))),
                    None => None,
                }
            },
            Ok(None) => None,
            Err(SocketError::Again) => None,
            Err(SocketError::Fsm) => None,
            Err(e) => {
                let r = self.recv_responder.take();
                self.kind.clear_read();
                match r {
                    Some(r) => Some((r, Response::Error(Error::Zmq(e)))),
                    None => None,
                }
            },
        }
    }

    /// Take the next queued multipart message to send, if any.
    pub fn next_outbound(&mut self) -> (r: Option<Multipart>)
        ensures
            outbound_taken(*old(self), *final(self), r),
    {
        let r = self.outbound.pop_front();
        proof {
            if old(self).outbound_queue().len() > 0 {
                assert(self.outbound@ =~= old(self).outbound_queue().drop_first());
            }
        }
        r
    }

    /// Take the outcome of sending the message last taken by `next_outbound`
    /// (see `flush_step`). A send that would block is reported by handing
    /// the rest of the message back (`Ok(Some(rest))`, as `send_outcome` and
    /// `after_frame_send` read it), never as an error.
    pub fn after_flush_send(&mut self, outcome: Result<Option<Multipart>, SocketError>) -> (step: FlushStep<R>)
        requires
            !(outcome matches Err(SocketError::Again)),
        ensures
            flush_step(*old(self), *final(self), outcome, step),
    {
        match outcome {
            Ok(Some(rest)) => {
                self.outbound.push_front(rest);
                FlushStep { reply: None, done: true }
            },
            Ok(None) => {
                let reply = match self.send_responder.take() {
                    Some(r) => Some((r, Response::Sent)),
                    None => None,
                };
                if self.outbound.len() == 0 {
                    self.kind.clear_write();
                    FlushStep { reply, done: true }
                } else {
                    FlushStep { reply, done: false }
                }
            },
            Err(SocketError::Fsm) => FlushStep { reply: None, done: true },
            Err(e) => {
                self.kind.clear_write();
                let reply = match self.send_responder.take() {
                    Some(r) => Some((r, Response::Error(Error::Zmq(e)))),
                    None => None,
                };
                FlushStep { reply, done: true }
            },
        }
    }
}

/// A message handed back because the socket would block is the next
/// message taken to send: nothing overtakes it.
pub proof fn law_blocked_message_sent_next<S, R>(
    p0: Pollable<S, R>,
    p1: Pollable<S, R>,
    p2: Pollable<S, R>,
    rest: Multipart,
    step: FlushStep<R>,
    next: Option<Multipart>,
)
    requires
        flush_step(p0, p1, Ok(Some(rest)), step),
        outbound_taken(p1, p2, next),
    ensures
        next == Some(rest),
        p2.outbound_queue() == p0.outbound_queue(),
{
    assert(p1.outbound_queue().drop_first() =~= p0.outbound_queue());
}

/// Sending the last queued message ends the wait for writability and
/// leaves the wait for readability as it was; a receive completed for a waiting requester ends the
/// wait for readability and leaves the wait for writability as it was. A
/// socket busy both ways thus keeps serving the other direction.
pub proof fn law_finishing_one_direction_keeps_the_other<S, R>(
    p0: Pollable<S, R>,
    p1: Pollable<S, R>,
    step: FlushStep<R>,
    q0: Pollable<S, R>,
    q1: Pollable<S, R>,
    mp: Multipart,
    reply: Option<(R, Response)>,
)
    requires
        p0.outbound_queue().len() == 0,
        flush_step(p0, p1, Ok(None), step),
        q0.pending_recv() is Some,
        fetch_step(q0, q1, Ok(Some(mp)), reply),
    ensures
        step.done,
        !kind_writes(p1.interest()),
        kind_reads(p1.interest()) == kind_reads(p0.interest()),
        !kind_reads(q1.interest()),
        kind_writes(q1.interest()) == kind_writes(q0.interest()),
{
}

/// A receive attempt loses no requester: the requester waiting for a
/// receive is either answered (with the complete message, or with the
/// error) and no longer waits, or goes on waiting unanswered. A complete
/// message goes to that requester and is the message received.
pub proof fn law_fetch_answers_or_keeps_requester<S, R>(
    p0: Pollable<S, R>,
    p1: Pollable<S, R>,
    outcome: Result<Option<Multipart>, SocketError>,
    reply: Option<(R, Response)>,
    r: R,
)
    requires
        p0.pending_recv() == Some(r),
        fetch_step(p0, p1, outcome, reply),
    ensures
        (reply matches Some((r2, _)) && r2 == r && p1.pending_recv() is None) || (reply is None
            && p1.pending_recv() == Some(r)),
        outcome matches Ok(Some(mp)) ==> (reply matches Some((r2, Response::Received(m))) && r2 == r && m == mp),
        outcome matches Ok(None) ==> reply is None,
        p1.outbound_queue() == p0.outbound_queue(),
        p1.pending_send() == p0.pending_send(),
{
}

/// A send step loses no requester and no message: the requester waiting
/// for a send is answered only once the message went out (with "sent") or
/// the send failed (with the error), and otherwise goes on waiting; a
/// message handed back is queued again first, and nothing else leaves or
/// enters the queue.
pub proof fn law_flush_answers_or_keeps_requester<S, R>(
    p0: Pollable<S, R>,
    p1: Pollable<S, R>,
    outcome: Result<Option<Multipart>, SocketError>,
    step: FlushStep<R>,
    r: R,
)
    requires
        p0.pending_send() == Some(r),
        flush_step(p0, p1, outcome, step),
    ensures
        (step.reply matches Some((r2, _)) && r2 == r && p1.pending_send() is None) || (step.reply is None
            && p1.pending_send() == Some(r)),
        outcome matches Ok(None) ==> (step.reply matches Some((r2, Response::Sent)) && r2 == r),
        outcome matches Ok(Some(rest)) ==> step.reply is None && p1.outbound_queue() == seq![rest] + p0.outbound_queue(),
        !(outcome matches Ok(Some(_))) ==> p1.outbound_queue() == p0.outbound_queue(),
        p1.pending_recv() == p0.pending_recv(),
{
}

} // verus!
