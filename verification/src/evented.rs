//! Sockets driven by readiness events: a sink that sends one multipart
//! message frame by frame, a stream that gathers frames into multipart
//! messages, and the reading of one send or receive attempt.
use vstd::prelude::*;
use std::collections::VecDeque;
use crate::frames::{gather_frame, spec_gather, SocketError};
use crate::message::{Message, Multipart};
use crate::poll_kind::PollEvents;
use crate::sink_stream::Error;
use crate::streams::Async;

verus! {

/// The answer of a sink to an offered item.
#[derive(PartialEq, Eq, Debug)]
pub enum AsyncSink<T> {
    /// The item was taken.
    Ready,
    /// The item is handed back; offer it again later.
    NotReady(T),
}

/// The sending half of an evented socket `K`: the frames of the multipart
/// message being sent.
pub struct SocketSink<K> {
    sock: K,
    buffer: VecDeque<Message>,
}

impl<K> SocketSink<K> {
    /// The socket.
    pub closed spec fn socket(&self) -> K {
        self.sock
    }

    /// The frames still to send, first to go first.
    pub closed spec fn pending(&self) -> Seq<Message> {
        self.buffer@
    }

    /// A sink with nothing to send.
    pub fn from_raw(sock: K) -> (s: Self)
        ensures
            s.socket() == sock,
            s.pending() == Seq::<Message>::empty(),
    {
        SocketSink { sock, buffer: VecDeque::new() }
    }

    /// The socket.
    pub fn sock(&self) -> (s: &K)
        ensures
            *s == self.socket(),
    {
        &self.sock
    }

    /// Offer a multipart message: taken when nothing is being sent,
    /// otherwise handed back.
    pub fn start_send(&mut self, item: Multipart) -> (r: AsyncSink<Multipart>)
        ensures
            final(self).socket() == old(self).socket(),
            old(self).pending().len() > 0 ==> r == AsyncSink::NotReady(item) && final(self).pending() == old(self).pending(),
            old(self).pending().len() == 0 ==> r == AsyncSink::<Multipart>::Ready && final(self).pending() == item@,
    {
        if self.buffer.len() > 0 {
            return AsyncSink::NotReady(item);
        }
        self.buffer = item.into_inner();
        AsyncSink::Ready
    }

    /// Take the next frame to send, and whether it is the last of its
    /// message.
    pub fn next_frame(&mut self) -> (r: Option<(Message, bool)>)
        ensures
            final(self).socket() == old(self).socket(),
            old(self).pending().len() == 0 ==> r is None && final(self).pending() == old(self).pending(),
            old(self).pending().len() > 0 ==> {
                &&& r == Some((old(self).pending()[0], old(self).pending().len() == 1))
                &&& final(self).pending() == old(self).pending().drop_first()
            },
    {
        let r = self.buffer.pop_front();
        proof {
            if old(self).pending().len() > 0 {
                assert(self.buffer@ =~= old(self).pending().drop_first());
            }
        }
        match r {
            Some(m) => {
                let last = self.buffer.len() == 0;
                Some((m, last))
            },
            None => None,
        }
    }

    /// Put back a frame whose send would have blocked; it goes first next
    /// time.
    pub fn frame_blocked(&mut self, msg: Message)
        ensures
            final(self).socket() == old(self).socket(),
            final(self).pending() == seq![msg] + old(self).pending(),
    {
        self.buffer.push_front(msg);
    }

    /// Whether every frame was sent.
    pub fn is_flushed(&self) -> (b: bool)
        ensures
            b == (self.pending().len() == 0),
    {
        self.buffer.len() == 0
    }
}

/// The receiving half of an evented socket `K`: the frames of the incoming
/// multipart message gathered so far.
pub struct SocketStream<K> {
    sock: K,
    buffer: Multipart,
}

impl<K> SocketStream<K> {
    /// The socket.
    pub closed spec fn socket(&self) -> K {
        self.sock
    }

    /// The frames gathered so far.
    pub closed spec fn gathered(&self) -> Seq<Message> {
        self.buffer@
    }

    /// A stream with nothing gathered.
    pub fn from_raw(sock: K) -> (s: Self)
        ensures
            s.socket() == sock,
            s.gathered() == Seq::<Message>::empty(),
    {
        SocketStream { sock, buffer: Multipart::new() }
    }

    /// The socket.
    pub fn sock(&self) -> (s: &K)
        ensures
            *s == self.socket(),
    {
        &self.sock
    }

    /// Add a received frame; the multipart message is handed out when the
    /// frame is its last (`more` is false).
    pub fn gather(&mut self, msg: Message, more: bool) -> (r: Option<Multipart>)
        ensures
            final(self).socket() == old(self).socket(),
            final(self).gathered() == spec_gather(old(self).gathered(), msg, more).0,
            match r {
                Some(mp) => spec_gather(old(self).gathered(), msg, more).1 == Some(mp@),
                None => spec_gather(old(self).gathered(), msg, more).1 is None,
            },
    {
        gather_frame(&mut self.buffer, msg, more)
    }
}

/// A future sending one multipart message on socket `K`, which it hands
/// back when the message is sent. A future that finished or failed gives
/// the socket up and is refused (`Reused`) when polled again.
pub struct MultipartRequest<K> {
    socks: Option<K>,
    multipart: Multipart,
}

impl<K> MultipartRequest<K> {
    /// The socket, while the future holds it.
    pub closed spec fn held(&self) -> Option<K> {
        self.socks
    }

    /// The frames still to send.
    pub closed spec fn remaining(&self) -> Seq<Message> {
        self.multipart@
    }

    /// A future sending `multipart` on `sock`.
    pub fn new(sock: K, multipart: Multipart) -> (f: Self)
        ensures
            f.held() == Some(sock),
            f.remaining() == multipart@,
    {
        MultipartRequest { socks: Some(sock), multipart }
    }

    /// Begin a poll: take the socket out to send on, or refuse a future
    /// that finished or failed. Until `pending` puts it back, the future
    /// holds no socket, so a send that fails leaves it refused.
    pub fn begin(&mut self) -> (r: Result<K, Error>)
        ensures
            final(self).held() is None,
            final(self).remaining() == old(self).remaining(),
            match old(self).held() {
                Some(k) => r == Ok::<K, Error>(k),
                None => r == Err::<K, Error>(Error::Reused),
            },
    {
        match self.socks.take() {
            Some(k) => Ok(k),
            None => Err(Error::Reused),
        }
    }

    /// The frames still to send, for the send step to take from.
    pub fn multipart_mut(&mut self) -> (m: &mut Multipart)
        ensures
            *m == old(self).remaining_message(),
            final(self).remaining() == final(m)@,
            final(self).held() == old(self).held(),
    {
        &mut self.multipart
    }

    /// The message being sent, as a whole.
    pub closed spec fn remaining_message(&self) -> Multipart {
        self.multipart
    }

    /// The send is not finished: keep the socket for the next poll.
    pub fn pending(&mut self, sock: K)
        ensures
            final(self).held() == Some(sock),
            final(self).remaining() == old(self).remaining(),
    {
        self.socks = Some(sock);
    }
}

/// A future receiving one multipart message on socket `K`, which it hands
/// back with the message. A future that finished or failed gives the socket
/// up and is refused (`Reused`) when polled again.
pub struct MultipartResponse<K> {
    socks: Option<K>,
    multipart: Multipart,
}

impl<K> MultipartResponse<K> {
    /// The socket, while the future holds it.
    pub closed spec fn held(&self) -> Option<K> {
        self.socks
    }

    /// The frames gathered so far.
    pub closed spec fn gathered(&self) -> Seq<Message> {
        self.multipart@
    }

    /// The message gathered so far, as a whole.
    pub closed spec fn gathered_message(&self) -> Multipart {
        self.multipart
    }

    /// A future receiving on `sock`, nothing gathered yet.
    pub fn new(sock: K) -> (f: Self)
        ensures
            f.held() == Some(sock),
            f.gathered() == Seq::<Message>::empty(),
    {
        MultipartResponse { socks: Some(sock), multipart: Multipart::new() }
    }

    /// Begin a poll: take the socket out to receive on, or refuse a future
    /// that finished or failed.
    pub fn begin(&mut self) -> (r: Result<K, Error>)
        ensures
            final(self).held() is None,
            final(self).gathered() == old(self).gathered(),
            match old(self).held() {
                Some(k) => r == Ok::<K, Error>(k),
                None => r == Err::<K, Error>(Error::Reused),
            },
    {
        match self.socks.take() {
            Some(k) => Ok(k),
            None => Err(Error::Reused),
        }
    }

    /// The frames gathered so far, for the receive step to add to.
    pub fn multipart_mut(&mut self) -> (m: &mut Multipart)
        ensures
            *m == old(self).gathered_message(),
            final(self).gathered() == final(m)@,
            final(self).held() == old(self).held(),
    {
        &mut self.multipart
    }

    /// The message is not complete: keep the socket for the next poll.
    pub fn pending(&mut self, sock: K)
        ensures
            final(self).held() == Some(sock),
            final(self).gathered() == old(self).gathered(),
    {
        self.socks = Some(sock);
    }
}

/// Read one non-blocking send attempt on a ready socket: sent is ready; "would
/// block" is not ready, and the socket's write readiness is to be cleared
/// (second component); any other error is returned.
pub fn send_attempt(r: Result<(), SocketError>) -> (o: (Result<Async<()>, SocketError>, bool))
    ensures
        match r {
            Ok(()) => o == (Ok::<Async<()>, SocketError>(Async::Ready(())), false),
            Err(SocketError::Again) => o == (Ok::<Async<()>, SocketError>(Async::<()>::NotReady), true),
            Err(e) => o == (Err::<Async<()>, SocketError>(e), false),
        },
{
    match r {
        Ok(()) => (Ok(Async::Ready(())), false),
        Err(SocketError::Again) => (Ok(Async::NotReady), true),
        Err(e) => (Err(e), false),
    }
}

/// Read one non-blocking receive attempt on a ready socket: a frame is
/// ready; "would block" is not ready, and the socket's read readiness is to
/// be cleared (second component); any other error is returned.
pub fn recv_attempt(r: Result<Message, SocketError>) -> (o: (Result<Async<Message>, SocketError>, bool))
    ensures
        match r {
            Ok(m) => o == (Ok::<Async<Message>, SocketError>(Async::Ready(m)), false),
            Err(SocketError::Again) => o == (Ok::<Async<Message>, SocketError>(Async::<Message>::NotReady), true),
            Err(e) => o == (Err::<Async<Message>, SocketError>(e), false),
        },
{
    match r {
        Ok(m) => (Ok(Async::Ready(m)), false),
        Err(SocketError::Again) => (Ok(Async::NotReady), true),
        Err(e) => (Err(e), false),
    }
}

/// What receiving a multipart message does after one receive attempt.
pub enum ResponseStep {
    /// The message is complete.
    Complete(Multipart),
    /// Try to receive the next frame.
    Continue,
    /// Nothing arrived yet; wait for readiness.
    NotReady,
}

/// One step of receiving a multipart message: a frame is gathered, and
/// completes the message when it is the last; when no frame has arrived yet
/// (`first`) and none is there, wait; once a frame arrived, keep trying until
/// the message is complete.
pub fn response_step(gathered: &mut Multipart, first: bool, polled: Async<(Message, bool)>) -> (step: ResponseStep)
    ensures
        match polled {
            Async::Ready((msg, more)) => {
                &&& final(gathered)@ == spec_gather(old(gathered)@, msg, more).0
                &&& match step {
                    ResponseStep::Complete(mp) => !more && spec_gather(old(gathered)@, msg, more).1 == Some(mp@),
                    ResponseStep::Continue => more,
                    ResponseStep::NotReady => false,
                }
            },
            Async::NotReady => {
                &&& final(gathered)@ == old(gathered)@
                &&& if first { step is NotReady } else { step is Continue }
            },
        },
{
    match polled {
        Async::Ready((msg, more)) => {
            match gather_frame(gathered, msg, more) {
                Some(mp) => ResponseStep::Complete(mp),
                None => ResponseStep::Continue,
            }
        },
        Async::NotReady => if first {
            ResponseStep::NotReady
        } else {
            ResponseStep::Continue
        },
    }
}

/// Whether a socket may be written (or read) now: its registration
/// reports readiness, or else the socket's own events, asked for only then,
/// carry `flag`.
pub fn ready_by_events(registered_ready: bool, events: Option<PollEvents>, flag: i16) -> (b: bool)
    requires
        !registered_ready ==> events is Some,
    ensures
        registered_ready ==> b,
        !registered_ready ==> b == (events->0.bits & flag == flag),
{
    if registered_ready {
        true
    } else {
        match events {
            Some(e) => e.contains(flag),
            None => false,
        }
    }
}

} // verus!
