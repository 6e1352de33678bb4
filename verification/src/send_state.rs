//! State machines of sending and receiving through the poll loop: a send in
//! progress, a receive in progress, and a sink that sends queued messages one
//! after the other. The futures that the poll loop answers are polled by the
//! caller; these machines decide what to poll next and what follows.
use vstd::prelude::*;
use std::collections::VecDeque;
use crate::message::Multipart;
use crate::pollable::{Error, Response};
use crate::streams::Async;

verus! {

/// A send of one multipart message. `F` is the future answering a send
/// request to the poll loop.
pub enum SendState<F> {
    /// Not handed to the poll loop yet.
    Pending(Multipart),
    /// Handed over; waiting for the answer.
    Running(F),
    /// Being polled, or finished.
    Polling,
}

/// What to poll next for a send or a receive.
pub enum Work<M, F> {
    /// Hand `M` to the poll loop and poll the future it gives.
    Start(M),
    /// Poll this future again.
    Resume(F),
}

impl<F> SendState<F> {
    /// Begin polling a send: a pending message is to be handed to the poll
    /// loop, a running future is to be polled again, and polling while
    /// polling is an error. The state is `Polling` meanwhile.
    pub fn begin_flush(&mut self) -> (w: Result<Work<Multipart, F>, Error>)
        ensures
            *final(self) is Polling,
            match *old(self) {
                SendState::Pending(mp) => w matches Ok(Work::Start(m)) && m == mp,
                SendState::Running(f) => w matches Ok(Work::Resume(g)) && g == f,
                SendState::Polling => w == Err::<Work<Multipart, F>, Error>(Error::Polling),
            },
    {
        let mut s = SendState::Polling;
        std::mem::swap(self, &mut s);
        match s {
            SendState::Pending(mp) => Ok(Work::Start(mp)),
            SendState::Running(f) => Ok(Work::Resume(f)),
            SendState::Polling => Err(Error::Polling),
        }
    }

    /// Take the poll result of the send future: sent is done (the state
    /// stays `Polling`); handed back because the socket's queue was full, the
    /// message is pending again; not answered yet, the future keeps running.
    pub fn settle(&mut self, fut: F, polled: Async<Option<Multipart>>) -> (r: Async<()>)
        requires
            *old(self) is Polling,
        ensures
            match polled {
                Async::Ready(None) => r == Async::<()>::Ready(()) && *final(self) is Polling,
                Async::Ready(Some(mp)) => r == Async::<()>::NotReady && *final(self) == SendState::<F>::Pending(mp),
                Async::NotReady => r == Async::<()>::NotReady && *final(self) == SendState::Running(fut),
            },
    {
        match polled {
            Async::Ready(None) => Async::Ready(()),
            Async::Ready(Some(mp)) => {
                *self = SendState::Pending(mp);
                Async::NotReady
            },
            Async::NotReady => {
                *self = SendState::Running(fut);
                Async::NotReady
            },
        }
    }
}

/// A receive of one multipart message. `F` is the future answering a
/// receive request to the poll loop.
pub enum RecvState<F> {
    /// Not asked of the poll loop yet.
    Pending,
    /// Asked; waiting for the answer.
    Running(F),
    /// Being polled, or finished.
    Polling,
}

impl<F> RecvState<F> {
    /// Begin polling a receive: a pending receive is to be asked of the poll
    /// loop, a running future is to be polled again, and polling while
    /// polling is an error. The state is `Polling` meanwhile.
    pub fn begin_fetch(&mut self) -> (w: Result<Work<(), F>, Error>)
        ensures
            *final(self) is Polling,
            match *old(self) {
                RecvState::Pending => w matches Ok(Work::Start(())),
                RecvState::Running(f) => w matches Ok(Work::Resume(g)) && g == f,
                RecvState::Polling => w == Err::<Work<(), F>, Error>(Error::Polling),
            },
    {
        let mut s = RecvState::Polling;
        std::mem::swap(self, &mut s);
        match s {
            RecvState::Pending => Ok(Work::Start(())),
            RecvState::Running(f) => Ok(Work::Resume(f)),
            RecvState::Polling => Err(Error::Polling),
        }
    }

    /// Take the poll result of the receive future: a message is handed out
    /// (the state stays `Polling`); otherwise the future keeps running.
    pub fn settle(&mut self, fut: F, polled: Async<Multipart>) -> (r: Async<Multipart>)
        requires
            *old(self) is Polling,
        ensures
            match polled {
                Async::Ready(mp) => r == Async::Ready(mp) && *final(self) is Polling,
                Async::NotReady => r == Async::<Multipart>::NotReady && *final(self) == RecvState::Running(fut),
            },
    {
        match polled {
            Async::Ready(mp) => Async::Ready(mp),
            Async::NotReady => {
                *self = RecvState::Running(fut);
                Async::NotReady
            },
        }
    }
}

/// A sink's send machine: idle, busy with one send, or being polled.
pub enum SinkState<F> {
    Pending,
    Running(SendState<F>),
    Polling,
}

impl<F> SinkState<F> {
    /// Begin one round of flushing the sink's queue: when idle, the next
    /// queued message starts a send (or, with nothing queued, the flush is
    /// complete and the sink stays idle); a send in progress goes on; polling
    /// while polling is an error. The state is `Polling` while a send runs.
    pub fn begin_flush(&mut self, multiparts: &mut VecDeque<Multipart>) -> (w: Result<Option<SendState<F>>, Error>)
        ensures
            match *old(self) {
                SinkState::Pending => if old(multiparts)@.len() > 0 {
                    &&& w matches Ok(Some(SendState::Pending(m))) && m == old(multiparts)@[0]
                    &&& final(multiparts)@ == old(multiparts)@.drop_first()
                    &&& *final(self) is Polling
                } else {
                    &&& w matches Ok(None)
                    &&& final(multiparts)@ == old(multiparts)@
                    &&& *final(self) is Pending
                },
                SinkState::Running(s) => {
                    &&& w matches Ok(Some(s2)) && s2 == s
                    &&& final(multiparts)@ == old(multiparts)@
                    &&& *final(self) is Polling
                },
                SinkState::Polling => {
                    &&& w == Err::<Option<SendState<F>>, Error>(Error::Polling)
                    &&& final(multiparts)@ == old(multiparts)@
                    &&& *final(self) is Polling
                },
            },
    {
        let mut s = SinkState::Polling;
        std::mem::swap(self, &mut s);
        match s {
            SinkState::Pending => {
                match multiparts.pop_front() {
                    Some(mp) => Ok(Some(SendState::Pending(mp))),
                    None => {
                        *self = SinkState::Pending;
                        Ok(None)
                    },
                }
            },
            SinkState::Running(s) => Ok(Some(s)),
            SinkState::Polling => Err(Error::Polling),
        }
    }

    /// Take the outcome of polling the running send: done makes the sink
    /// idle and the flush goes on with the next message (returns true); not
    /// done keeps the send running and the flush waits (returns false).
    pub fn settle(&mut self, send: SendState<F>, done: bool) -> (go_on: bool)
        requires
            *old(self) is Polling,
        ensures
            go_on == done,
            done ==> *final(self) is Pending,
            !done ==> *final(self) == SinkState::Running(send),
    {
        if done {
            *self = SinkState::Pending;
            true
        } else {
            *self = SinkState::Running(send);
            false
        }
    }
}

/// Whether a sink with `queued` messages and room for `buffer_size` must
/// flush before taking one more.
pub fn must_flush_before_send(queued: usize, buffer_size: usize) -> (b: bool)
    ensures
        b == (queued >= buffer_size),
{
    queued >= buffer_size
}

/// Take one more message into a sink's queue, or hand it back: when a flush
/// was needed (`flush` holds whether it completed) and did not complete
/// while messages still wait, the message is handed back; otherwise it is
/// queued.
pub fn accept_send(multiparts: &mut VecDeque<Multipart>, multipart: Multipart, flush: Option<bool>) -> (r: Option<Multipart>)
    ensures
        (flush == Some(false) && old(multiparts)@.len() >= 1) ==> r == Some(multipart)
            && final(multiparts)@ == old(multiparts)@,
        !(flush == Some(false) && old(multiparts)@.len() >= 1) ==> r is None && final(multiparts)@
            == old(multiparts)@.push(multipart),
{
    match flush {
        Some(false) => {
            if multiparts.len() >= 1 {
                return Some(multipart);
            }
        },
        _ => {},
    }
    multiparts.push_back(multipart);
    None
}

/// Read the poll loop's answer to a send request: sent (nothing handed
/// back), handed back because the socket's queue was full, or an error. A
/// received message is no answer to a send.
pub fn read_send_answer(answer: Response) -> (r: Result<Option<Multipart>, Error>)
    requires
        !(answer is Received),
    ensures
        match answer {
            Response::Sent => r matches Ok(None),
            Response::Full(mp) => r matches Ok(Some(m)) && m == mp,
            Response::Error(e) => r == Err::<Option<Multipart>, Error>(e),
            Response::Received(_) => false,
        },
{
    match answer {
        Response::Sent => Ok(None),
        Response::Full(mp) => Ok(Some(mp)),
        Response::Error(e) => Err(e),
        Response::Received(mp) => Ok(Some(mp)),
    }
}

/// Read the poll loop's answer to a receive request: the message received,
/// or an error. "Sent" and "full" are no answer to a receive.
pub fn read_recv_answer(answer: Response) -> (r: Result<Multipart, Error>)
    requires
        answer is Received || answer is Error,
    ensures
        match answer {
            Response::Received(mp) => r matches Ok(m) && m == mp,
            Response::Error(e) => r == Err::<Multipart, Error>(e),
            _ => false,
        },
{
    match answer {
        Response::Received(mp) => Ok(mp),
        Response::Error(e) => Err(e),
        Response::Sent => Err(Error::Canceled),
        Response::Full(mp) => Ok(mp),
    }
}

} // verus!
