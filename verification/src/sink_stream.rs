//! A socket used both as a sink and as a stream: which halves are busy, and
//! how polling one half leaves the other. The halves themselves (`K`, the
//! sending half, and `M`, the receiving half) are polled by the caller.
use vstd::prelude::*;
use crate::frames::SocketError;

verus! {

/// Errors of a socket used as sink and stream.
#[derive(Clone, Copy, PartialEq, Eq, Structural, Debug)]
pub enum Error {
    /// A socket call failed.
    Zmq(SocketError),
    /// The socket could not be registered for readiness events.
    Io,
    /// A timer failed.
    Timer,
    /// The sink was used while it was being polled.
    Sink,
    /// The stream was used while it was being polled.
    Stream,
    /// A future was polled after it completed.
    Reused,
}

/// Which halves of the socket are busy.
pub enum SinkStreamState<K, M> {
    Sink(K),
    Stream(M),
    Both(K, M),
    Ready,
    Polling,
}

/// What to poll to complete pending sends.
pub enum CompleteWork<K, M> {
    /// Nothing to send: complete.
    Done,
    /// Poll this sending half; the receiving half, if busy, waits aside.
    PollSink(K, Option<M>),
}

/// Beginning to take a message to send, from state `s0`, leaves `s1` and
/// gives `r`: the busy halves are handed out and the state is `Polling`;
/// from `Polling` the send is refused.
pub open spec fn start_send_step<K, M>(
    s0: SinkStreamState<K, M>,
    s1: SinkStreamState<K, M>,
    r: Result<(Option<K>, Option<M>), Error>,
) -> bool {
    &&& s1 is Polling
    &&& match s0 {
        SinkStreamState::Ready => r == Ok::<(Option<K>, Option<M>), Error>((None, None)),
        SinkStreamState::Sink(k) => r == Ok::<(Option<K>, Option<M>), Error>((Some(k), None)),
        SinkStreamState::Stream(m) => r == Ok::<(Option<K>, Option<M>), Error>((None, Some(m))),
        SinkStreamState::Both(k, m) => r == Ok::<(Option<K>, Option<M>), Error>((Some(k), Some(m))),
        SinkStreamState::Polling => r == Err::<(Option<K>, Option<M>), Error>(Error::Sink),
    }
}

/// Beginning to complete pending sends, from state `s0`, leaves `s1` and
/// gives `r`.
pub open spec fn complete_step<K, M>(
    s0: SinkStreamState<K, M>,
    s1: SinkStreamState<K, M>,
    r: Result<CompleteWork<K, M>, Error>,
) -> bool {
    match s0 {
        SinkStreamState::Ready => r matches Ok(CompleteWork::Done) && s1 is Ready,
        SinkStreamState::Stream(m) => r matches Ok(CompleteWork::Done) && s1 == SinkStreamState::<K, M>::Stream(m),
        SinkStreamState::Sink(k) => r matches Ok(CompleteWork::PollSink(k2, None)) && k2 == k && s1 is Polling,
        SinkStreamState::Both(k, m) => r matches Ok(CompleteWork::PollSink(k2, Some(m2))) && k2 == k && m2 == m
            && s1 is Polling,
        SinkStreamState::Polling => r matches Err(Error::Sink) && s1 is Polling,
    }
}

/// Beginning to poll for a received message, from state `s0`, leaves `s1`
/// and gives `r`: the busy halves are handed out and the state is
/// `Polling`; from `Polling` the poll is refused.
pub open spec fn poll_step<K, M>(
    s0: SinkStreamState<K, M>,
    s1: SinkStreamState<K, M>,
    r: Result<(Option<M>, Option<K>), Error>,
) -> bool {
    &&& s1 is Polling
    &&& match s0 {
        SinkStreamState::Ready => r == Ok::<(Option<M>, Option<K>), Error>((None, None)),
        SinkStreamState::Sink(k) => r == Ok::<(Option<M>, Option<K>), Error>((None, Some(k))),
        SinkStreamState::Both(k, m) => r == Ok::<(Option<M>, Option<K>), Error>((Some(m), Some(k))),
        SinkStreamState::Stream(m) => r == Ok::<(Option<M>, Option<K>), Error>((Some(m), None)),
        SinkStreamState::Polling => r == Err::<(Option<M>, Option<K>), Error>(Error::Stream),
    }
}

/// A socket used both as a sink and as a stream.
pub struct MultipartSinkStream<K, M> {
    inner: SinkStreamState<K, M>,
    buffer_size: usize,
}

impl<K, M> MultipartSinkStream<K, M> {
    /// Which halves are busy.
    pub closed spec fn state(&self) -> SinkStreamState<K, M> {
        self.inner
    }

    /// How many messages a sending half may queue.
    pub closed spec fn capacity(&self) -> usize {
        self.buffer_size
    }

    /// A socket with neither half busy.
    pub fn new(buffer_size: usize) -> (s: Self)
        ensures
            s.state() is Ready,
            s.capacity() == buffer_size,
    {
        MultipartSinkStream { inner: SinkStreamState::Ready, buffer_size }
    }

    /// How many messages a sending half may queue.
    pub fn buffer_size(&self) -> (n: usize)
        ensures
            n == self.capacity(),
    {
        self.buffer_size
    }

    fn polling(&mut self) -> (s: SinkStreamState<K, M>)
        ensures
            s == old(self).state(),
            final(self).state() is Polling,
            final(self).capacity() == old(self).capacity(),
    {
        let mut s = SinkStreamState::Polling;
        std::mem::swap(&mut self.inner, &mut s);
        s
    }

    /// Begin taking a message to send: the busy sending half (`None`: a new
    /// one is to be made) and the busy receiving half, if any; an error while
    /// being polled. The state is `Polling` until `finish_start_send`.
    pub fn begin_start_send(&mut self) -> (r: Result<(Option<K>, Option<M>), Error>)
        ensures
            final(self).capacity() == old(self).capacity(),
            start_send_step(old(self).state(), final(self).state(), r),
    {
        match self.polling() {
            SinkStreamState::Ready => Ok((None, None)),
            SinkStreamState::Sink(k) => Ok((Some(k), None)),
            SinkStreamState::Stream(m) => Ok((None, Some(m))),
            SinkStreamState::Both(k, m) => Ok((Some(k), Some(m))),
            SinkStreamState::Polling => Err(Error::Sink),
        }
    }

    /// The sending half took the message: it is busy, beside the receiving
    /// half if that is busy.
    pub fn finish_start_send(&mut self, sink: K, stream: Option<M>)
        ensures
            final(self).capacity() == old(self).capacity(),
            match stream {
                Some(m) => final(self).state() == SinkStreamState::Both(sink, m),
                None => final(self).state() == SinkStreamState::<K, M>::Sink(sink),
            },
    {
        match stream {
            Some(m) => self.inner = SinkStreamState::Both(sink, m),
            None => self.inner = SinkStreamState::Sink(sink),
        }
    }

    /// Begin completing pending sends: with no busy sending half it is
    /// complete at once (the state is kept); a busy sending half is to be
    /// polled (the state is `Polling` until `settle_sink`); an error while
    /// being polled.
    pub fn begin_poll_complete(&mut self) -> (r: Result<CompleteWork<K, M>, Error>)
        ensures
            final(self).capacity() == old(self).capacity(),
            complete_step(old(self).state(), final(self).state(), r),
    {
        match self.polling() {
            SinkStreamState::Ready => {
                self.inner = SinkStreamState::Ready;
                Ok(CompleteWork::Done)
            },
            SinkStreamState::Sink(k) => Ok(CompleteWork::PollSink(k, None)),
            SinkStreamState::Stream(m) => {
                self.inner = SinkStreamState::Stream(m);
                Ok(CompleteWork::Done)
            },
            SinkStreamState::Both(k, m) => Ok(CompleteWork::PollSink(k, Some(m))),
            SinkStreamState::Polling => Err(Error::Sink),
        }
    }

    /// Take the outcome of polling the sending half: when its sends are
    /// complete it is no longer busy; otherwise it stays busy. The receiving
    /// half set aside is busy again either way.
    pub fn settle_sink(&mut self, sink: K, stream: Option<M>, complete: bool)
        ensures
            final(self).capacity() == old(self).capacity(),
            complete ==> match stream {
                Some(m) => final(self).state() == SinkStreamState::<K, M>::Stream(m),
                None => final(self).state() is Ready,
            },
            !complete ==> match stream {
                Some(m) => final(self).state() == SinkStreamState::Both(sink, m),
                None => final(self).state() == SinkStreamState::<K, M>::Sink(sink),
            },
    {
        if complete {
            match stream {
                Some(m) => self.inner = SinkStreamState::Stream(m),
                None => self.inner = SinkStreamState::Ready,
            }
        } else {
            match stream {
                Some(m) => self.inner = SinkStreamState::Both(sink, m),
                None => self.inner = SinkStreamState::Sink(sink),
            }
        }
    }

    /// Begin polling for a received message: the busy receiving half to poll
    /// (`None`: a new one is to be made) and the busy sending half, set
    /// aside; an error while being polled. The state is `Polling` until
    /// `settle_stream`.
    pub fn begin_poll(&mut self) -> (r: Result<(Option<M>, Option<K>), Error>)
        ensures
            final(self).capacity() == old(self).capacity(),
            poll_step(old(self).state(), final(self).state(), r),
    {
        match self.polling() {
            SinkStreamState::Ready => Ok((None, None)),
            SinkStreamState::Sink(k) => Ok((None, Some(k))),
            SinkStreamState::Both(k, m) => Ok((Some(m), Some(k))),
            SinkStreamState::Stream(m) => Ok((Some(m), None)),
            SinkStreamState::Polling => Err(Error::Stream),
        }
    }

    /// Take the outcome of polling the receiving half: when it yielded, it is
    /// no longer busy (it is dropped); otherwise it stays busy. The sending
    /// half set aside is busy again either way.
    pub fn settle_stream(&mut self, stream: M, sink: Option<K>, yielded: bool)
        ensures
            final(self).capacity() == old(self).capacity(),
            yielded ==> match sink {
                Some(k) => final(self).state() == SinkStreamState::<K, M>::Sink(k),
                None => final(self).state() is Ready,
            },
            !yielded ==> match sink {
                Some(k) => final(self).state() == SinkStreamState::Both(k, stream),
                None => final(self).state() == SinkStreamState::<K, M>::Stream(stream),
            },
    {
        if yielded {
            match sink {
                Some(k) => self.inner = SinkStreamState::Sink(k),
                None => self.inner = SinkStreamState::Ready,
            }
        } else {
            match sink {
                Some(k) => self.inner = SinkStreamState::Both(k, stream),
                None => self.inner = SinkStreamState::Stream(stream),
            }
        }
    }
}


/// Once taking a message to send has begun and not finished (the sending
/// half failed, so `finish_start_send` never came), the socket stays failed:
/// every later send is refused with `Sink`, every completion with `Sink`,
/// every receive with `Stream`, and the state stays `Polling`.
pub proof fn law_failed_send_stays_failed<K, M>(
    s0: SinkStreamState<K, M>,
    s1: SinkStreamState<K, M>,
    r: Result<(Option<K>, Option<M>), Error>,
)
    requires
        start_send_step(s0, s1, r),
    ensures
        forall|s2: SinkStreamState<K, M>, r2: Result<(Option<K>, Option<M>), Error>|
            #[trigger] start_send_step(s1, s2, r2) ==> r2 == Err::<(Option<K>, Option<M>), Error>(Error::Sink) && s2 is Polling,
        forall|s2: SinkStreamState<K, M>, r2: Result<CompleteWork<K, M>, Error>|
            #[trigger] complete_step(s1, s2, r2) ==> (r2 matches Err(Error::Sink) && s2 is Polling),
        forall|s2: SinkStreamState<K, M>, r2: Result<(Option<M>, Option<K>), Error>|
            #[trigger] poll_step(s1, s2, r2) ==> r2 == Err::<(Option<M>, Option<K>), Error>(Error::Stream) && s2 is Polling,
{
}

/// The busy sending half of a state, if any.
pub open spec fn sink_half<K, M>(s: SinkStreamState<K, M>) -> Option<K> {
    match s {
        SinkStreamState::Sink(k) => Some(k),
        SinkStreamState::Both(k, _) => Some(k),
        _ => None,
    }
}

/// The busy receiving half of a state, if any.
pub open spec fn stream_half<K, M>(s: SinkStreamState<K, M>) -> Option<M> {
    match s {
        SinkStreamState::Stream(m) => Some(m),
        SinkStreamState::Both(_, m) => Some(m),
        _ => None,
    }
}

/// The state with the given busy halves.
pub open spec fn with_halves<K, M>(k: Option<K>, m: Option<M>) -> SinkStreamState<K, M> {
    match (k, m) {
        (Some(k), Some(m)) => SinkStreamState::Both(k, m),
        (Some(k), None) => SinkStreamState::Sink(k),
        (None, Some(m)) => SinkStreamState::Stream(m),
        (None, None) => SinkStreamState::Ready,
    }
}

/// The busy halves make up the state: handing them back gives the state
/// they were taken from (`Polling` has no halves).
pub proof fn law_halves_make_up_state<K, M>(s0: SinkStreamState<K, M>)
    requires
        !(s0 is Polling),
    ensures
        with_halves(sink_half(s0), stream_half(s0)) == s0,
{
}

/// Beginning to take a message to send loses no busy half: from any state
/// but `Polling` it hands out exactly the busy sending and receiving halves.
pub proof fn law_begin_send_loses_no_half<K, M>(
    s0: SinkStreamState<K, M>,
    s1: SinkStreamState<K, M>,
    r: Result<(Option<K>, Option<M>), Error>,
)
    requires
        !(s0 is Polling),
        start_send_step(s0, s1, r),
    ensures
        r == Ok::<(Option<K>, Option<M>), Error>((sink_half(s0), stream_half(s0))),
{
}

/// Beginning to poll for a received message loses no busy half: from any
/// state but `Polling` it hands out exactly the busy receiving half and the
/// busy sending half, set aside.
pub proof fn law_begin_poll_loses_no_half<K, M>(
    s0: SinkStreamState<K, M>,
    s1: SinkStreamState<K, M>,
    r: Result<(Option<M>, Option<K>), Error>,
)
    requires
        !(s0 is Polling),
        poll_step(s0, s1, r),
    ensures
        r == Ok::<(Option<M>, Option<K>), Error>((stream_half(s0), sink_half(s0))),
{
}

/// Beginning to complete pending sends loses no busy half: with no sending
/// half busy it is done at once and the state is kept; otherwise it hands
/// out exactly the busy sending half and sets the busy receiving half
/// aside.
pub proof fn law_begin_complete_loses_no_half<K, M>(
    s0: SinkStreamState<K, M>,
    s1: SinkStreamState<K, M>,
    r: Result<CompleteWork<K, M>, Error>,
)
    requires
        !(s0 is Polling),
        complete_step(s0, s1, r),
    ensures
        sink_half(s0) is None ==> (r matches Ok(CompleteWork::Done) && s1 == s0),
        sink_half(s0) is Some ==> (r matches Ok(CompleteWork::PollSink(k, m)) && Some(k) == sink_half(s0) && m
            == stream_half(s0)),
{
}

} // verus!
