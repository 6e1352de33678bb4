//! Framing of multipart messages on a socket: which flags each outgoing frame
//! carries, how received frames are gathered into multipart messages, and how
//! the outcome of one non-blocking socket call is read.
use vstd::prelude::*;
use crate::message::{Message, Multipart};

verus! {

/// Flag of a socket call: fail at once instead of blocking.
pub const DONTWAIT: i32 = 1;

/// Flag of a send: more frames of the same multipart message follow.
pub const SNDMORE: i32 = 2;

/// An error reported by a socket call.
#[derive(Clone, Copy, PartialEq, Eq, Structural, Debug)]
pub enum SocketError {
    /// The call would have blocked.
    Again,
    /// The socket is not in a state that allows the call.
    Fsm,
    /// Any other error, by its error number.
    Other(i32),
}

/// The flags of a non-blocking send of one frame: `SNDMORE` is added unless
/// the frame is the last of its multipart message (`DONTWAIT | SNDMORE` is 3).
pub open spec fn spec_send_flags(last: bool) -> i32 {
    if last {
        DONTWAIT
    } else {
        3i32
    }
}

/// The flags of a non-blocking send of one frame.
pub fn send_flags(last: bool) -> (flags: i32)
    ensures
        flags == spec_send_flags(last),
        (flags & SNDMORE == SNDMORE) == !last,
        flags & DONTWAIT == DONTWAIT,
{
    if last {
        assert((1i32 & 2i32) != 2i32) by (bit_vector);
        assert((1i32 & 1i32) == 1i32) by (bit_vector);
        DONTWAIT
    } else {
        assert((1i32 | 2i32) == 3i32) by (bit_vector);
        assert((3i32 & 2i32) == 2i32) by (bit_vector);
        assert((3i32 & 1i32) == 1i32) by (bit_vector);
        DONTWAIT | SNDMORE
    }
}

/// Take the next frame to send off the front of `remaining`, with the flags to
/// send it with; `None` when every frame has been taken.
pub fn next_send_frame(remaining: &mut Multipart) -> (r: Option<(Message, i32)>)
    ensures
        old(remaining)@.len() == 0 ==> r is None && final(remaining)@ == old(remaining)@,
        old(remaining)@.len() > 0 ==> {
            &&& final(remaining)@ == old(remaining)@.drop_first()
            &&& r == Some((old(remaining)@[0], spec_send_flags(old(remaining)@.len() == 1)))
        },
{
    match remaining.pop_front() {
        Some(msg) => {
            let last = remaining.is_empty();
            Some((msg, send_flags(last)))
        },
        None => None,
    }
}

/// The frames of a multipart message paired with the flags they are sent
/// with, in sending order.
pub open spec fn send_plan(frames: Seq<Message>) -> Seq<(Message, i32)> {
    Seq::new(
        frames.len(),
        |i: int| (frames[i], spec_send_flags(i == frames.len() - 1)),
    )
}

/// Taking frames one at a time with `next_send_frame` sends the frames of a
/// multipart message in order, the `k`-th of them with the `k`-th flags of the
/// send plan: every frame but the last carries `SNDMORE`.
pub proof fn law_frames_sent_in_order(frames: Seq<Message>, k: int)
    requires
        0 <= k < frames.len(),
    ensures
        frames.skip(k).len() > 0,
        (frames.skip(k)[0], spec_send_flags(frames.skip(k).len() == 1)) == send_plan(frames)[k],
        frames.skip(k).drop_first() == frames.skip(k + 1),
{
    assert(frames.skip(k).drop_first() =~= frames.skip(k + 1));
}

/// The state that gathering leaves after one received frame: the frames
/// gathered so far, and the completed multipart message, if the frame was
/// the last of its message.
pub open spec fn spec_gather(
    gathered: Seq<Message>,
    msg: Message,
    more: bool,
) -> (Seq<Message>, Option<Seq<Message>>) {
    if more {
        (gathered.push(msg), None)
    } else {
        (Seq::empty(), Some(gathered.push(msg)))
    }
}

/// Add a received frame to the frames gathered so far; when it is the last
/// frame of its multipart message (`more` is false), hand the completed
/// message out and start gathering afresh.
pub fn gather_frame(gathered: &mut Multipart, msg: Message, more: bool) -> (r: Option<Multipart>)
    ensures
        final(gathered)@ == spec_gather(old(gathered)@, msg, more).0,
        match r {
            Some(mp) => spec_gather(old(gathered)@, msg, more).1 == Some(mp@),
            None => spec_gather(old(gathered)@, msg, more).1 is None,
        },
{
    gathered.push_back(msg);
    if more {
        None
    } else {
        let mut done = Multipart::new();
        std::mem::swap(gathered, &mut done);
        Some(done)
    }
}

/// The frames gathered and the multipart messages completed after a
/// sequence of received frames, each with its "more" flag.
pub open spec fn gather_all(
    gathered: Seq<Message>,
    frames: Seq<(Message, bool)>,
) -> (Seq<Message>, Seq<Seq<Message>>)
    decreases frames.len(),
{
    if frames.len() == 0 {
        (gathered, Seq::empty())
    } else {
        let (g1, done) = spec_gather(gathered, frames[0].0, frames[0].1);
        let (g2, rest) = gather_all(g1, frames.drop_first());
        match done {
            Some(mp) => (g2, seq![mp] + rest),
            None => (g2, rest),
        }
    }
}

/// Frames paired with "more" flags that mark all but the last frame.
pub open spec fn marked_as_one_message(frames: Seq<Message>) -> Seq<(Message, bool)> {
    Seq::new(frames.len(), |i: int| (frames[i], i < frames.len() - 1))
}

proof fn lemma_gather_marked(gathered: Seq<Message>, frames: Seq<Message>)
    requires
        frames.len() > 0,
    ensures
        gather_all(gathered, marked_as_one_message(frames)) == (
            Seq::<Message>::empty(),
            seq![gathered + frames],
        ),
    decreases frames.len(),
{
    let marked = marked_as_one_message(frames);
    assert(marked[0] == (frames[0], frames.len() > 1));
    if frames.len() == 1 {
        assert(marked.drop_first() =~= Seq::<(Message, bool)>::empty());
        assert(gathered.push(frames[0]) =~= gathered + frames);
        assert(gather_all(Seq::<Message>::empty(), marked.drop_first()) == (
            Seq::<Message>::empty(),
            Seq::<Seq<Message>>::empty(),
        ));
        assert(seq![gathered + frames] + Seq::<Seq<Message>>::empty() =~= seq![gathered + frames]);
    } else {
        assert(marked.drop_first() =~= marked_as_one_message(frames.drop_first()));
        lemma_gather_marked(gathered.push(frames[0]), frames.drop_first());
        assert(gathered.push(frames[0]) + frames.drop_first() =~= gathered + frames);
    }
}

/// Receiving the frames of one multipart message, all but the last marked
/// "more", completes exactly that message, in order, and leaves nothing
/// gathered; a sender that follows the send plan is received as one message.
pub proof fn law_gather_completes_one_message(frames: Seq<Message>)
    requires
        frames.len() > 0,
    ensures
        gather_all(Seq::empty(), marked_as_one_message(frames)) == (
            Seq::<Message>::empty(),
            seq![frames],
        ),
        forall|i: int|
            0 <= i < frames.len() ==> (send_plan(frames)[i].1 & SNDMORE == SNDMORE)
                == marked_as_one_message(frames)[i].1,
{
    lemma_gather_marked(Seq::empty(), frames);
    assert(Seq::<Message>::empty() + frames =~= frames);
    assert forall|i: int| 0 <= i < frames.len() implies (send_plan(frames)[i].1 & SNDMORE
        == SNDMORE) == marked_as_one_message(frames)[i].1 by {
        assert((1i32 & 2i32) != 2i32) by (bit_vector);
        assert((3i32 & 2i32) == 2i32) by (bit_vector);
    }
}

/// Read the outcome of a non-blocking receive: a frame, nothing yet (the call
/// would have blocked), or an error.
pub fn receive_outcome(r: Result<Message, SocketError>) -> (o: Result<Option<Message>, SocketError>)
    ensures
        match r {
            Ok(m) => o == Ok::<Option<Message>, SocketError>(Some(m)),
            Err(SocketError::Again) => o == Ok::<Option<Message>, SocketError>(None),
            Err(e) => o == Err::<Option<Message>, SocketError>(e),
        },
{
    match r {
        Ok(m) => Ok(Some(m)),
        Err(SocketError::Again) => Ok(None),
        Err(e) => Err(e),
    }
}

/// Read the outcome of a non-blocking send of `msg`: sent, handed back to be
/// sent again (the call would have blocked), or an error.
pub fn send_outcome(r: Result<(), SocketError>, msg: Message) -> (o: Result<Option<Message>, SocketError>)
    ensures
        match r {
            Ok(()) => o == Ok::<Option<Message>, SocketError>(None),
            Err(SocketError::Again) => o == Ok::<Option<Message>, SocketError>(Some(msg)),
            Err(e) => o == Err::<Option<Message>, SocketError>(e),
        },
{
    match r {
        Ok(()) => Ok(None),
        Err(SocketError::Again) => Ok(Some(msg)),
        Err(e) => Err(e),
    }
}

} // verus!

verus! {

/// What a multipart send does after one frame's send call.
#[derive(Clone, Copy, PartialEq, Eq, Structural, Debug)]
pub enum FrameStep {
    /// The frame went out; go on with the next one.
    Continue,
    /// The frame would have blocked and is back at the front of the
    /// remaining frames; the remainder is to be handed back.
    Blocked,
    /// The send failed.
    Failed(SocketError),
}

/// Take the outcome of sending one frame (as read by `send_outcome`) into the
/// frames that remain to be sent.
pub fn after_frame_send(remaining: &mut Multipart, outcome: Result<Option<Message>, SocketError>) -> (step: FrameStep)
    ensures
        match outcome {
            Ok(None) => step == FrameStep::Continue && final(remaining)@ == old(remaining)@,
            Ok(Some(m)) => step == FrameStep::Blocked && final(remaining)@ == seq![m] + old(remaining)@,
            Err(e) => step == FrameStep::Failed(e) && final(remaining)@ == old(remaining)@,
        },
{
    match outcome {
        Ok(None) => FrameStep::Continue,
        Ok(Some(m)) => {
            remaining.push_front(m);
            FrameStep::Blocked
        },
        Err(e) => FrameStep::Failed(e),
    }
}

} // verus!
