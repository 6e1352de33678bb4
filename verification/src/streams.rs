//! Poll results of futures and streams, and the combinators that reshape
//! them: streams that end on a message or on a control stream's say, and
//! futures whose item or error is dropped, replaced or unwrapped.
use vstd::prelude::*;
use crate::message::Multipart;

verus! {

/// The result of polling a future or a stream once.
#[derive(PartialEq, Eq, Debug)]
pub enum Async<T> {
    /// The value is there.
    Ready(T),
    /// Not yet; poll again later.
    NotReady,
}

/// Decides, from each multipart message a stream yields, whether the stream
/// ends there. Implemented by users of `EndingStream`.
pub trait EndHandler {
    /// Whether the handler, as it stands, stops the stream on `multipart`.
    spec fn stops(&self, multipart: Multipart) -> bool;

    /// Whether the stream ends on `multipart`.
    fn should_stop(&mut self, multipart: &Multipart) -> (b: bool)
        ensures
            b == old(self).stops(*multipart),
    ;
}

/// Decides, from each multipart message a control stream yields, whether the
/// controlled stream ends. Implemented by users of `ControlledStream`.
pub trait ControlHandler {
    /// Whether the handler, as it stands, stops the controlled stream on the
    /// control message `multipart`.
    spec fn stops(&self, multipart: Multipart) -> bool;

    /// Whether the controlled stream ends on the control message `multipart`.
    fn should_stop(&mut self, multipart: Multipart) -> (b: bool)
        ensures
            b == old(self).stops(multipart),
    ;
}

/// A stream of multipart messages that ends when its handler says so.
pub struct EndingStream<E, S> {
    stream: S,
    end_handler: E,
}

/// What an ending stream yields for one poll of the inner stream, given
/// whether the handler asked to stop on the message polled (if any): a
/// message the handler stops on ends the stream; everything else passes.
pub open spec fn ending_outcome(polled: Async<Option<Multipart>>, stop: bool) -> Async<Option<Multipart>> {
    match polled {
        Async::Ready(Some(item)) => if stop {
            Async::Ready(None)
        } else {
            Async::Ready(Some(item))
        },
        Async::Ready(None) => Async::Ready(None),
        Async::NotReady => Async::NotReady,
    }
}

impl<E: EndHandler, S> EndingStream<E, S> {
    /// Wrap `stream` with `end_handler`.
    pub fn new(stream: S, end_handler: E) -> (s: Self)
        ensures
            s.inner() == stream,
    {
        EndingStream { stream, end_handler }
    }

    /// The wrapped stream.
    pub closed spec fn inner(&self) -> S {
        self.stream
    }

    /// The end handler.
    pub closed spec fn handler(&self) -> E {
        self.end_handler
    }

    /// The wrapped stream, to be polled.
    pub fn stream_mut(&mut self) -> (s: &mut S)
        ensures
            *s == old(self).inner(),
            final(self).inner() == *final(s),
            final(self).handler() == old(self).handler(),
    {
        &mut self.stream
    }

    /// What the ending stream yields for one poll of the inner stream: the
    /// handler is asked about a message, and the message ends the stream when
    /// it says so; errors, the end, and "not ready" pass through unchanged.
    pub fn on_poll<F>(&mut self, polled: Result<Async<Option<Multipart>>, F>) -> (r: Result<Async<Option<Multipart>>, F>)
        ensures
            final(self).inner() == old(self).inner(),
            match polled {
                Ok(Async::Ready(Some(item))) => r == Ok::<Async<Option<Multipart>>, F>(
                    ending_outcome(Async::Ready(Some(item)), old(self).handler().stops(item)),
                ),
                Ok(a) => {
                    &&& r == Ok::<Async<Option<Multipart>>, F>(a)
                    &&& final(self).handler() == old(self).handler()
                },
                Err(e) => {
                    &&& r == Err::<Async<Option<Multipart>>, F>(e)
                    &&& final(self).handler() == old(self).handler()
                },
            },
    {
        match polled {
            Ok(Async::Ready(Some(item))) => {
                let stop = self.end_handler.should_stop(&item);
                let r = ending(Async::Ready(Some(item)), stop);
                Ok(r)
            },
            Ok(a) => Ok(a),
            Err(e) => Err(e),
        }
    }
}

/// What an ending stream yields for one poll of the inner stream, given the
/// handler's answer.
pub fn ending(polled: Async<Option<Multipart>>, stop: bool) -> (r: Async<Option<Multipart>>)
    ensures
        r == ending_outcome(polled, stop),
{
    match polled {
        Async::Ready(Some(item)) => if stop {
            Async::Ready(None)
        } else {
            Async::Ready(Some(item))
        },
        Async::Ready(None) => Async::Ready(None),
        Async::NotReady => Async::NotReady,
    }
}

/// A stream of multipart messages that another stream, the control stream,
/// can end.
pub struct ControlledStream<H, S, T> {
    stream: T,
    control: S,
    handler: H,
}

/// Whether the control stream's poll result stops the controlled stream,
/// given what the handler answers about a control message: nothing yet
/// does not stop it, the control stream's end does, a control message stops
/// it when the handler says so.
pub open spec fn control_stops(control: Async<Option<Multipart>>, handler_says: bool) -> bool {
    match control {
        Async::NotReady => false,
        Async::Ready(None) => true,
        Async::Ready(Some(_)) => handler_says,
    }
}

impl<H: ControlHandler, S, T> ControlledStream<H, S, T> {
    /// Control `stream` by `control` through `handler`.
    pub fn new(stream: T, control: S, handler: H) -> (s: Self)
        ensures
            s.inner() == stream,
            s.control_stream() == control,
    {
        ControlledStream { stream, control, handler }
    }

    /// The controlled stream.
    pub closed spec fn inner(&self) -> T {
        self.stream
    }

    /// The control stream.
    pub closed spec fn control_stream(&self) -> S {
        self.control
    }

    /// The control handler.
    pub closed spec fn handler(&self) -> H {
        self.handler
    }

    /// The controlled stream, to be polled when control does not stop it.
    pub fn stream_mut(&mut self) -> (s: &mut T)
        ensures
            *s == old(self).inner(),
            final(self).inner() == *final(s),
            final(self).control_stream() == old(self).control_stream(),
            final(self).handler() == old(self).handler(),
    {
        &mut self.stream
    }

    /// The control stream, to be polled first.
    pub fn control_mut(&mut self) -> (s: &mut S)
        ensures
            *s == old(self).control_stream(),
            final(self).control_stream() == *final(s),
            final(self).inner() == old(self).inner(),
            final(self).handler() == old(self).handler(),
    {
        &mut self.control
    }

    /// Whether the control stream's poll result stops the controlled stream;
    /// the handler is asked about a control message. When this is true the
    /// controlled stream yields its end; otherwise it is polled.
    pub fn should_stop(&mut self, control: Async<Option<Multipart>>) -> (stop: bool)
        ensures
            final(self).inner() == old(self).inner(),
            final(self).control_stream() == old(self).control_stream(),
            match control {
                Async::Ready(Some(m)) => stop == control_stops(control, old(self).handler().stops(m)),
                _ => stop == control_stops(control, false) && final(self).handler() == old(self).handler(),
            },
    {
        match control {
            Async::NotReady => false,
            Async::Ready(None) => true,
            Async::Ready(Some(multipart)) => self.handler.should_stop(multipart),
        }
    }

    /// Take the control stream's poll result: an error is passed on (the
    /// controlled stream is then not polled); otherwise whether the
    /// controlled stream stops, as `should_stop` says. When it does not
    /// stop, the controlled stream is polled and its result is the result.
    pub fn on_control<F>(&mut self, control: Result<Async<Option<Multipart>>, F>) -> (r: Result<bool, F>)
        ensures
            final(self).inner() == old(self).inner(),
            final(self).control_stream() == old(self).control_stream(),
            match control {
                Err(e) => r == Err::<bool, F>(e) && final(self).handler() == old(self).handler(),
                Ok(Async::Ready(Some(m))) => r == Ok::<bool, F>(control_stops(Async::Ready(Some(m)), old(self).handler().stops(m))),
                Ok(a) => r == Ok::<bool, F>(control_stops(a, false)) && final(self).handler() == old(self).handler(),
            },
    {
        match control {
            Err(e) => Err(e),
            Ok(a) => Ok(self.should_stop(a)),
        }
    }
}

/// A future whose error is dropped.
pub struct DropErr<F> {
    f: F,
}

/// A future whose item is dropped.
pub struct DropItem<F> {
    f: F,
}

/// A future whose error is a bug: polling it to an error is not allowed.
pub struct UnwrapErr<F>(F);

/// A future whose error is replaced, once, by a given one.
pub struct SetErr<F, E>(F, Option<E>);

/// Wrap a future so that its error becomes `()`.
pub fn drop_err<F>(f: F) -> (d: DropErr<F>)
    ensures
        d.inner() == f,
{
    DropErr { f }
}

/// Wrap a future so that its item becomes `()`.
pub fn drop_item<F>(f: F) -> (d: DropItem<F>)
    ensures
        d.inner() == f,
{
    DropItem { f }
}

/// Wrap a future that must not fail.
pub fn unwrap_err<F>(f: F) -> (d: UnwrapErr<F>)
    ensures
        d.inner() == f,
{
    UnwrapErr(f)
}

/// Wrap a future so that its error becomes `e`.
pub fn set_err<F, E>(f: F, e: E) -> (d: SetErr<F, E>)
    ensures
        d.inner() == f,
        d.replacement() == Some(e),
{
    SetErr(f, Some(e))
}

impl<F> DropErr<F> {
    /// The wrapped future.
    pub closed spec fn inner(&self) -> F {
        self.f
    }

    /// The wrapped future, to be polled.
    pub fn future_mut(&mut self) -> (f: &mut F)
        ensures
            *f == old(self).inner(),
            final(self).inner() == *final(f),
    {
        &mut self.f
    }

    /// The poll result of the wrapper, from that of the wrapped future.
    pub fn map_poll<T, E>(&self, polled: Result<Async<T>, E>) -> (r: Result<Async<T>, ()>)
        ensures
            match polled {
                Ok(a) => r == Ok::<Async<T>, ()>(a),
                Err(_) => r == Err::<Async<T>, ()>(()),
            },
    {
        match polled {
            Ok(a) => Ok(a),
            Err(_) => Err(()),
        }
    }
}

impl<F> DropItem<F> {
    /// The wrapped future.
    pub closed spec fn inner(&self) -> F {
        self.f
    }

    /// The wrapped future, to be polled.
    pub fn future_mut(&mut self) -> (f: &mut F)
        ensures
            *f == old(self).inner(),
            final(self).inner() == *final(f),
    {
        &mut self.f
    }

    /// The poll result of the wrapper, from that of the wrapped future.
    pub fn map_poll<T, E>(&self, polled: Result<Async<T>, E>) -> (r: Result<Async<()>, E>)
        ensures
            match polled {
                Ok(Async::Ready(_)) => r == Ok::<Async<()>, E>(Async::Ready(())),
                Ok(Async::NotReady) => r == Ok::<Async<()>, E>(Async::NotReady),
                Err(e) => r == Err::<Async<()>, E>(e),
            },
    {
        match polled {
            Ok(Async::Ready(_)) => Ok(Async::Ready(())),
            Ok(Async::NotReady) => Ok(Async::NotReady),
            Err(e) => Err(e),
        }
    }
}

impl<F> UnwrapErr<F> {
    /// The wrapped future.
    pub closed spec fn inner(&self) -> F {
        self.0
    }

    /// The wrapped future, to be polled.
    pub fn future_mut(&mut self) -> (f: &mut F)
        ensures
            *f == old(self).inner(),
            final(self).inner() == *final(f),
    {
        &mut self.0
    }

    /// The poll result of the wrapper, from that of the wrapped future, which
    /// must not be an error.
    pub fn map_poll<T, E>(&self, polled: Result<Async<T>, E>) -> (r: Async<T>)
        requires
            polled is Ok,
        ensures
            polled == Ok::<Async<T>, E>(r),
    {
        match polled {
            Ok(a) => a,
            Err(_) => Async::NotReady,
        }
    }
}

impl<F, E> SetErr<F, E> {
    /// The wrapped future.
    pub closed spec fn inner(&self) -> F {
        self.0
    }

    /// The error still to hand out, if it was not handed out yet.
    pub closed spec fn replacement(&self) -> Option<E> {
        self.1
    }

    /// The wrapped future, to be polled.
    pub fn future_mut(&mut self) -> (f: &mut F)
        ensures
            *f == old(self).inner(),
            final(self).inner() == *final(f),
            final(self).replacement() == old(self).replacement(),
    {
        &mut self.0
    }

    /// The poll result of the wrapper, from that of the wrapped future: an
    /// error is replaced by the stored error, which can be handed out once.
    pub fn map_poll<T, E2>(&mut self, polled: Result<Async<T>, E2>) -> (r: Result<Async<T>, E>)
        requires
            polled is Err ==> old(self).replacement() is Some,
        ensures
            final(self).inner() == old(self).inner(),
            match polled {
                Ok(a) => r == Ok::<Async<T>, E>(a) && final(self).replacement() == old(self).replacement(),
                Err(_) => r == Err::<Async<T>, E>(old(self).replacement()->0) && final(self).replacement() is None,
            },
    {
        match polled {
            Ok(a) => Ok(a),
            Err(_) => {
                let e = self.1.take();
                match e {
                    Some(e) => Err(e),
                    None => Ok(Async::NotReady),
                }
            },
        }
    }
}

/// An ending stream passes a message on exactly when its handler does not
/// stop on it, ends exactly when the handler stops or the inner stream
/// ends, and is not ready exactly when the inner stream is not.
pub proof fn law_ending_passes_unless_stopped(polled: Async<Option<Multipart>>, stop: bool, item: Multipart)
    ensures
        polled == Async::Ready(Some(item)) ==> (ending_outcome(polled, stop) == Async::Ready(Some(item)) <==> !stop),
        polled == Async::Ready(Some(item)) ==> (ending_outcome(polled, stop) == Async::<Option<Multipart>>::Ready(None) <==> stop),
        polled == Async::<Option<Multipart>>::Ready(None) ==> ending_outcome(polled, stop) == polled,
        (ending_outcome(polled, stop) is NotReady) <==> (polled is NotReady),
{
}

/// A controlled stream stops exactly when the control stream has ended, or
/// has yielded a message its handler stops on; a control stream with
/// nothing yet never stops it.
pub proof fn law_control_stops_when_told(control: Async<Option<Multipart>>, handler_says: bool)
    ensures
        control is NotReady ==> !control_stops(control, handler_says),
        control == Async::<Option<Multipart>>::Ready(None) ==> control_stops(control, handler_says),
        control matches Async::Ready(Some(_)) ==> (control_stops(control, handler_says) <==> handler_says),
{
}

} // verus!
