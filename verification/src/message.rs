//! Messages and multipart messages: a multipart message is the ordered list of
//! frames that a socket sends or receives as one unit.
use vstd::prelude::*;
use std::collections::VecDeque;

verus! {

/// One frame of a multipart message: its bytes.
pub struct Message {
    data: Vec<u8>,
}

impl View for Message {
    type V = Seq<u8>;

    closed spec fn view(&self) -> Seq<u8> {
        self.data@
    }
}

impl Message {
    /// An empty frame.
    pub fn new() -> (m: Message)
        ensures
            m@ == Seq::<u8>::empty(),
    {
        Message { data: Vec::new() }
    }

    /// A frame holding a copy of `bytes`.
    pub fn from_slice(bytes: &[u8]) -> (m: Message)
        ensures
            m@ == bytes@,
    {
        let mut data: Vec<u8> = Vec::new();
        let mut i: usize = 0;
        while i < bytes.len()
            invariant
                i <= bytes.len(),
                data@ == bytes@.subrange(0, i as int),
            decreases bytes.len() - i,
        {
            data.push(bytes[i]);
            i = i + 1;
            assert(data@ == bytes@.subrange(0, i as int));
        }
        Message { data }
    }

    /// A frame taking over the bytes of `data`.
    pub fn from_vec(data: Vec<u8>) -> (m: Message)
        ensures
            m@ == data@,
    {
        Message { data }
    }

    /// The frame's bytes.
    pub fn as_bytes(&self) -> (b: &[u8])
        ensures
            b@ == self@,
    {
        self.data.as_slice()
    }

    /// The frame's bytes, moved out.
    pub fn into_bytes(self) -> (b: Vec<u8>)
        ensures
            b@ == self@,
    {
        self.data
    }

    /// The number of bytes in the frame.
    pub fn len(&self) -> (n: usize)
        ensures
            n == self@.len(),
    {
        self.data.len()
    }

    /// Whether the frame holds no byte.
    pub fn is_empty(&self) -> (b: bool)
        ensures
            b == (self@.len() == 0),
    {
        self.data.len() == 0
    }

    /// A frame with the same bytes.
    pub fn duplicate(&self) -> (m: Message)
        ensures
            m@ == self@,
    {
        Message::from_slice(self.data.as_slice())
    }
}

/// The frames of a multipart message, first frame first.
pub struct Multipart(VecDeque<Message>);

impl View for Multipart {
    type V = Seq<Message>;

    closed spec fn view(&self) -> Seq<Message> {
        self.0@
    }
}

impl Multipart {
    /// A multipart message with no frame.
    pub fn new() -> (mp: Multipart)
        ensures
            mp@ == Seq::<Message>::empty(),
    {
        Multipart(VecDeque::new())
    }

    /// A multipart message of one frame.
    pub fn from_message(msg: Message) -> (mp: Multipart)
        ensures
            mp@ == seq![msg],
    {
        let mut mp = Multipart::new();
        mp.push_back(msg);
        mp
    }

    /// A multipart message of the given frames, in order.
    pub fn from_vec(v: Vec<Message>) -> (mp: Multipart)
        ensures
            mp@ == v@,
    {
        let mut v = v;
        let ghost orig = v@;
        let mut d: VecDeque<Message> = VecDeque::new();
        while v.len() > 0
            invariant
                orig == d@ + v@,
            decreases v.len(),
        {
            let m = v.remove(0);
            d.push_back(m);
            assert(orig == d@ + v@);
        }
        assert(d@ == orig);
        Multipart(d)
    }

    /// The frames, first frame first.
    pub fn into_inner(self) -> (d: VecDeque<Message>)
        ensures
            d@ == self@,
    {
        self.0
    }

    /// The frames, moved into a vector.
    pub fn into_vec(self) -> (v: Vec<Message>)
        ensures
            v@ == self@,
    {
        let mut d = self.0;
        let ghost orig = d@;
        let mut v: Vec<Message> = Vec::new();
        while d.len() > 0
            invariant
                orig == v@ + d@,
            decreases d@.len(),
        {
            let m = d.pop_front();
            match m {
                Some(m) => {
                    v.push(m);
                },
                None => {},
            }
            assert(orig == v@ + d@);
        }
        assert(v@ == orig);
        v
    }

    /// The frame at `index`, if there is one.
    pub fn get(&self, index: usize) -> (r: Option<&Message>)
        ensures
            index < self@.len() ==> r == Some(&self@[index as int]),
            index >= self@.len() ==> r is None,
    {
        if index < self.0.len() {
            Some(&self.0[index])
        } else {
            None
        }
    }

    /// Take the first frame out, if there is one.
    pub fn pop_front(&mut self) -> (r: Option<Message>)
        ensures
            old(self)@.len() > 0 ==> r == Some(old(self)@[0]) && final(self)@ == old(self)@.drop_first(),
            old(self)@.len() == 0 ==> r is None && final(self)@ == old(self)@,
    {
        self.0.pop_front()
    }

    /// Take the last frame out, if there is one.
    pub fn pop_back(&mut self) -> (r: Option<Message>)
        ensures
            old(self)@.len() > 0 ==> r == Some(old(self)@.last()) && final(self)@ == old(self)@.drop_last(),
            old(self)@.len() == 0 ==> r is None && final(self)@ == old(self)@,
    {
        self.0.pop_back()
    }

    /// Put a frame before the first one.
    pub fn push_front(&mut self, msg: Message)
        ensures
            final(self)@ == seq![msg] + old(self)@,
    {
        self.0.push_front(msg)
    }

    /// Put a frame after the last one.
    pub fn push_back(&mut self, msg: Message)
        ensures
            final(self)@ == old(self)@.push(msg),
    {
        self.0.push_back(msg)
    }

    /// Whether the multipart message has no frame.
    pub fn is_empty(&self) -> (b: bool)
        ensures
            b == (self@.len() == 0),
    {
        self.0.len() == 0
    }

    /// The number of frames.
    pub fn len(&self) -> (n: usize)
        ensures
            n == self@.len(),
    {
        self.0.len()
    }
}

} // verus!
