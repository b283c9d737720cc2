use vstd::prelude::*;

verus! {

/// A frame handed to the outbound half of a connection.
pub enum Frame {
    /// A text message.
    Text(Seq<char>),
    /// A close control frame.
    Close,
}

/// The transmitting half of an established connection. Transmission is best
/// effort: a frame that fails to go out is not reported back.
pub trait Outbound {
    /// Sends a text message.
    fn send_text(&mut self, data: String);

    /// Sends a close control frame.
    fn send_close(&mut self);
}

/// An outbound half together with the record of every frame handed to it.
/// The record grows only through the methods below, each of which hands the
/// frame to the outbound half.
pub struct Outlet<S> {
    inner: S,
    sent: Ghost<Seq<Frame>>,
}

impl<S: Outbound> Outlet<S> {
    /// The outbound half that was wrapped.
    pub closed spec fn spec_inner(&self) -> S {
        self.inner
    }

    /// The frames handed to the outbound half so far, in order.
    pub closed spec fn sent(&self) -> Seq<Frame> {
        self.sent@
    }

    pub fn new(inner: S) -> (r: Self)
        ensures
            r.spec_inner() == inner,
            r.sent() == Seq::<Frame>::empty(),
    {
        Outlet { inner, sent: Ghost(Seq::empty()) }
    }

    pub fn send_text(&mut self, data: String)
        ensures
            final(self).sent() == old(self).sent().push(Frame::Text(data@)),
    {
        let ghost frame = Frame::Text(data@);
        self.inner.send_text(data);
        self.sent = Ghost(self.sent@.push(frame));
    }

    pub fn send_close(&mut self)
        ensures
            final(self).sent() == old(self).sent().push(Frame::Close),
    {
        self.inner.send_close();
        self.sent = Ghost(self.sent@.push(Frame::Close));
    }
}

} // verus!
