use crate::context::Context;
use crate::stream::{PollRecv, Stream};
use vstd::prelude::*;

verus! {

/// A stream that passes on the items of another stream, tagged with the log
/// level at which they are to be logged.
pub struct StreamLog<S> {
    stream: S,
    level: log::Level,
}

impl<S> StreamLog<S> {
    /// The stream whose items are passed on.
    pub closed spec fn source(&self) -> S {
        self.stream
    }

    /// The level at which the items are logged.
    pub closed spec fn spec_level(&self) -> log::Level {
        self.level
    }

    pub fn new(stream: S, level: log::Level) -> (s: Self)
        ensures
            s.source() == stream,
            s.spec_level() == level,
    {
        StreamLog { stream, level }
    }

    /// The level at which the items are logged.
    pub fn level(&self) -> (level: log::Level)
        ensures
            level == self.spec_level(),
    {
        self.level
    }
}

impl<S: Stream> Stream for StreamLog<S> {
    type Item = S::Item;

    open spec fn inv(self) -> bool {
        self.source().inv()
    }

    /// A poll polls the source once and answers what it answered.
    open spec fn recv_step(self, waker: Option<u64>, next: Self, r: PollRecv<S::Item>) -> bool {
        &&& next.spec_level() == self.spec_level()
        &&& self.source().recv_step(waker, next.source(), r)
    }

    fn poll_recv(&mut self, cx: &mut Context) -> (r: PollRecv<S::Item>) {
        self.stream.poll_recv(cx)
    }
}

} // verus!
