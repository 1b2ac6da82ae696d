use crate::context::Context;
use crate::sink::{PollSend, Sink};
use vstd::prelude::*;

verus! {

/// A sink that passes messages on to another sink, tagged with the log level
/// at which the accepted ones are to be logged.
pub struct SinkLog<S> {
    sink: S,
    level: log::Level,
}

impl<S> SinkLog<S> {
    /// The sink that receives the messages.
    pub closed spec fn target(&self) -> S {
        self.sink
    }

    /// The level at which accepted messages are logged.
    pub closed spec fn spec_level(&self) -> log::Level {
        self.level
    }

    pub fn new(sink: S, level: log::Level) -> (s: Self)
        ensures
            s.target() == sink,
            s.spec_level() == level,
    {
        SinkLog { sink, level }
    }

    /// The level at which accepted messages are logged.
    pub fn level(&self) -> (level: log::Level)
        ensures
            level == self.spec_level(),
    {
        self.level
    }
}

impl<S: Sink> Sink for SinkLog<S> {
    type Item = S::Item;

    open spec fn inv(self) -> bool {
        self.target().inv()
    }

    /// An attempt sends into the target once and answers what it answered.
    open spec fn send_step(
        self,
        waker: Option<u64>,
        value: S::Item,
        next: Self,
        r: PollSend<S::Item>,
    ) -> bool {
        &&& next.spec_level() == self.spec_level()
        &&& self.target().send_step(waker, value, next.target(), r)
    }

    fn poll_send(&mut self, cx: &mut Context, value: S::Item) -> (r: PollSend<S::Item>) {
        self.sink.poll_send(cx, value)
    }
}

} // verus!
