use crate::context::Context;
use crate::stream::{PollRecv, Stream};
use vstd::prelude::*;

verus! {

/// A stream which produces a clone of one value on every poll.
pub struct RepeatStream<T> {
    data: T,
}

impl<T: Clone> RepeatStream<T> {
    pub fn new(data: T) -> (s: Self)
        ensures
            s.item() == data,
    {
        Self { data }
    }
}

impl<T> RepeatStream<T> {
    /// The value repeated.
    pub closed spec fn item(&self) -> T {
        self.data
    }
}

impl<T: Clone> Stream for RepeatStream<T> {
    type Item = T;

    /// Every poll produces a clone of the value, and the stream stays as it is.
    open spec fn recv_step(self, waker: Option<u64>, next: Self, r: PollRecv<T>) -> bool {
        &&& next.item() == self.item()
        &&& r matches PollRecv::Ready(v) && cloned(self.item(), v)
    }

    open spec fn inv(self) -> bool {
        true
    }

    fn poll_recv(&mut self, cx: &mut Context) -> (r: PollRecv<T>) {
        PollRecv::Ready(self.data.clone())
    }
}

} // verus!
