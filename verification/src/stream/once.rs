use crate::context::Context;
use crate::stream::{PollRecv, Stream};
use vstd::prelude::*;

verus! {

/// A stream which produces a single value, and then is closed.
pub struct OnceStream<T> {
    data: Option<T>,
}

impl<T> OnceStream<T> {
    /// The value not produced yet, if any.
    pub closed spec fn item(&self) -> Option<T> {
        self.data
    }

    pub fn new(item: T) -> (s: Self)
        ensures
            s.item() == Some(item),
    {
        Self { data: Some(item) }
    }
}

impl<T> Stream for OnceStream<T> {
    type Item = T;

    /// The first poll produces the value; every later poll reports `Closed`.
    open spec fn recv_step(self, waker: Option<u64>, next: Self, r: PollRecv<T>) -> bool {
        match self.item() {
            Some(v) => r == PollRecv::Ready(v) && next.item() is None,
            None => r == PollRecv::<T>::Closed && next.item() is None,
        }
    }

    open spec fn inv(self) -> bool {
        true
    }

    fn poll_recv(&mut self, cx: &mut Context) -> (r: PollRecv<T>) {
        match self.data.take() {
            Some(value) => PollRecv::Ready(value),
            None => PollRecv::Closed,
        }
    }
}

/// A once stream produces its item on the first poll, and answers `Closed` to
/// every poll after.
pub proof fn lemma_once_single_item<T>(
    s: OnceStream<T>,
    waker: Option<u64>,
    next: OnceStream<T>,
    r: PollRecv<T>,
)
    requires
        s.recv_step(waker, next, r),
    ensures
        next.item() is None,
        s.item() is None ==> r is Closed,
        s.item() matches Some(v) ==> r == PollRecv::Ready(v),
{
}

} // verus!
