use crate::context::Context;
use crate::stream::{PollRecv, Stream};
use vstd::prelude::*;

verus! {

/// Which stream a chain reads from.
#[derive(Debug, Clone, Copy, PartialEq, Eq)]
pub enum ChainState {
    Left,
    Right,
    Closed,
}

/// A stream that produces the items of one stream until it closes, then
/// those of another.
pub struct ChainStream<Left, Right> {
    state: ChainState,
    left: Left,
    right: Right,
}

impl<Left, Right> ChainStream<Left, Right> {
    pub closed spec fn state(&self) -> ChainState {
        self.state
    }

    pub closed spec fn left(&self) -> Left {
        self.left
    }

    pub closed spec fn right(&self) -> Right {
        self.right
    }
}

impl<Left, Right> ChainStream<Left, Right> {
    pub fn new(left: Left, right: Right) -> (s: Self)
        ensures
            s.state() == ChainState::Left,
            s.left() == left,
            s.right() == right,
    {
        Self { state: ChainState::Left, left, right }
    }
}

/// The state a chain moves to once the right stream answered `r`.
pub open spec fn after_right<T>(r: PollRecv<T>) -> ChainState {
    if r is Closed {
        ChainState::Closed
    } else {
        ChainState::Right
    }
}

impl<Left: Stream, Right: Stream<Item = Left::Item>> Stream for ChainStream<Left, Right> {
    type Item = Left::Item;

    /// While reading from the left stream, its items and pending answers are
    /// passed on; once it reports `Closed`, the right stream is polled in the
    /// same poll, and the chain reads from it from then on, until it too
    /// reports `Closed`.
    open spec fn recv_step(self, waker: Option<u64>, next: Self, r: PollRecv<Left::Item>) -> bool {
        match self.state() {
            ChainState::Left => {
                ||| {
                    &&& self.left().recv_step(waker, next.left(), r)
                    &&& !(r is Closed)
                    &&& next.right() == self.right()
                    &&& next.state() == ChainState::Left
                }
                ||| {
                    &&& self.left().recv_step(waker, next.left(), PollRecv::Closed)
                    &&& self.right().recv_step(waker, next.right(), r)
                    &&& next.state() == after_right(r)
                }
            },
            ChainState::Right => {
                &&& next.left() == self.left()
                &&& self.right().recv_step(waker, next.right(), r)
                &&& next.state() == after_right(r)
            },
            ChainState::Closed => {
                &&& r is Closed
                &&& next.left() == self.left()
                &&& next.right() == self.right()
                &&& next.state() == ChainState::Closed
            },
        }
    }

    open spec fn inv(self) -> bool {
        self.left().inv() && self.right().inv()
    }

    fn poll_recv(&mut self, cx: &mut Context) -> (r: PollRecv<Left::Item>) {
        if let ChainState::Left = self.state {
            match self.left.poll_recv(cx) {
                PollRecv::Ready(v) => return PollRecv::Ready(v),
                PollRecv::Pending => return PollRecv::Pending,
                PollRecv::Closed => {
                    self.state = ChainState::Right;
                },
            }
        }
        if let ChainState::Right = self.state {
            match self.right.poll_recv(cx) {
                PollRecv::Ready(v) => return PollRecv::Ready(v),
                PollRecv::Pending => return PollRecv::Pending,
                PollRecv::Closed => {
                    self.state = ChainState::Closed;
                    return PollRecv::Closed;
                },
            }
        }
        PollRecv::Closed
    }
}

/// The order of the states of a chain.
pub open spec fn chain_rank(s: ChainState) -> int {
    match s {
        ChainState::Left => 0,
        ChainState::Right => 1,
        ChainState::Closed => 2,
    }
}

/// A chain never goes back to a stream it left, and once closed it answers
/// `Closed` to every poll.
pub proof fn lemma_chain_moves_forward<Left: Stream, Right: Stream<Item = Left::Item>>(
    s: ChainStream<Left, Right>,
    waker: Option<u64>,
    next: ChainStream<Left, Right>,
    r: PollRecv<Left::Item>,
)
    requires
        s.recv_step(waker, next, r),
    ensures
        chain_rank(s.state()) <= chain_rank(next.state()),
        s.state() == ChainState::Closed ==> r is Closed,
        next.state() == ChainState::Closed <==> r is Closed,
{
}

} // verus!
