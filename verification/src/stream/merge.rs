use crate::context::Context;
use crate::stream::{PollRecv, Stream};
use vstd::prelude::*;

verus! {

/// The stream that a merge polls first.
#[derive(Debug, Clone, Copy, PartialEq, Eq)]
pub enum State {
    Left,
    Right,
}

impl State {
    /// The other stream.
    pub fn swap(&self) -> (s: Self)
        ensures
            s == match *self {
                State::Left => State::Right,
                State::Right => State::Left,
            },
    {
        match self {
            State::Left => State::Right,
            State::Right => State::Left,
        }
    }
}

/// A stream that produces the items of two streams, taking turns, until both
/// are closed.
pub struct MergeStream<Left, Right> {
    state: State,
    left: Left,
    right: Right,
}

impl<Left, Right> MergeStream<Left, Right> {
    pub closed spec fn left(&self) -> Left {
        self.left
    }

    pub closed spec fn right(&self) -> Right {
        self.right
    }

    /// Whether the next poll asks the left stream first.
    pub closed spec fn polls_left(&self) -> bool {
        self.state == State::Left
    }
}

impl<Left, Right> MergeStream<Left, Right> {
    pub fn new(left: Left, right: Right) -> (s: Self)
        ensures
            s.left() == left,
            s.right() == right,
            s.polls_left(),
    {
        Self { state: State::Left, left, right }
    }
}

/// What a merge answers when its first stream answered `first` (not an item)
/// and its second `second`.
pub open spec fn merged<T>(first: PollRecv<T>, second: PollRecv<T>) -> PollRecv<T> {
    match second {
        PollRecv::Ready(v) => PollRecv::Ready(v),
        PollRecv::Pending => PollRecv::Pending,
        PollRecv::Closed => if first is Closed {
            PollRecv::Closed
        } else {
            PollRecv::Pending
        },
    }
}

impl<Left: Stream, Right: Stream<Item = Left::Item>> Stream for MergeStream<Left, Right> {
    type Item = Left::Item;

    /// A poll asks the stream whose turn it is; an item it produces is
    /// passed on and the turn goes to the other stream.  Otherwise the other
    /// stream is asked too, and its item, if any, is passed on.  The merge is
    /// closed when both streams are.
    open spec fn recv_step(self, waker: Option<u64>, next: Self, r: PollRecv<Left::Item>) -> bool {
        if self.polls_left() {
            ||| {
                &&& r is Ready
                &&& self.left().recv_step(waker, next.left(), r)
                &&& next.right() == self.right()
                &&& !next.polls_left()
            }
            ||| exists|first: PollRecv<Left::Item>, second: PollRecv<Left::Item>|
                {
                    &&& !(first is Ready)
                    &&& #[trigger] self.left().recv_step(waker, next.left(), first)
                    &&& #[trigger] self.right().recv_step(waker, next.right(), second)
                    &&& r == merged(first, second)
                    &&& next.polls_left()
                }
        } else {
            ||| {
                &&& r is Ready
                &&& self.right().recv_step(waker, next.right(), r)
                &&& next.left() == self.left()
                &&& next.polls_left()
            }
            ||| exists|first: PollRecv<Left::Item>, second: PollRecv<Left::Item>|
                {
                    &&& !(first is Ready)
                    &&& #[trigger] self.right().recv_step(waker, next.right(), first)
                    &&& #[trigger] self.left().recv_step(waker, next.left(), second)
                    &&& r == merged(first, second)
                    &&& !next.polls_left()
                }
        }
    }

    open spec fn inv(self) -> bool {
        self.left().inv() && self.right().inv()
    }

    fn poll_recv(&mut self, cx: &mut Context) -> (r: PollRecv<Self::Item>) {
        let state = self.state;
        let first = match state {
            State::Left => self.left.poll_recv(cx),
            State::Right => self.right.poll_recv(cx),
        };
        let ghost polled = first;
        match first {
            PollRecv::Ready(v) => {
                self.state = state.swap();
                PollRecv::Ready(v)
            },
            _ => {
                let second = match state {
                    State::Left => self.right.poll_recv(cx),
                    State::Right => self.left.poll_recv(cx),
                };
                let ghost answered = second;
                let first_closed = matches!(first, PollRecv::Closed);
                let r = match second {
                    PollRecv::Ready(v) => PollRecv::Ready(v),
                    PollRecv::Pending => PollRecv::Pending,
                    PollRecv::Closed => if first_closed {
                        PollRecv::Closed
                    } else {
                        PollRecv::Pending
                    },
                };
                proof {
                    assert(r == merged(polled, answered));
                    if state == State::Left {
                        assert(old(self).left().recv_step(old(cx).waker, self.left(), polled));
                        assert(old(self).right().recv_step(old(cx).waker, self.right(), answered));
                    } else {
                        assert(old(self).right().recv_step(old(cx).waker, self.right(), polled));
                        assert(old(self).left().recv_step(old(cx).waker, self.left(), answered));
                    }
                }
                r
            },
        }
    }
}

/// A merge answers `Closed` only when both of its streams answered `Closed`
/// in that poll.
pub proof fn lemma_merge_closed_when_both_closed<Left: Stream, Right: Stream<Item = Left::Item>>(
    s: MergeStream<Left, Right>,
    waker: Option<u64>,
    next: MergeStream<Left, Right>,
)
    requires
        s.recv_step(waker, next, PollRecv::Closed),
    ensures
        s.left().recv_step(waker, next.left(), PollRecv::Closed),
        s.right().recv_step(waker, next.right(), PollRecv::Closed),
{
    if s.polls_left() {
        let (first, second) = choose|first: PollRecv<Left::Item>, second: PollRecv<Left::Item>|
            {
                &&& !(first is Ready)
                &&& #[trigger] s.left().recv_step(waker, next.left(), first)
                &&& #[trigger] s.right().recv_step(waker, next.right(), second)
                &&& PollRecv::<Left::Item>::Closed == merged(first, second)
                &&& next.polls_left()
            };
        assert(first is Closed && second is Closed);
    } else {
        let (first, second) = choose|first: PollRecv<Left::Item>, second: PollRecv<Left::Item>|
            {
                &&& !(first is Ready)
                &&& #[trigger] s.right().recv_step(waker, next.right(), first)
                &&& #[trigger] s.left().recv_step(waker, next.left(), second)
                &&& PollRecv::<Left::Item>::Closed == merged(first, second)
                &&& !next.polls_left()
            };
        assert(first is Closed && second is Closed);
    }
}

/// No item is lost by a merge.  An item that the merge answers was produced
/// in that poll by one of its streams.  When the merge answers no item, both
/// streams were asked in that poll and neither produced one (an item either
/// produced would have been answered), and the merge is closed exactly when
/// both of them answered `Closed`.
pub proof fn lemma_merge_loses_no_item<Left: Stream, Right: Stream<Item = Left::Item>>(
    s: MergeStream<Left, Right>,
    waker: Option<u64>,
    next: MergeStream<Left, Right>,
    r: PollRecv<Left::Item>,
)
    requires
        s.recv_step(waker, next, r),
    ensures
        r matches PollRecv::Ready(v) ==> s.left().recv_step(waker, next.left(), PollRecv::Ready(v))
            || s.right().recv_step(waker, next.right(), PollRecv::Ready(v)),
        !(r is Ready) ==> exists|a: PollRecv<Left::Item>, b: PollRecv<Left::Item>|
            {
                &&& #[trigger] s.left().recv_step(waker, next.left(), a)
                &&& #[trigger] s.right().recv_step(waker, next.right(), b)
                &&& !(a is Ready)
                &&& !(b is Ready)
                &&& (r is Closed <==> a is Closed && b is Closed)
            },
{
    if !(r is Ready) {
        if s.polls_left() {
            let (first, second) = choose|first: PollRecv<Left::Item>, second: PollRecv<Left::Item>|
                {
                    &&& !(first is Ready)
                    &&& #[trigger] s.left().recv_step(waker, next.left(), first)
                    &&& #[trigger] s.right().recv_step(waker, next.right(), second)
                    &&& r == merged(first, second)
                    &&& next.polls_left()
                };
            assert(s.left().recv_step(waker, next.left(), first));
            assert(s.right().recv_step(waker, next.right(), second));
        } else {
            let (first, second) = choose|first: PollRecv<Left::Item>, second: PollRecv<Left::Item>|
                {
                    &&& !(first is Ready)
                    &&& #[trigger] s.right().recv_step(waker, next.right(), first)
                    &&& #[trigger] s.left().recv_step(waker, next.left(), second)
                    &&& r == merged(first, second)
                    &&& !next.polls_left()
                };
            assert(s.left().recv_step(waker, next.left(), second));
            assert(s.right().recv_step(waker, next.right(), first));
        }
    } else if s.polls_left() {
        if !s.left().recv_step(waker, next.left(), r) {
            let (first, second) = choose|first: PollRecv<Left::Item>, second: PollRecv<Left::Item>|
                {
                    &&& !(first is Ready)
                    &&& #[trigger] s.left().recv_step(waker, next.left(), first)
                    &&& #[trigger] s.right().recv_step(waker, next.right(), second)
                    &&& r == merged(first, second)
                    &&& next.polls_left()
                };
            assert(second == r);
        }
    } else {
        if !s.right().recv_step(waker, next.right(), r) {
            let (first, second) = choose|first: PollRecv<Left::Item>, second: PollRecv<Left::Item>|
                {
                    &&& !(first is Ready)
                    &&& #[trigger] s.right().recv_step(waker, next.right(), first)
                    &&& #[trigger] s.left().recv_step(waker, next.left(), second)
                    &&& r == merged(first, second)
                    &&& !next.polls_left()
                };
            assert(second == r);
        }
    }
}

} // verus!
