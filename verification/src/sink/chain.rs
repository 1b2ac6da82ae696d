use crate::context::Context;
use crate::sink::{PollSend, Sink};
use vstd::prelude::*;

verus! {

/// Which sink a chain writes into.
#[derive(Debug, Clone, Copy, PartialEq, Eq)]
pub enum State {
    WritingLeft,
    WritingRight,
    Closed,
}

/// A sink that sends into one sink until it rejects a message, then into
/// another.
pub struct SinkChain<Left, Right> {
    state: State,
    left: Left,
    right: Right,
}

impl<Left, Right> SinkChain<Left, Right> {
    pub closed spec fn state(&self) -> State {
        self.state
    }

    pub closed spec fn left(&self) -> Left {
        self.left
    }

    pub closed spec fn right(&self) -> Right {
        self.right
    }
}

impl<Left, Right> SinkChain<Left, Right> {
    pub fn new(left: Left, right: Right) -> (s: Self)
        ensures
            s.state() == State::WritingLeft,
            s.left() == left,
            s.right() == right,
    {
        Self { state: State::WritingLeft, left, right }
    }
}

/// The state a chain moves to once the right sink answered `r`.
pub open spec fn after_right<T>(r: PollSend<T>) -> State {
    if r is Rejected {
        State::Closed
    } else {
        State::WritingRight
    }
}

impl<Left: Sink, Right: Sink<Item = Left::Item>> Sink for SinkChain<Left, Right> {
    type Item = Left::Item;

    open spec fn inv(self) -> bool {
        self.left().inv() && self.right().inv()
    }

    /// While writing into the left sink, what it answers is passed on; once
    /// it rejects a message, that message goes to the right sink in the same
    /// attempt, and the chain writes into the right sink from then on, until
    /// it too rejects a message.  A closed chain rejects every message.
    open spec fn send_step(
        self,
        waker: Option<u64>,
        value: Left::Item,
        next: Self,
        r: PollSend<Left::Item>,
    ) -> bool {
        match self.state() {
            State::WritingLeft => {
                ||| {
                    &&& self.left().send_step(waker, value, next.left(), r)
                    &&& !(r is Rejected)
                    &&& next.right() == self.right()
                    &&& next.state() == State::WritingLeft
                }
                ||| exists|returned: Left::Item|
                    {
                        &&& #[trigger] self.left().send_step(
                            waker,
                            value,
                            next.left(),
                            PollSend::Rejected(returned),
                        )
                        &&& self.right().send_step(waker, returned, next.right(), r)
                        &&& next.state() == after_right(r)
                    }
            },
            State::WritingRight => {
                &&& next.left() == self.left()
                &&& self.right().send_step(waker, value, next.right(), r)
                &&& next.state() == after_right(r)
            },
            State::Closed => {
                &&& r == PollSend::Rejected(value)
                &&& next.left() == self.left()
                &&& next.right() == self.right()
                &&& next.state() == State::Closed
            },
        }
    }

    fn poll_send(&mut self, cx: &mut Context, value: Left::Item) -> (r: PollSend<Left::Item>) {
        let mut value = value;
        if let State::WritingLeft = self.state {
            match self.left.poll_send(cx, value) {
                PollSend::Ready => return PollSend::Ready,
                PollSend::Pending(value) => return PollSend::Pending(value),
                PollSend::Rejected(returned_value) => {
                    value = returned_value;
                    self.state = State::WritingRight;
                },
            }
        }
        if let State::WritingRight = self.state {
            match self.right.poll_send(cx, value) {
                PollSend::Ready => return PollSend::Ready,
                PollSend::Pending(value) => return PollSend::Pending(value),
                PollSend::Rejected(returned_value) => {
                    self.state = State::Closed;
                    return PollSend::Rejected(returned_value);
                },
            }
        }
        PollSend::Rejected(value)
    }
}

/// The order of the states of a chain.
pub open spec fn chain_rank(s: State) -> int {
    match s {
        State::WritingLeft => 0,
        State::WritingRight => 1,
        State::Closed => 2,
    }
}

/// A chain never goes back to a sink it left, and once closed it rejects
/// every message.
pub proof fn lemma_chain_moves_forward<Left: Sink, Right: Sink<Item = Left::Item>>(
    s: SinkChain<Left, Right>,
    waker: Option<u64>,
    value: Left::Item,
    next: SinkChain<Left, Right>,
    r: PollSend<Left::Item>,
)
    requires
        s.send_step(waker, value, next, r),
    ensures
        chain_rank(s.state()) <= chain_rank(next.state()),
        s.state() == State::Closed ==> r == PollSend::Rejected(value),
        next.state() == State::Closed <==> r is Rejected,
{
}

} // verus!
