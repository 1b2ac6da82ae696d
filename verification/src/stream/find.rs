use crate::context::Context;
use crate::stream::filter::{rejected_run, rejection_budget};
use crate::stream::{PollRecv, Stream};
use vstd::prelude::*;

verus! {

/// Whether a find still reads its source.
#[derive(Debug, Clone, Copy, PartialEq, Eq)]
pub enum State {
    Reading,
    Closed,
}

/// A stream that produces the first item of another stream that matches a
/// condition, and then is closed.
pub struct FindStream<From, Condition> {
    state: State,
    from: From,
    condition: Condition,
}

impl<From, Condition> FindStream<From, Condition> {
    pub closed spec fn state(&self) -> State {
        self.state
    }

    /// The stream searched.
    pub closed spec fn source(&self) -> From {
        self.from
    }

    /// The condition.
    pub closed spec fn test(&self) -> Condition {
        self.condition
    }

    pub fn new(from: From, condition: Condition) -> (s: Self)
        ensures
            s.state() == State::Reading,
            s.source() == from,
            s.test() == condition,
    {
        Self { state: State::Reading, from, condition }
    }
}

impl<From: Stream, Condition: Fn(&From::Item) -> bool> Stream for FindStream<From, Condition> {
    type Item = From::Item;

    open spec fn inv(self) -> bool {
        &&& self.source().inv()
        &&& forall|v: From::Item| #[trigger] self.test().requires((&v,))
    }

    /// Once an item has been found, every poll answers `Closed` without
    /// asking the source.  Before, a poll asks the source until it produces
    /// an item that matches, which is passed on and closes the find, or
    /// answers `Pending` or `Closed`; items that do not match are dropped.
    /// After `rejection_budget()` such items in one poll, the poll answers
    /// `Pending` and wakes its own task.
    open spec fn recv_step(self, waker: Option<u64>, next: Self, r: PollRecv<From::Item>) -> bool {
        &&& next.test() == self.test()
        &&& if self.state() == State::Closed {
            &&& r is Closed
            &&& next.source() == self.source()
            &&& next.state() == State::Closed
        } else {
            exists|states: Seq<From>, values: Seq<From::Item>|
                {
                    &&& #[trigger] rejected_run(self.test(), states, values, waker)
                    &&& states[0] == self.source()
                    &&& {
                        ||| r matches PollRecv::Ready(v) && states.last().recv_step(
                            waker,
                            next.source(),
                            r,
                        ) && self.test().ensures((&v,), true) && next.state() == State::Closed
                        ||| r is Pending && states.last().recv_step(waker, next.source(), r)
                            && next.state() == State::Reading
                        ||| r is Closed && states.last().recv_step(waker, next.source(), r)
                            && next.state() == State::Reading
                        ||| r is Pending && values.len() == rejection_budget() && next.source()
                            == states.last() && next.state() == State::Reading
                    }
                }
        }
    }

    fn poll_recv(&mut self, cx: &mut Context) -> (r: PollRecv<From::Item>) {
        if let State::Closed = self.state {
            return PollRecv::Closed;
        }
        let ghost w = cx.waker;
        let ghost mut states: Seq<From> = seq![self.from];
        let ghost mut values: Seq<From::Item> = Seq::empty();
        let mut budget: usize = usize::MAX;
        loop
            invariant
                self.inv(),
                self.test() == old(self).test(),
                self.state() == State::Reading,
                old(self).state() == State::Reading,
                cx.waker == w,
                w == old(cx).waker,
                old(cx).woken@.is_prefix_of(cx.woken@),
                rejected_run(self.test(), states, values, w),
                states[0] == old(self).source(),
                states.last() == self.source(),
                values.len() + budget == usize::MAX,
                budget >= 1,
            decreases budget,
        {
            match self.from.poll_recv(cx) {
                PollRecv::Ready(value) => {
                    if (self.condition)(&value) {
                        self.state = State::Closed;
                        assert(rejected_run(old(self).test(), states, values, w));
                        return PollRecv::Ready(value);
                    }
                    proof {
                        let states0 = states;
                        let values0 = values;
                        states = states.push(self.from);
                        values = values.push(value);
                        assert forall|i: int| 0 <= i < values.len() implies #[trigger] states[i].recv_step(
                            w,
                            states[i + 1],
                            PollRecv::Ready(values[i]),
                        ) && self.test().ensures((&values[i],), false) by {
                            if i < values0.len() {
                                assert(states0[i] == states[i] && states0[i + 1] == states[i + 1]);
                            }
                        }
                    }
                    if budget == 1 {
                        if let Some(waker) = cx.waker() {
                            cx.woken.push(waker);
                        }
                        assert(rejected_run(old(self).test(), states, values, w));
                        return PollRecv::Pending;
                    }
                    budget = budget - 1;
                },
                PollRecv::Pending => {
                    assert(rejected_run(old(self).test(), states, values, w));
                    return PollRecv::Pending;
                },
                PollRecv::Closed => {
                    assert(rejected_run(old(self).test(), states, values, w));
                    return PollRecv::Closed;
                },
            }
        }
    }
}

/// A find produces at most one item: the one it produces matches the
/// condition and closes it, and a closed find answers `Closed` to every poll.
pub proof fn lemma_find_single_match<From: Stream, Condition: Fn(&From::Item) -> bool>(
    s: FindStream<From, Condition>,
    waker: Option<u64>,
    next: FindStream<From, Condition>,
    r: PollRecv<From::Item>,
)
    requires
        s.recv_step(waker, next, r),
    ensures
        r matches PollRecv::Ready(v) ==> s.test().ensures((&v,), true) && next.state()
            == State::Closed,
        s.state() == State::Closed ==> r is Closed && next.state() == State::Closed,
{
}

/// A find stream keeps its invariant when its source does and the condition
/// can be applied to every item.
pub proof fn lemma_find_inv<From: Stream, Condition: Fn(&From::Item) -> bool>(
    s: FindStream<From, Condition>,
)
    requires
        s.source().inv(),
        forall|v: From::Item| #[trigger] s.test().requires((&v,)),
    ensures
        s.inv(),
{
}

/// A find that has not found its item answers no item only for its source:
/// `Closed` only when its source answered `Closed`, and `Pending` only when
/// its source answered `Pending`, after the find dropped the items that did
/// not match in that poll, or when the source had produced `usize::MAX`
/// items in a row that did not match in that poll.
pub proof fn lemma_find_waits_only_on_source<From: Stream, Condition: Fn(&From::Item) -> bool>(
    s: FindStream<From, Condition>,
    waker: Option<u64>,
    next: FindStream<From, Condition>,
    r: PollRecv<From::Item>,
)
    requires
        s.state() == State::Reading,
        s.recv_step(waker, next, r),
        !(r is Ready),
    ensures
        exists|states: Seq<From>, values: Seq<From::Item>|
            {
                &&& #[trigger] rejected_run(s.test(), states, values, waker)
                &&& states[0] == s.source()
                &&& {
                    ||| states.last().recv_step(waker, next.source(), r)
                    ||| r is Pending && values.len() == usize::MAX && next.source() == states.last()
                }
            },
{
}

} // verus!
