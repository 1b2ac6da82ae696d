use crate::context::Context;
use crate::stream::{PollRecv, Stream};
use vstd::prelude::*;

verus! {

/// `states[0]` leads to `states.last()` by polls of the task with `waker`,
/// each of which produced the item `values[i]`, which `test` rejected.
pub open spec fn rejected_run<S: Stream, F: Fn(&S::Item) -> bool>(
    test: F,
    states: Seq<S>,
    values: Seq<S::Item>,
    waker: Option<u64>,
) -> bool {
    &&& states.len() == values.len() + 1
    &&& forall|i: int|
        0 <= i < values.len() ==> #[trigger] states[i].recv_step(
            waker,
            states[i + 1],
            PollRecv::Ready(values[i]),
        ) && test.ensures((&values[i],), false)
}

/// The number of rejected items after which a poll stops asking the source
/// and yields, waking its own task so that it is polled again.
pub open spec fn rejection_budget() -> nat {
    usize::MAX as nat
}

/// A stream that passes on the items of another stream for which the filter
/// returns true.
pub struct FilterStream<From, F> {
    from: From,
    filter: F,
}

impl<From, F> FilterStream<From, F> {
    /// The stream whose items are filtered.
    pub closed spec fn source(&self) -> From {
        self.from
    }

    /// The filter.
    pub closed spec fn test(&self) -> F {
        self.filter
    }
}

impl<From, F> FilterStream<From, F> {
    pub fn new(from: From, filter: F) -> (s: Self)
        ensures
            s.source() == from,
            s.test() == filter,
    {
        Self { from, filter }
    }
}

impl<From: Stream, F: Fn(&From::Item) -> bool> Stream for FilterStream<From, F> {
    type Item = From::Item;

    open spec fn inv(self) -> bool {
        &&& self.source().inv()
        &&& forall|v: From::Item| #[trigger] self.test().requires((&v,))
    }

    /// A poll asks the source until it produces an item that the filter
    /// accepts, or answers `Pending` or `Closed`; rejected items are dropped.
    /// After `rejection_budget()` rejected items in one poll, the poll
    /// answers `Pending` and wakes its own task.
    open spec fn recv_step(self, waker: Option<u64>, next: Self, r: PollRecv<From::Item>) -> bool {
        &&& next.test() == self.test()
        &&& exists|states: Seq<From>, values: Seq<From::Item>|
            {
                &&& #[trigger] rejected_run(self.test(), states, values, waker)
                &&& states[0] == self.source()
                &&& {
                    ||| r matches PollRecv::Ready(v) && states.last().recv_step(
                        waker,
                        next.source(),
                        r,
                    ) && self.test().ensures((&v,), true)
                    ||| r is Pending && states.last().recv_step(waker, next.source(), r)
                    ||| r is Closed && states.last().recv_step(waker, next.source(), r)
                    ||| r is Pending && values.len() == rejection_budget() && next.source()
                        == states.last()
                }
            }
    }

    fn poll_recv(&mut self, cx: &mut Context) -> (r: PollRecv<From::Item>) {
        let ghost w = cx.waker;
        let ghost mut states: Seq<From> = seq![self.from];
        let ghost mut values: Seq<From::Item> = Seq::empty();
        let mut budget: usize = usize::MAX;
        loop
            invariant
                self.inv(),
                self.test() == old(self).test(),
                cx.waker == w,
                w == old(cx).waker,
                old(cx).woken@.is_prefix_of(cx.woken@),
                rejected_run(self.test(), states, values, w),
                states[0] == old(self).source(),
                states.last() == self.source(),
                values.len() + budget == usize::MAX,
                budget >= 1,
            decreases budget,
        {
            let ghost before = self.from;
            match self.from.poll_recv(cx) {
                PollRecv::Ready(value) => {
                    if (self.filter)(&value) {
                        assert(rejected_run(old(self).test(), states, values, w));
                        return PollRecv::Ready(value);
                    }
                    proof {
                        let states0 = states;
                        let values0 = values;
                        states = states.push(self.from);
                        values = values.push(value);
                        assert forall|i: int| 0 <= i < values.len() implies #[trigger] states[i].recv_step(
                            w,
                            states[i + 1],
                            PollRecv::Ready(values[i]),
                        ) && self.test().ensures((&values[i],), false) by {
                            if i < values0.len() {
                                assert(states0[i] == states[i] && states0[i + 1] == states[i + 1]);
                            }
                        }
                    }
                    if budget == 1 {
                        if let Some(waker) = cx.waker() {
                            cx.woken.push(waker);
                        }
                        assert(rejected_run(old(self).test(), states, values, w));
                        return PollRecv::Pending;
                    }
                    budget = budget - 1;
                },
                PollRecv::Pending => {
                    assert(rejected_run(old(self).test(), states, values, w));
                    return PollRecv::Pending;
                },
                PollRecv::Closed => {
                    assert(rejected_run(old(self).test(), states, values, w));
                    return PollRecv::Closed;
                },
            }
        }
    }
}

/// A filter passes on only the items that the filter accepts.
pub proof fn lemma_filter_passes_accepted<From: Stream, F: Fn(&From::Item) -> bool>(
    s: FilterStream<From, F>,
    waker: Option<u64>,
    next: FilterStream<From, F>,
    v: From::Item,
)
    requires
        s.recv_step(waker, next, PollRecv::Ready(v)),
    ensures
        s.test().ensures((&v,), true),
{
}

/// A filter stream keeps its invariant when its source does and the filter
/// can be applied to every item.
pub proof fn lemma_filter_inv<From: Stream, F: Fn(&From::Item) -> bool>(s: FilterStream<From, F>)
    requires
        s.source().inv(),
        forall|v: From::Item| #[trigger] s.test().requires((&v,)),
    ensures
        s.inv(),
{
}

/// A filter answers no item only for its source: `Closed` only when its
/// source answered `Closed`, and `Pending` only when its source answered
/// `Pending`, after the filter dropped the items it rejected in that poll,
/// or when the source had produced `usize::MAX` rejected items in a row in
/// that poll.
pub proof fn lemma_filter_waits_only_on_source<From: Stream, F: Fn(&From::Item) -> bool>(
    s: FilterStream<From, F>,
    waker: Option<u64>,
    next: FilterStream<From, F>,
    r: PollRecv<From::Item>,
)
    requires
        s.recv_step(waker, next, r),
        !(r is Ready),
    ensures
        exists|states: Seq<From>, values: Seq<From::Item>|
            {
                &&& #[trigger] rejected_run(s.test(), states, values, waker)
                &&& states[0] == s.source()
                &&& {
                    ||| states.last().recv_step(waker, next.source(), r)
                    ||| r is Pending && values.len() == usize::MAX && next.source() == states.last()
                }
            },
{
}

} // verus!
