use crate::context::Context;
use crate::sink::{PollSend, Sink};
use vstd::prelude::*;

verus! {

/// A sink that forwards the messages for which the filter returns true, and
/// accepts and drops the others.
pub struct SinkFilter<F, Into> {
    filter: F,
    into: Into,
}

impl<F, Into> SinkFilter<F, Into> {
    /// The filter.
    pub closed spec fn test(&self) -> F {
        self.filter
    }

    /// The sink that receives the accepted messages.
    pub closed spec fn target(&self) -> Into {
        self.into
    }
}

impl<F, Into> SinkFilter<F, Into> {
    pub fn new(filter: F, into: Into) -> (s: Self)
        ensures
            s.test() == filter,
            s.target() == into,
    {
        Self { filter, into }
    }
}

impl<F: Fn(&Into::Item) -> bool, Into: Sink> Sink for SinkFilter<F, Into> {
    type Item = Into::Item;

    open spec fn inv(self) -> bool {
        &&& self.target().inv()
        &&& forall|v: Into::Item| #[trigger] self.test().requires((&v,))
    }

    /// A message the filter rejects is accepted and dropped, leaving the
    /// target as it is; any other is sent into the target.
    open spec fn send_step(
        self,
        waker: Option<u64>,
        value: Into::Item,
        next: Self,
        r: PollSend<Into::Item>,
    ) -> bool {
        &&& next.test() == self.test()
        &&& {
            ||| self.test().ensures((&value,), false) && r == PollSend::<Into::Item>::Ready
                && next.target() == self.target()
            ||| self.test().ensures((&value,), true) && self.target().send_step(
                waker,
                value,
                next.target(),
                r,
            )
        }
    }

    fn poll_send(&mut self, cx: &mut Context, value: Into::Item) -> (r: PollSend<Into::Item>) {
        assert(self.test().requires((&value,)));
        if !(self.filter)(&value) {
            return PollSend::Ready;
        }
        self.into.poll_send(cx, value)
    }
}

/// A message that the filter cannot accept is accepted by the sink without
/// reaching the target.
pub proof fn lemma_filtered_out_dropped<F: Fn(&Into::Item) -> bool, Into: Sink>(
    s: SinkFilter<F, Into>,
    waker: Option<u64>,
    value: Into::Item,
    next: SinkFilter<F, Into>,
    r: PollSend<Into::Item>,
)
    requires
        s.send_step(waker, value, next, r),
        !s.test().ensures((&value,), true),
    ensures
        r == PollSend::<Into::Item>::Ready,
        next.target() == s.target(),
{
}

/// A filter sink keeps its invariant when its target does and the filter
/// can be applied to every message.
pub proof fn lemma_filter_inv<F: Fn(&Into::Item) -> bool, Into: Sink>(s: SinkFilter<F, Into>)
    requires
        s.target().inv(),
        forall|v: Into::Item| #[trigger] s.test().requires((&v,)),
    ensures
        s.inv(),
{
}

} // verus!
