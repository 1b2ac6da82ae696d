use crate::context::Context;
use crate::stream::{PollRecv, Stream};
use std::marker::PhantomData;
use vstd::prelude::*;

verus! {

/// A stream that transforms each item of another stream with a function.
#[verifier::reject_recursive_types(Into)]
pub struct MapStream<From, F, Into> {
    from: From,
    map: F,
    into: PhantomData<Into>,
}

impl<From, F, Into> MapStream<From, F, Into> {
    /// The stream whose items are transformed.
    pub closed spec fn source(&self) -> From {
        self.from
    }

    /// The function applied to each item.
    pub closed spec fn mapper(&self) -> F {
        self.map
    }

    pub fn new(from: From, map: F) -> (s: Self)
        ensures
            s.source() == from,
            s.mapper() == map,
    {
        Self { from, map, into: PhantomData }
    }
}

impl<From: Stream, F: Fn(From::Item) -> Into, Into> Stream for MapStream<From, F, Into> {
    type Item = Into;

    /// A poll polls the source once; an item it produces is transformed.
    open spec fn recv_step(self, waker: Option<u64>, next: Self, r: PollRecv<Into>) -> bool {
        &&& next.mapper() == self.mapper()
        &&& match r {
            PollRecv::Ready(o) => exists|v: From::Item|
                #[trigger] self.source().recv_step(waker, next.source(), PollRecv::Ready(v))
                    && self.mapper().ensures((v,), o),
            PollRecv::Pending => self.source().recv_step(waker, next.source(), PollRecv::Pending),
            PollRecv::Closed => self.source().recv_step(waker, next.source(), PollRecv::Closed),
        }
    }

    open spec fn inv(self) -> bool {
        self.source().inv() && forall|v: From::Item| #[trigger] self.mapper().requires((v,))
    }

    fn poll_recv(&mut self, cx: &mut Context) -> (r: PollRecv<Into>) {
        match self.from.poll_recv(cx) {
            PollRecv::Ready(v) => {
                let ghost gv = v;
                assert(old(self).mapper().requires((v,)));
                let o = (self.map)(v);
                assert(old(self).source().recv_step(old(cx).waker, self.source(), PollRecv::Ready(gv)));
                PollRecv::Ready(o)
            },
            PollRecv::Pending => PollRecv::Pending,
            PollRecv::Closed => PollRecv::Closed,
        }
    }
}

/// A map stream keeps its invariant when its source does and the map can
/// be applied to every item.
pub proof fn lemma_map_inv<From: Stream, F: Fn(From::Item) -> Into, Into>(
    s: MapStream<From, F, Into>,
)
    requires
        s.source().inv(),
        forall|v: From::Item| #[trigger] s.mapper().requires((v,)),
    ensures
        s.inv(),
{
}

} // verus!
