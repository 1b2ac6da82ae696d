use crate::context::Context;
use vstd::prelude::*;

pub mod chain;
pub mod errors;
pub mod filter;
pub mod find;
pub mod map;
pub mod merge;
pub mod once;
pub mod repeat;
pub mod stream_log;

pub use errors::TryRecvError;

use crate::stream::chain::{ChainState, ChainStream};
use crate::stream::filter::FilterStream;
use crate::stream::find::FindStream;
use crate::stream::map::MapStream;
use crate::stream::merge::MergeStream;
use crate::stream::once::OnceStream;
use crate::stream::repeat::RepeatStream;
use crate::stream::stream_log::StreamLog;

verus! {

/// An enum of poll responses that are produced by Stream implementations.
#[derive(Debug, Clone, PartialEq, Eq)]
pub enum PollRecv<T> {
    /// An item is ready
    Ready(T),
    /// The channel is open, but no messages are ready and the receiver has registered with the waker context
    Pending,
    /// The channel is closed, and no messages will ever be delivered
    Closed,
}

/// An asynchronous stream, which produces a series of messages until closed.
pub trait Stream: Sized {
    type Item;

    /// One poll of the stream, by the task with `waker`: the stream goes from
    /// `self` to `next`, and the poll answers `r`.
    open spec fn recv_step(self, waker: Option<u64>, next: Self, r: PollRecv<Self::Item>) -> bool {
        true
    }

    /// The invariant of the stream, which every poll keeps.
    open spec fn inv(self) -> bool {
        true
    }

    /// Attempts to retrieve an item from the stream, without blocking.
    /// Returns `PollRecv::Ready(value)` if a message is ready
    /// Returns `PollRecv::Pending` if the stream is open, but no message is currently available.
    /// Returns `PollRecv::Closed` if the stream is closed, and no messages are expected.
    fn poll_recv(&mut self, cx: &mut Context) -> (r: PollRecv<Self::Item>)
        requires
            (*old(self)).inv(),
        ensures
            (*final(self)).inv(),
            (*old(self)).recv_step(old(cx).waker, *final(self), r),
            final(cx).waker == old(cx).waker,
            old(cx).woken@.is_prefix_of(final(cx).woken@),
    ;

    /// Attempts to retrive a message from the stream, without blocking.
    /// Returns `Ok(value)` if a message was ready.
    /// Returns `TryRecvError::Pending` if the stream was open, but no messages were available.
    /// Returns `TryRecvError::Rejected` if the stream has been closed.
    fn try_recv(&mut self) -> (r: Result<Self::Item, TryRecvError>)
        requires
            (*old(self)).inv(),
        ensures
            (*final(self)).inv(),
            (*old(self)).recv_step(
                None,
                *final(self),
                match r {
                    Ok(v) => PollRecv::Ready(v),
                    Err(TryRecvError::Pending) => PollRecv::Pending,
                    Err(TryRecvError::Rejected) => PollRecv::Closed,
                },
            ),
    {
        let mut context = Context::empty();
        match self.poll_recv(&mut context) {
            PollRecv::Ready(value) => Ok(value),
            PollRecv::Pending => Err(TryRecvError::Pending),
            PollRecv::Closed => Err(TryRecvError::Rejected),
        }
    }

    /// Returns a stream which produces a single value, and then is closed.
    fn once(item: Self::Item) -> (s: OnceStream<Self::Item>)
        ensures
            s.item() == Some(item),
    {
        OnceStream::new(item)
    }

    /// Returns a stream which infiniately produces a clone of the value.
    fn repeat(item: Self::Item) -> (s: RepeatStream<Self::Item>)
        where
            Self::Item: Clone,
        ensures
            s.item() == item,
    {
        RepeatStream::new(item)
    }

    /// Transforms items from the stream using the map function.
    fn map<F, Into>(self, map: F) -> (s: MapStream<Self, F, Into>)
        where
            F: Fn(Self::Item) -> Into,
        ensures
            s.source() == self,
            s.mapper() == map,
    {
        MapStream::new(self, map)
    }

    /// Filters messages returned by the stream, forwarding those for which
    /// the filter returns true.
    fn filter<F>(self, filter: F) -> (s: FilterStream<Self, F>)
        where
            F: Fn(&Self::Item) -> bool,
        ensures
            s.source() == self,
            s.test() == filter,
    {
        FilterStream::new(self, filter)
    }

    /// Merges two streams, returning values from both at once, until both
    /// receivers are closed.
    fn merge<Other>(self, other: Other) -> (s: MergeStream<Self, Other>)
        ensures
            s.left() == self,
            s.right() == other,
            s.polls_left(),
    {
        MergeStream::new(self, other)
    }

    /// Chains two streams.  Returns values from `self` until it is closed,
    /// and then returns values from `other`.
    fn chain<Other>(self, other: Other) -> (s: ChainStream<Self, Other>)
        ensures
            s.state() == ChainState::Left,
            s.left() == self,
            s.right() == other,
    {
        ChainStream::new(self, other)
    }

    /// Finds a message matching a condition.  When the condition is matched,
    /// a single value will be returned.  Then the stream will be closed.
    fn find<Condition>(self, condition: Condition) -> (s: FindStream<Self, Condition>)
        where
            Condition: Fn(&Self::Item) -> bool,
        ensures
            s.state() == find::State::Reading,
            s.source() == self,
            s.test() == condition,
    {
        FindStream::new(self, condition)
    }

    /// Logs messages that are produced by the stream, at the given level.
    fn log(self, level: log::Level) -> (s: StreamLog<Self>)
        ensures
            s.source() == self,
            s.spec_level() == level,
    {
        StreamLog::new(self, level)
    }
}

} // verus!
