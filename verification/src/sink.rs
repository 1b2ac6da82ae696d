use crate::context::Context;
use vstd::prelude::*;

pub mod chain;
pub mod errors;
pub mod filter;
pub mod sink_log;

pub use errors::{SendError, TrySendError};

use crate::sink::chain::{SinkChain, State};
use crate::sink::filter::SinkFilter;
use crate::sink::sink_log::SinkLog;

verus! {

/// An enum of poll responses that are produced by Sink implementations.
#[derive(Debug, Clone, PartialEq, Eq)]
pub enum PollSend<T> {
    /// The item was accepted and sent
    Ready,
    /// The sender is pending, and has registered with the waker context
    Pending(T),
    /// The sender has been closed, and cannot send the item
    Rejected(T),
}

/// A sink which can asynchronously accept messages, and at some point may refuse to accept any further messages.
pub trait Sink: Sized {
    type Item;

    /// One attempt to send `value`, by the task with `waker`: the sink goes
    /// from `self` to `next`, and the attempt answers `r`.
    open spec fn send_step(
        self,
        waker: Option<u64>,
        value: Self::Item,
        next: Self,
        r: PollSend<Self::Item>,
    ) -> bool {
        true
    }

    /// The invariant of the sink, which every attempt keeps.
    open spec fn inv(self) -> bool {
        true
    }

    /// Attempts to accept the message, without blocking.
    /// Returns PollSend::Ready, PollSend::Pending(value), or PollSend::Rejected(value)
    fn poll_send(&mut self, cx: &mut Context, value: Self::Item) -> (r: PollSend<Self::Item>)
        requires
            (*old(self)).inv(),
        ensures
            (*final(self)).inv(),
            (*old(self)).send_step(old(cx).waker, value, *final(self), r),
            final(cx).waker == old(cx).waker,
            old(cx).woken@.is_prefix_of(final(cx).woken@),
    ;

    /// Attempts to send a message over the sink, without blocking.
    ///
    /// Returns `Ok(())` if the value was accepted.
    /// Returns `Err(TrySendError::Pending(value))` if the send would have blocked
    /// Returns `Err(TrySendError::Rejected(value))` if the value was rejected
    fn try_send(&mut self, value: Self::Item) -> (r: Result<(), TrySendError<Self::Item>>)
        requires
            (*old(self)).inv(),
        ensures
            (*final(self)).inv(),
            (*old(self)).send_step(
                None,
                value,
                *final(self),
                match r {
                    Ok(_) => PollSend::Ready,
                    Err(TrySendError::Pending(v)) => PollSend::Pending(v),
                    Err(TrySendError::Rejected(v)) => PollSend::Rejected(v),
                },
            ),
    {
        let mut context = Context::empty();
        match self.poll_send(&mut context, value) {
            PollSend::Ready => Ok(()),
            PollSend::Pending(value) => Err(TrySendError::Pending(value)),
            PollSend::Rejected(value) => Err(TrySendError::Rejected(value)),
        }
    }

    /// Chains two sinks.  Messages go to `before` until it rejects one; that
    /// message and every later one go to `self`.  The chain is a `Sink` when
    /// both accept the same items.
    fn after<Before>(self, before: Before) -> (s: SinkChain<Before, Self>)
        ensures
            s.state() == State::WritingLeft,
            s.left() == before,
            s.right() == self,
    {
        SinkChain::new(before, self)
    }

    /// Filters messages, forwarding them to the sink if the filter returns
    /// true, and accepting the others without forwarding them.
    fn filter<F>(self, filter: F) -> (s: SinkFilter<F, Self>)
        where
            F: Fn(&Self::Item) -> bool,
        ensures
            s.test() == filter,
            s.target() == self,
    {
        SinkFilter::new(filter, self)
    }

    /// Logs messages that are accepted by the sink, at the given level.
    fn log(self, level: log::Level) -> (s: SinkLog<Self>)
        ensures
            s.target() == self,
            s.spec_level() == level,
    {
        SinkLog::new(self, level)
    }
}

} // verus!
