//! Barrier channels can be used to synchronize events, but do not transmit any data.
//! When the sender is dropped (or `tx.send(())` is called), the receiver is awoken.
//! This can be used to asynchronously coordinate actions between tasks.
use crate::context::Context;
use crate::sink::{PollSend, Sink};
use crate::stream::{PollRecv, Stream};
use crate::sync::notifier::Notifier;
use vstd::prelude::*;

verus! {

/// Whether the barrier has been passed.
#[derive(Debug, Clone, Copy, PartialEq, Eq)]
pub enum State {
    Pending,
    Closed,
}

/// The state of a barrier channel: whether it has been passed, and the
/// receiving tasks waiting for that.
pub struct Shared {
    state: State,
    notify_rx: Notifier,
}

impl Shared {
    pub closed spec fn state(&self) -> State {
        self.state
    }

    /// The receiving tasks waiting for the barrier.
    pub closed spec fn waiters(&self) -> Seq<u64> {
        self.notify_rx@
    }

    /// Passes the barrier, waking the waiting receivers.
    pub fn close(&mut self, woken: &mut Vec<u64>)
        ensures
            final(self).state() == State::Closed,
            final(self).waiters() == Seq::<u64>::empty(),
            final(woken)@ == old(woken)@ + old(self).waiters(),
    {
        self.state = State::Closed;
        self.notify_rx.notify(woken);
    }
}

/// Constructs a pair of barrier endpoints, with the state they share.
pub fn channel() -> (r: (Shared, Sender, Receiver))
    ensures
        r.0.state() == State::Pending,
        r.0.waiters() == Seq::<u64>::empty(),
{
    let shared = Shared { state: State::Pending, notify_rx: Notifier::new() };
    (shared, Sender {}, Receiver {})
}

/// The sender half of a barrier channel.  Dropping the sender transmits to the receiver.
///
/// Can also be triggered by sending `()`.
pub struct Sender {}

impl Sender {
    /// Sending `()` passes the barrier; once passed, sends are rejected.
    pub fn poll_send(&mut self, shared: &mut Shared, cx: &mut Context, value: ()) -> (r: PollSend<
        (),
    >)
        ensures
            final(shared).state() == State::Closed,
            final(cx).waker == old(cx).waker,
            old(shared).state() == State::Pending ==> r == PollSend::<()>::Ready
                && final(shared).waiters() == Seq::<u64>::empty() && final(cx).woken@ == old(cx).woken@ + old(shared).waiters(),
            old(shared).state() == State::Closed ==> r == PollSend::Rejected(())
                && final(shared).waiters() == old(shared).waiters() && final(cx).woken@ == old(cx).woken@,
    {
        match shared.state {
            State::Pending => {
                shared.close(&mut cx.woken);
                PollSend::Ready
            },
            State::Closed => PollSend::Rejected(()),
        }
    }

    /// Drops the sender, which passes the barrier.
    pub fn drop_with(self, shared: &mut Shared, woken: &mut Vec<u64>)
        ensures
            final(shared).state() == State::Closed,
            final(shared).waiters() == Seq::<u64>::empty(),
            final(woken)@ == old(woken)@ + old(shared).waiters(),
    {
        shared.close(woken);
    }
}

/// A barrier reciever.  Returns a `()` value once the barrier is passed.
#[derive(Clone)]
pub struct Receiver {}

impl Receiver {
    /// `Ready(())` once the barrier is passed, as often as asked; `Pending`
    /// before, subscribing the task to the barrier.
    pub fn poll_recv(&mut self, shared: &mut Shared, cx: &mut Context) -> (r: PollRecv<()>)
        ensures
            final(shared).state() == old(shared).state(),
            *final(cx) == *old(cx),
            old(shared).state() == State::Pending ==> r == PollRecv::<()>::Pending
                && final(shared).waiters() == match old(cx).waker {
                Some(w) => old(shared).waiters().push(w),
                None => old(shared).waiters(),
            },
            old(shared).state() == State::Closed ==> r == PollRecv::Ready(()) && final(shared).waiters() == old(shared).waiters(),
    {
        match shared.state {
            State::Pending => {
                shared.notify_rx.subscribe(cx);
                PollRecv::Pending
            },
            State::Closed => PollRecv::Ready(()),
        }
    }
}

/// A sender with the state it acts on, as a `Sink`: each send is a
/// `poll_send` of the sender.
pub struct SenderSink<'a> {
    sender: &'a mut Sender,
    shared: &'a mut Shared,
}

impl<'a> SenderSink<'a> {
    /// The state of the barrier.
    pub closed spec fn state(&self) -> Shared {
        *self.shared
    }

    pub fn new(sender: &'a mut Sender, shared: &'a mut Shared) -> (s: Self)
        ensures
            s.state() == *old(shared),
    {
        SenderSink { sender, shared }
    }
}

impl<'a> Sink for SenderSink<'a> {
    type Item = ();

    /// The first send passes the barrier, the waiting receivers then woken;
    /// later sends are rejected.
    open spec fn send_step(self, waker: Option<u64>, value: (), next: Self, r: PollSend<()>) -> bool {
        let o = self.state();
        let n = next.state();
        &&& n.state() == State::Closed
        &&& if o.state() == State::Pending {
            r == PollSend::<()>::Ready && n.waiters() == Seq::<u64>::empty()
        } else {
            r == PollSend::Rejected(()) && n.waiters() == o.waiters()
        }
    }

    fn poll_send(&mut self, cx: &mut Context, value: ()) -> (r: PollSend<()>) {
        self.sender.poll_send(self.shared, cx, value)
    }
}

/// A receiver with the state it acts on, as a `Stream`: each poll is a
/// `poll_recv` of the receiver.
pub struct ReceiverStream<'a> {
    receiver: &'a mut Receiver,
    shared: &'a mut Shared,
}

impl<'a> ReceiverStream<'a> {
    /// The state of the barrier.
    pub closed spec fn state(&self) -> Shared {
        *self.shared
    }

    pub fn new(receiver: &'a mut Receiver, shared: &'a mut Shared) -> (s: Self)
        ensures
            s.state() == *old(shared),
    {
        ReceiverStream { receiver, shared }
    }
}

impl<'a> Stream for ReceiverStream<'a> {
    type Item = ();

    /// `Ready(())` once the barrier is passed; `Pending` before, the task
    /// waiting for it.
    open spec fn recv_step(self, waker: Option<u64>, next: Self, r: PollRecv<()>) -> bool {
        let o = self.state();
        let n = next.state();
        &&& n.state() == o.state()
        &&& if o.state() == State::Pending {
            &&& r == PollRecv::<()>::Pending
            &&& n.waiters() == match waker {
                Some(w) => o.waiters().push(w),
                None => o.waiters(),
            }
        } else {
            r == PollRecv::Ready(()) && n.waiters() == o.waiters()
        }
    }

    fn poll_recv(&mut self, cx: &mut Context) -> (r: PollRecv<()>) {
        self.receiver.poll_recv(self.shared, cx)
    }
}

} // verus!
