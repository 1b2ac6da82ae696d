//! Oneshot channels transmit a single value between a sender and a reciever.
//! Neither can be cloned.  If the sender drops, the receiver recieves a `None` value.
use crate::context::Context;
use crate::sink::{PollSend, Sink};
use crate::stream::{PollRecv, Stream};
use crate::sync::transfer::Transfer;
use std::marker::PhantomData;
use vstd::prelude::*;

verus! {

/// Constructs a pair of oneshot endpoints, with the transfer they share.
pub fn channel<T>() -> (r: (Transfer<T>, Sender<T>, Receiver<T>))
    ensures
        r.0.value() is None,
        !r.0.is_closed(),
        r.0.waiter() is None,
{
    (Transfer::new(), Sender { value: PhantomData }, Receiver { value: PhantomData })
}

/// The sender half of a oneshot channel.
pub struct Sender<T> {
    value: PhantomData<T>,
}

impl<T> Sender<T> {
    /// Sends the value, waking the receiver; once a value was sent or the
    /// receiver is gone, the value is rejected.
    pub fn poll_send(&mut self, shared: &mut Transfer<T>, cx: &mut Context, value: T) -> (r:
        PollSend<T>)
        ensures
            final(cx).waker == old(cx).waker,
            old(shared).is_closed() || old(shared).value() is Some ==> r == PollSend::Rejected(
                value,
            ) && *final(shared) == *old(shared) && final(cx).woken@ == old(cx).woken@,
            !old(shared).is_closed() && old(shared).value() is None ==> r == PollSend::<T>::Ready
                && final(shared).value() == Some(value) && !final(shared).is_closed() && final(shared).waiter() is None && final(cx).woken@ == match old(shared).waiter() {
                Some(w) => old(cx).woken@.push(w),
                None => old(cx).woken@,
            },
    {
        match shared.send(value, &mut cx.woken) {
            Ok(_) => PollSend::Ready,
            Err(v) => PollSend::Rejected(v),
        }
    }

    /// Drops the sender: without a value sent, the receiver sees the channel
    /// closed.
    pub fn drop_with(self, shared: &mut Transfer<T>, woken: &mut Vec<u64>)
        ensures
            final(shared).value() == old(shared).value(),
            final(shared).is_closed() == (old(shared).is_closed() || old(shared).value() is None),
            final(shared).waiter() is None,
            final(woken)@ == match old(shared).waiter() {
                Some(w) => old(woken)@.push(w),
                None => old(woken)@,
            },
    {
        shared.sender_disconnect(woken);
    }
}

/// The receiver half of a oneshot channel.
pub struct Receiver<T> {
    value: PhantomData<T>,
}

impl<T> Receiver<T> {
    /// Receives the value sent, after which the channel is closed.
    pub fn poll_recv(&mut self, shared: &mut Transfer<T>, cx: &mut Context) -> (r: PollRecv<T>)
        ensures
            *final(cx) == *old(cx),
            old(shared).value() matches Some(v) ==> r == PollRecv::Ready(v) && final(shared).value() is None && final(shared).is_closed(),
            old(shared).value() is None && old(shared).is_closed() ==> r == PollRecv::<T>::Closed
                && *final(shared) == *old(shared),
            old(shared).value() is None && !old(shared).is_closed() ==> r == PollRecv::<T>::Pending
                && final(shared).value() is None && !final(shared).is_closed() && final(shared).waiter() == if old(cx).waker is Some {
                old(cx).waker
            } else {
                old(shared).waiter()
            },
    {
        shared.recv(cx.waker())
    }

    /// Drops the receiver: later sends are rejected.
    pub fn drop_with(self, shared: &mut Transfer<T>)
        ensures
            final(shared).value() is None,
            final(shared).is_closed(),
            final(shared).waiter() == old(shared).waiter(),
    {
        shared.receiver_disconnect();
    }
}

/// A sender with the state it acts on, as a `Sink`: each send is a
/// `poll_send` of the sender.
pub struct SenderSink<'a, T> {
    sender: &'a mut Sender<T>,
    shared: &'a mut Transfer<T>,
}

impl<'a, T> SenderSink<'a, T> {
    /// The state of the channel.
    pub closed spec fn state(&self) -> Transfer<T> {
        *self.shared
    }

    pub fn new(sender: &'a mut Sender<T>, shared: &'a mut Transfer<T>) -> (s: Self)
        ensures
            s.state() == *old(shared),
    {
        SenderSink { sender, shared }
    }
}

impl<'a, T> Sink for SenderSink<'a, T> {
    type Item = T;

    /// The first value is sent while the receiver is there; any other is
    /// rejected, leaving the state as it was.
    open spec fn send_step(self, waker: Option<u64>, value: T, next: Self, r: PollSend<T>) -> bool {
        let o = self.state();
        let n = next.state();
        if o.is_closed() || o.value() is Some {
            r == PollSend::Rejected(value) && n == o
        } else {
            &&& r == PollSend::<T>::Ready
            &&& n.value() == Some(value)
            &&& !n.is_closed()
            &&& n.waiter() is None
        }
    }

    fn poll_send(&mut self, cx: &mut Context, value: T) -> (r: PollSend<T>) {
        self.sender.poll_send(self.shared, cx, value)
    }
}

/// A receiver with the state it acts on, as a `Stream`: each poll is a
/// `poll_recv` of the receiver.
pub struct ReceiverStream<'a, T> {
    receiver: &'a mut Receiver<T>,
    shared: &'a mut Transfer<T>,
}

impl<'a, T> ReceiverStream<'a, T> {
    /// The state of the channel.
    pub closed spec fn state(&self) -> Transfer<T> {
        *self.shared
    }

    pub fn new(receiver: &'a mut Receiver<T>, shared: &'a mut Transfer<T>) -> (s: Self)
        ensures
            s.state() == *old(shared),
    {
        ReceiverStream { receiver, shared }
    }
}

impl<'a, T> Stream for ReceiverStream<'a, T> {
    type Item = T;

    /// The value sent, once; `Closed` after it, or once the sender is gone;
    /// `Pending` before, the task waiting for the value.
    open spec fn recv_step(self, waker: Option<u64>, next: Self, r: PollRecv<T>) -> bool {
        let o = self.state();
        let n = next.state();
        match o.value() {
            Some(v) => r == PollRecv::Ready(v) && n.value() is None && n.is_closed(),
            None => if o.is_closed() {
                r == PollRecv::<T>::Closed && n == o
            } else {
                &&& r == PollRecv::<T>::Pending
                &&& n.value() is None
                &&& !n.is_closed()
                &&& n.waiter() == if waker is Some {
                    waker
                } else {
                    o.waiter()
                }
            },
        }
    }

    fn poll_recv(&mut self, cx: &mut Context) -> (r: PollRecv<T>) {
        self.receiver.poll_recv(self.shared, cx)
    }
}

} // verus!
