//! A fixed-capacity multi-producer, single-consumer channel.  The producer
//! can be cloned, and the sender task is suspended if the channel becomes full.
use crate::context::Context;
use crate::sink::{PollSend, Sink};
use crate::stream::{PollRecv, Stream};
use crate::sync::{shared, ReceiverShared, SenderShared, Shared};
use std::collections::VecDeque;
use vstd::prelude::*;

verus! {

/// The messages of an mpsc channel, oldest first, and how many it can hold.
pub struct StateExtension<T> {
    queue: VecDeque<T>,
    capacity: usize,
}

impl<T> StateExtension<T> {
    /// The messages held, oldest first.
    pub closed spec fn queue(&self) -> Seq<T> {
        self.queue@
    }

    /// The number of messages the channel can hold.
    pub closed spec fn capacity(&self) -> nat {
        self.capacity as nat
    }

    /// The channel holds no more messages than it can.
    pub closed spec fn wf(&self) -> bool {
        self.queue@.len() <= self.capacity
    }

    pub fn new(capacity: usize) -> (s: Self)
        requires
            capacity > 0,
        ensures
            s.wf(),
            s.queue() == Seq::<T>::empty(),
            s.capacity() == capacity,
    {
        Self { queue: VecDeque::new(), capacity }
    }

    /// Appends `value` unless the channel is full, when it is handed back.
    fn push(&mut self, value: T) -> (r: Result<(), T>)
        requires
            old(self).wf(),
        ensures
            final(self).wf(),
            final(self).capacity() == old(self).capacity(),
            old(self).queue().len() < old(self).capacity() ==> r == Ok::<(), T>(()) && final(self).queue() == old(self).queue().push(value),
            old(self).queue().len() >= old(self).capacity() ==> r == Err::<(), T>(value) && final(self).queue() == old(self).queue(),
    {
        if self.queue.len() < self.capacity {
            self.queue.push_back(value);
            Ok(())
        } else {
            Err(value)
        }
    }

    /// Whether no message is queued.
    fn is_empty(&self) -> (r: bool)
        ensures
            r == (self.queue().len() == 0),
    {
        self.queue.len() == 0
    }

    /// Removes the oldest message, if any.
    fn pop(&mut self) -> (r: Option<T>)
        requires
            old(self).wf(),
        ensures
            final(self).wf(),
            final(self).capacity() == old(self).capacity(),
            old(self).queue().len() == 0 ==> r is None && final(self).queue() == old(self).queue(),
            old(self).queue().len() > 0 ==> r == Some(old(self).queue()[0]) && final(self).queue()
                == old(self).queue().drop_first(),
    {
        self.queue.pop_front()
    }
}

/// Constructs a channel that holds up to `capacity` messages.
pub fn channel<T: Clone + Default>(capacity: usize) -> (r: (
    Shared<StateExtension<T>>,
    Sender<T>,
    Receiver<T>,
))
    requires
        capacity > 0,
    ensures
        r.0.ext().wf(),
        r.0.ext().queue() == Seq::<T>::empty(),
        r.0.ext().capacity() == capacity,
        r.0.senders() == 1,
        r.0.receivers() == 1,
        r.0.sender_waiters() == Seq::<u64>::empty(),
        r.0.receiver_waiters() == Seq::<u64>::empty(),
{
    let (shared, tx_shared, rx_shared) = shared(StateExtension::new(capacity));
    (shared, Sender { shared: tx_shared }, Receiver { shared: rx_shared })
}

/// The sender half of an mpsc channel.
pub struct Sender<T> {
    shared: SenderShared<StateExtension<T>>,
}

impl<T> Sender<T> {
    /// Appends the message and wakes the waiting receiver; a full channel
    /// hands it back and subscribes the task; once the receiver is gone, the
    /// message is rejected.
    pub fn poll_send(
        &mut self,
        shared: &mut Shared<StateExtension<T>>,
        cx: &mut Context,
        value: T,
    ) -> (r: PollSend<T>)
        requires
            old(shared).ext().wf(),
        ensures
            final(shared).ext().wf(),
            final(cx).waker == old(cx).waker,
            final(shared).senders() == old(shared).senders(),
            final(shared).receivers() == old(shared).receivers(),
            final(shared).ext().capacity() == old(shared).ext().capacity(),
            ({
                let o = *old(shared);
                let n = *final(shared);
                if o.receivers() == 0 {
                    &&& r == PollSend::Rejected(value)
                    &&& n == o
                    &&& final(cx).woken@ == old(cx).woken@
                } else if o.ext().queue().len() < o.ext().capacity() {
                    &&& r == PollSend::<T>::Ready
                    &&& n.ext().queue() == o.ext().queue().push(value)
                    &&& n.receiver_waiters() == Seq::<u64>::empty()
                    &&& n.sender_waiters() == o.sender_waiters()
                    &&& final(cx).woken@ == old(cx).woken@ + o.receiver_waiters()
                } else {
                    &&& r == PollSend::Pending(value)
                    &&& n.ext().queue() == o.ext().queue()
                    &&& n.receiver_waiters() == o.receiver_waiters()
                    &&& n.sender_waiters() == match old(cx).waker {
                        Some(w) => o.sender_waiters().push(w),
                        None => o.sender_waiters(),
                    }
                    &&& final(cx).woken@ == old(cx).woken@
                }
            }),
    {
        if self.shared.is_closed(shared) {
            return PollSend::Rejected(value);
        }
        match shared.extension_mut().push(value) {
            Ok(_) => {
                self.shared.notify_receivers(shared, &mut cx.woken);
                PollSend::Ready
            },
            Err(v) => {
                self.shared.subscribe_recv(shared, cx);
                PollSend::Pending(v)
            },
        }
    }

    /// Another sender of the same channel.
    pub fn clone_with(&self, shared: &mut Shared<StateExtension<T>>) -> (s: Self)
        requires
            old(shared).senders() < usize::MAX,
        ensures
            final(shared).senders() == old(shared).senders() + 1,
            final(shared).receivers() == old(shared).receivers(),
            final(shared).ext() == old(shared).ext(),
            final(shared).sender_waiters() == old(shared).sender_waiters(),
            final(shared).receiver_waiters() == old(shared).receiver_waiters(),
    {
        Self { shared: self.shared.clone_with(shared) }
    }

    /// Drops the sender; when it was the last one, the waiting receiver is
    /// woken.
    pub fn drop_with(self, shared: &mut Shared<StateExtension<T>>, woken: &mut Vec<u64>)
        ensures
            final(shared).senders() == if old(shared).senders() == 0 {
                0
            } else {
                old(shared).senders() - 1
            },
            final(shared).ext() == old(shared).ext(),
            old(shared).senders() <= 1 ==> final(woken)@ == old(woken)@ + old(shared).receiver_waiters(),
            old(shared).senders() > 1 ==> final(woken)@ == old(woken)@,
    {
        self.shared.drop_with(shared, woken);
    }
}

/// The receiver half of an mpsc channel.
pub struct Receiver<T> {
    shared: ReceiverShared<StateExtension<T>>,
}

impl<T> Receiver<T> {
    /// The oldest message, waking the waiting senders; when none is queued,
    /// `Closed` once every sender is gone, else `Pending`, subscribing the
    /// task.  Messages sent before the last sender left are still delivered.
    pub fn poll_recv(&mut self, shared: &mut Shared<StateExtension<T>>, cx: &mut Context) -> (r:
        PollRecv<T>)
        requires
            old(shared).ext().wf(),
        ensures
            final(shared).ext().wf(),
            final(cx).waker == old(cx).waker,
            final(shared).senders() == old(shared).senders(),
            final(shared).receivers() == old(shared).receivers(),
            final(shared).ext().capacity() == old(shared).ext().capacity(),
            ({
                let o = *old(shared);
                let n = *final(shared);
                if o.ext().queue().len() > 0 {
                    &&& r == PollRecv::Ready(o.ext().queue()[0])
                    &&& n.ext().queue() == o.ext().queue().drop_first()
                    &&& n.sender_waiters() == Seq::<u64>::empty()
                    &&& n.receiver_waiters() == o.receiver_waiters()
                    &&& final(cx).woken@ == old(cx).woken@ + o.sender_waiters()
                } else if o.senders() == 0 {
                    &&& r == PollRecv::<T>::Closed
                    &&& n == o
                    &&& final(cx).woken@ == old(cx).woken@
                } else {
                    &&& r == PollRecv::<T>::Pending
                    &&& n.ext().queue() == o.ext().queue()
                    &&& n.sender_waiters() == o.sender_waiters()
                    &&& n.receiver_waiters() == match old(cx).waker {
                        Some(w) => o.receiver_waiters().push(w),
                        None => o.receiver_waiters(),
                    }
                    &&& final(cx).woken@ == old(cx).woken@
                }
            }),
    {
        if self.shared.extension(shared).is_empty() {
            if self.shared.is_closed(shared) {
                return PollRecv::Closed;
            }
            self.shared.subscribe_send(shared, cx);
            return PollRecv::Pending;
        }
        match shared.extension_mut().pop() {
            Some(v) => {
                self.shared.notify_senders(shared, &mut cx.woken);
                PollRecv::Ready(v)
            },
            None => PollRecv::Pending,
        }
    }

    /// Drops the receiver; later sends are rejected.  The waiting senders
    /// are not woken.
    pub fn drop_with(self, shared: &mut Shared<StateExtension<T>>)
        ensures
            final(shared).receivers() == if old(shared).receivers() == 0 {
                0
            } else {
                old(shared).receivers() - 1
            },
            final(shared).ext() == old(shared).ext(),
            final(shared).senders() == old(shared).senders(),
            final(shared).sender_waiters() == old(shared).sender_waiters(),
            final(shared).receiver_waiters() == old(shared).receiver_waiters(),
    {
        self.shared.drop_with(shared);
    }
}

/// A sender with the state it acts on, as a `Sink`: each send is a
/// `poll_send` of the sender.
pub struct SenderSink<'a, T> {
    sender: &'a mut Sender<T>,
    shared: &'a mut Shared<StateExtension<T>>,
}

impl<'a, T> SenderSink<'a, T> {
    /// The state of the channel.
    pub closed spec fn state(&self) -> Shared<StateExtension<T>> {
        *self.shared
    }

    pub fn new(sender: &'a mut Sender<T>, shared: &'a mut Shared<StateExtension<T>>) -> (s: Self)
        ensures
            s.state() == *old(shared),
    {
        SenderSink { sender, shared }
    }
}

impl<'a, T> Sink for SenderSink<'a, T> {
    type Item = T;

    open spec fn inv(self) -> bool {
        self.state().ext().wf()
    }

    /// Rejected once the receiver is gone; otherwise appended while the
    /// channel has room, the waiting receiver then woken; handed back when
    /// it is full, the task waiting for room.
    open spec fn send_step(self, waker: Option<u64>, value: T, next: Self, r: PollSend<T>) -> bool {
        let o = self.state();
        let n = next.state();
        &&& n.senders() == o.senders()
        &&& n.receivers() == o.receivers()
        &&& n.ext().capacity() == o.ext().capacity()
        &&& if o.receivers() == 0 {
            r == PollSend::Rejected(value) && n == o
        } else if o.ext().queue().len() < o.ext().capacity() {
            &&& r == PollSend::<T>::Ready
            &&& n.ext().queue() == o.ext().queue().push(value)
            &&& n.receiver_waiters() == Seq::<u64>::empty()
            &&& n.sender_waiters() == o.sender_waiters()
        } else {
            &&& r == PollSend::Pending(value)
            &&& n.ext().queue() == o.ext().queue()
            &&& n.receiver_waiters() == o.receiver_waiters()
            &&& n.sender_waiters() == match waker {
                Some(w) => o.sender_waiters().push(w),
                None => o.sender_waiters(),
            }
        }
    }

    fn poll_send(&mut self, cx: &mut Context, value: T) -> (r: PollSend<T>) {
        self.sender.poll_send(self.shared, cx, value)
    }
}

/// A receiver with the state it acts on, as a `Stream`: each poll is a
/// `poll_recv` of the receiver.
pub struct ReceiverStream<'a, T> {
    receiver: &'a mut Receiver<T>,
    shared: &'a mut Shared<StateExtension<T>>,
}

impl<'a, T> ReceiverStream<'a, T> {
    /// The state of the channel.
    pub closed spec fn state(&self) -> Shared<StateExtension<T>> {
        *self.shared
    }

    pub fn new(receiver: &'a mut Receiver<T>, shared: &'a mut Shared<StateExtension<T>>) -> (s:
        Self)
        ensures
            s.state() == *old(shared),
    {
        ReceiverStream { receiver, shared }
    }
}

impl<'a, T> Stream for ReceiverStream<'a, T> {
    type Item = T;

    open spec fn inv(self) -> bool {
        self.state().ext().wf()
    }

    /// The oldest message, the waiting senders then woken; with none queued,
    /// `Closed` once every sender is gone, else `Pending`, the task waiting
    /// for a message.
    open spec fn recv_step(self, waker: Option<u64>, next: Self, r: PollRecv<T>) -> bool {
        let o = self.state();
        let n = next.state();
        &&& n.senders() == o.senders()
        &&& n.receivers() == o.receivers()
        &&& n.ext().capacity() == o.ext().capacity()
        &&& if o.ext().queue().len() > 0 {
            &&& r == PollRecv::Ready(o.ext().queue()[0])
            &&& n.ext().queue() == o.ext().queue().drop_first()
            &&& n.sender_waiters() == Seq::<u64>::empty()
            &&& n.receiver_waiters() == o.receiver_waiters()
        } else if o.senders() == 0 {
            r == PollRecv::<T>::Closed && n == o
        } else {
            &&& r == PollRecv::<T>::Pending
            &&& n.ext().queue() == o.ext().queue()
            &&& n.sender_waiters() == o.sender_waiters()
            &&& n.receiver_waiters() == match waker {
                Some(w) => o.receiver_waiters().push(w),
                None => o.receiver_waiters(),
            }
        }
    }

    fn poll_recv(&mut self, cx: &mut Context) -> (r: PollRecv<T>) {
        self.receiver.poll_recv(self.shared, cx)
    }
}

} // verus!
