//! A state distribution channel.  The internal state can be borrowed or cloned, but receivers do not observe every value.
//!
//! When the channel is created, the receiver will immediately observe `T::default()`.  Cloned receivers will immediately observe the latest stored value.
//!
//! Receivers can also borrow the latest value.
use crate::context::Context;
use crate::sink::{PollSend, Sink};
use crate::stream::PollRecv;
use crate::sync::ref_count::wrapping_sum;
use crate::sync::{shared, ReceiverShared, SenderShared, Shared};
use std::ops::Deref;
use vstd::prelude::*;

verus! {

/// The latest value of a watch channel, and the number of values stored
/// since the channel was created.
pub struct StateExtension<T> {
    generation: usize,
    value: T,
}

impl<T> StateExtension<T> {
    /// The number of values stored since the channel was created.
    pub closed spec fn spec_generation(&self) -> nat {
        self.generation as nat
    }

    /// The latest value.
    pub closed spec fn value(&self) -> T {
        self.value
    }

    pub fn new(value: T) -> (s: Self)
        ensures
            s.spec_generation() == 0,
            s.value() == value,
    {
        Self { generation: 0, value }
    }

    /// Stores a new value, counting one more generation (wrapping around at
    /// the bound of `usize`).
    pub fn push(&mut self, value: T)
        ensures
            final(self).value() == value,
            final(self).spec_generation() == wrapping_sum(old(self).spec_generation(), 1),
    {
        self.value = value;
        self.generation = self.generation.wrapping_add(1);
    }

    /// The number of values stored since the channel was created.
    pub fn generation(&self) -> (g: usize)
        ensures
            g == self.spec_generation(),
    {
        self.generation
    }
}

/// Constructs a new watch channel pair, filled with T::default()
pub fn channel<T: Clone + Default>() -> (r: (Shared<StateExtension<T>>, Sender<T>, Receiver<T>))
    ensures
        r.0.senders() == 1,
        r.0.receivers() == 1,
        r.0.ext().spec_generation() == 0,
        r.0.sender_waiters() == Seq::<u64>::empty(),
        r.0.receiver_waiters() == Seq::<u64>::empty(),
        r.2.spec_generation() == 0,
        call_ensures(T::default, (), r.0.ext().value()),
{
    let (shared, tx_shared, rx_shared) = shared(StateExtension::new(T::default()));
    let sender = Sender { shared: tx_shared };
    let receiver = Receiver { shared: rx_shared, generation: 0 };
    (shared, sender, receiver)
}

/// The sender half of a watch channel.  The stored value can be updated by sending.
pub struct Sender<T> {
    shared: SenderShared<StateExtension<T>>,
}

impl<T> Sender<T> {
    /// Stores the value and wakes the waiting receivers; rejected once every
    /// receiver is gone.
    pub fn poll_send(
        &mut self,
        shared: &mut Shared<StateExtension<T>>,
        cx: &mut Context,
        value: T,
    ) -> (r: PollSend<T>)
        ensures
            final(cx).waker == old(cx).waker,
            final(shared).senders() == old(shared).senders(),
            final(shared).receivers() == old(shared).receivers(),
            final(shared).sender_waiters() == old(shared).sender_waiters(),
            old(shared).receivers() == 0 ==> r == PollSend::Rejected(value) && final(shared).ext()
                == old(shared).ext() && final(shared).receiver_waiters() == old(shared).receiver_waiters() && final(cx).woken@ == old(cx).woken@,
            old(shared).receivers() > 0 ==> r == PollSend::<T>::Ready && final(shared).ext().value()
                == value && final(shared).ext().spec_generation() == wrapping_sum(
                old(shared).ext().spec_generation(),
                1,
            ) && final(shared).receiver_waiters() == Seq::<u64>::empty() && final(cx).woken@ == old(cx).woken@ + old(shared).receiver_waiters(),
    {
        if self.shared.is_closed(shared) {
            return PollSend::Rejected(value);
        }
        shared.extension_mut().push(value);
        self.shared.notify_receivers(shared, &mut cx.woken);
        PollSend::Ready
    }

    /// Drops the sender; when it was the last one, the waiting receivers are
    /// woken.
    pub fn drop_with(self, shared: &mut Shared<StateExtension<T>>, woken: &mut Vec<u64>)
        ensures
            final(shared).senders() == if old(shared).senders() == 0 {
                0
            } else {
                old(shared).senders() - 1
            },
            final(shared).ext() == old(shared).ext(),
            old(shared).senders() <= 1 ==> final(woken)@ == old(woken)@ + old(shared).receiver_waiters(),
            old(shared).senders() > 1 ==> final(woken)@ == old(woken)@,
    {
        self.shared.drop_with(shared, woken);
    }
}

/// The receiver half of a watch channel.
///
/// The reciever will be woken when new values arive, but is not guaranteed to recieve every message.
pub struct Receiver<T> {
    shared: ReceiverShared<StateExtension<T>>,
    generation: usize,
}

enum TryRecv<T> {
    Pending,
    Ready(T),
}

/// A borrow of the latest value of a watch channel.
pub struct Ref<'t, T> {
    value: &'t T,
}

impl<'t, T> Ref<'t, T> {
    /// The value borrowed.
    pub closed spec fn view(&self) -> T {
        *self.value
    }
}

impl<'t, T> Deref for Ref<'t, T> {
    type Target = T;

    fn deref(&self) -> (r: &T)
        ensures
            *r == self@,
    {
        self.value
    }
}

impl<T> Receiver<T> {
    /// The generation of the next value this receiver observes.
    pub closed spec fn spec_generation(&self) -> nat {
        self.generation as nat
    }

    /// Borrows the latest value.
    pub fn borrow<'a>(&self, shared: &'a Shared<StateExtension<T>>) -> (r: Ref<'a, T>)
        ensures
            r@ == shared.ext().value(),
    {
        let state = self.shared.extension(shared);
        Ref { value: &state.value }
    }

    /// A receiver of the same channel, which observes the latest value at
    /// once.
    pub fn clone_with(&self, shared: &mut Shared<StateExtension<T>>) -> (r: Self)
        requires
            old(shared).receivers() < usize::MAX,
        ensures
            r.spec_generation() == 0,
            final(shared).receivers() == old(shared).receivers() + 1,
            final(shared).senders() == old(shared).senders(),
            final(shared).ext() == old(shared).ext(),
            final(shared).sender_waiters() == old(shared).sender_waiters(),
            final(shared).receiver_waiters() == old(shared).receiver_waiters(),
    {
        Self { shared: self.shared.clone_with(shared), generation: 0 }
    }

    /// Drops the receiver; when it was the last one, later sends are
    /// rejected.
    pub fn drop_with(self, shared: &mut Shared<StateExtension<T>>)
        ensures
            final(shared).receivers() == if old(shared).receivers() == 0 {
                0
            } else {
                old(shared).receivers() - 1
            },
            final(shared).ext() == old(shared).ext(),
            final(shared).senders() == old(shared).senders(),
            final(shared).sender_waiters() == old(shared).sender_waiters(),
            final(shared).receiver_waiters() == old(shared).receiver_waiters(),
    {
        self.shared.drop_with(shared);
    }
}

impl<T: Clone> Receiver<T> {
    fn try_recv_internal(&mut self, shared: &Shared<StateExtension<T>>) -> (r: TryRecv<T>)
        requires
            old(self).generation <= shared.ext().spec_generation() ==> shared.ext().spec_generation()
                < usize::MAX,
        ensures
            old(self).generation > shared.ext().spec_generation() ==> r is Pending && *final(self)
                == *old(self),
            old(self).generation <= shared.ext().spec_generation() ==> (r matches TryRecv::Ready(v)
                && cloned(shared.ext().value(), v)) && final(self).generation
                == shared.ext().spec_generation() + 1,
    {
        let state = self.shared.extension(shared);
        if self.generation > state.generation {
            return TryRecv::Pending;
        }
        let value = state.value.clone();
        self.generation = state.generation + 1;
        TryRecv::Ready(value)
    }

    /// Observes the latest value, if this receiver has not observed it yet;
    /// otherwise subscribes the task to the next value, answering `Closed`
    /// when every sender is gone and `Pending` while one is alive.
    pub fn poll_recv(&mut self, shared: &mut Shared<StateExtension<T>>, cx: &mut Context) -> (r:
        PollRecv<T>)
        requires
            old(self).spec_generation() <= old(shared).ext().spec_generation() ==> old(shared).ext().spec_generation() < usize::MAX,
        ensures
            *final(cx) == *old(cx),
            final(shared).ext() == old(shared).ext(),
            final(shared).senders() == old(shared).senders(),
            final(shared).receivers() == old(shared).receivers(),
            final(shared).sender_waiters() == old(shared).sender_waiters(),
            old(self).spec_generation() <= old(shared).ext().spec_generation() ==> (r matches PollRecv::Ready(v)
                && cloned(old(shared).ext().value(), v)) && final(self).spec_generation() == old(shared).ext().spec_generation() + 1 && final(shared).receiver_waiters() == old(shared).receiver_waiters(),
            old(self).spec_generation() > old(shared).ext().spec_generation() ==> final(self).spec_generation() == old(self).spec_generation() && final(shared).receiver_waiters()
                == match old(cx).waker {
                Some(w) => old(shared).receiver_waiters().push(w),
                None => old(shared).receiver_waiters(),
            } && r == if old(shared).senders() == 0 {
                PollRecv::<T>::Closed
            } else {
                PollRecv::<T>::Pending
            },
    {
        match self.try_recv_internal(shared) {
            TryRecv::Pending => {
                self.shared.subscribe_send(shared, cx);
                if self.shared.is_closed(shared) {
                    return PollRecv::Closed;
                }
                PollRecv::Pending
            },
            TryRecv::Ready(v) => PollRecv::Ready(v),
        }
    }
}

/// A sender with the state it acts on, as a `Sink`: each send is a
/// `poll_send` of the sender.
pub struct SenderSink<'a, T> {
    sender: &'a mut Sender<T>,
    shared: &'a mut Shared<StateExtension<T>>,
}

impl<'a, T> SenderSink<'a, T> {
    /// The state of the channel.
    pub closed spec fn state(&self) -> Shared<StateExtension<T>> {
        *self.shared
    }

    pub fn new(sender: &'a mut Sender<T>, shared: &'a mut Shared<StateExtension<T>>) -> (s: Self)
        ensures
            s.state() == *old(shared),
    {
        SenderSink { sender, shared }
    }
}

impl<'a, T> Sink for SenderSink<'a, T> {
    type Item = T;

    /// Rejected once every receiver is gone; otherwise stored as the latest
    /// value, one generation later, the waiting receivers then woken.
    open spec fn send_step(self, waker: Option<u64>, value: T, next: Self, r: PollSend<T>) -> bool {
        let o = self.state();
        let n = next.state();
        &&& n.senders() == o.senders()
        &&& n.receivers() == o.receivers()
        &&& n.sender_waiters() == o.sender_waiters()
        &&& if o.receivers() == 0 {
            &&& r == PollSend::Rejected(value)
            &&& n.ext() == o.ext()
            &&& n.receiver_waiters() == o.receiver_waiters()
        } else {
            &&& r == PollSend::<T>::Ready
            &&& n.ext().value() == value
            &&& n.ext().spec_generation() == wrapping_sum(o.ext().spec_generation(), 1)
            &&& n.receiver_waiters() == Seq::<u64>::empty()
        }
    }

    fn poll_send(&mut self, cx: &mut Context, value: T) -> (r: PollSend<T>) {
        self.sender.poll_send(self.shared, cx, value)
    }
}

} // verus!
