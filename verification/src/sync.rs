use crate::context::Context;
use notifier::Notifier;
use ref_count::{RefCount, TryDecrement};
use std::marker::PhantomData;
use vstd::prelude::*;

pub mod atomic;
pub mod mpmc_circular_buffer;
pub mod notifier;
pub mod ref_count;
pub mod rr_lock;
pub mod transfer;

verus! {

/// The state that the two sides of a channel share: the count of live
/// senders and of live receivers, the tasks of each side waiting on the
/// other, and the channel's own state, `extension`.
pub struct Shared<E> {
    sender_notify: Notifier,
    sender_count: RefCount,
    receiver_notify: Notifier,
    receiver_count: RefCount,
    extension: E,
}

impl<E> Shared<E> {
    /// The channel's own state.
    pub closed spec fn ext(&self) -> E {
        self.extension
    }

    /// The number of live senders.
    pub closed spec fn senders(&self) -> nat {
        self.sender_count@
    }

    /// The number of live receivers.
    pub closed spec fn receivers(&self) -> nat {
        self.receiver_count@
    }

    /// The sending tasks waiting on the receivers.
    pub closed spec fn sender_waiters(&self) -> Seq<u64> {
        self.sender_notify@
    }

    /// The receiving tasks waiting on the senders.
    pub closed spec fn receiver_waiters(&self) -> Seq<u64> {
        self.receiver_notify@
    }

    /// Shared state with one sender, one receiver and no waiting task.
    pub fn new(extension: E) -> (s: Self)
        ensures
            s.senders() == 1,
            s.receivers() == 1,
            s.sender_waiters() == Seq::<u64>::empty(),
            s.receiver_waiters() == Seq::<u64>::empty(),
            s.ext() == extension,
    {
        Self {
            sender_notify: Notifier::new(),
            sender_count: RefCount::new(1),
            receiver_notify: Notifier::new(),
            receiver_count: RefCount::new(1),
            extension,
        }
    }
}

impl<E> Shared<E> {
    /// The number of live senders.
    pub fn sender_count(&self) -> (n: usize)
        ensures
            n == self.senders(),
    {
        self.sender_count.load()
    }

    /// The number of live receivers.
    pub fn receiver_count(&self) -> (n: usize)
        ensures
            n == self.receivers(),
    {
        self.receiver_count.load()
    }

    /// The channel's own state.
    pub fn ext_ref(&self) -> (e: &E)
        ensures
            *e == self.ext(),
    {
        &self.extension
    }

    /// The channel's own state, to change it.
    pub fn extension_mut(&mut self) -> (e: &mut E)
        ensures
            *e == old(self).ext(),
            final(self).ext() == *final(e),
            final(self).senders() == old(self).senders(),
            final(self).receivers() == old(self).receivers(),
            final(self).sender_waiters() == old(self).sender_waiters(),
            final(self).receiver_waiters() == old(self).receiver_waiters(),
    {
        &mut self.extension
    }
}

/// The shared state of a new channel, with a handle for its sender and one
/// for its receiver.
pub fn shared<E>(extension: E) -> (r: (Shared<E>, SenderShared<E>, ReceiverShared<E>))
    ensures
        r.0.senders() == 1,
        r.0.receivers() == 1,
        r.0.sender_waiters() == Seq::<u64>::empty(),
        r.0.receiver_waiters() == Seq::<u64>::empty(),
        r.0.ext() == extension,
{
    let inner = Shared::new(extension);
    let sender = SenderShared { extension: PhantomData };
    let receiver = ReceiverShared { extension: PhantomData };
    (inner, sender, receiver)
}

/// The sender's handle on the shared state of a channel.
pub struct SenderShared<E> {
    extension: PhantomData<E>,
}

impl<E> SenderShared<E> {
    /// The channel's own state.
    pub fn extension<'a>(&self, shared: &'a Shared<E>) -> (e: &'a E)
        ensures
            *e == shared.ext(),
    {
        &shared.extension
    }

    /// Wakes the receiving tasks waiting on the senders.
    pub fn notify_receivers(&self, shared: &mut Shared<E>, woken: &mut Vec<u64>)
        ensures
            final(shared).receiver_waiters() == Seq::<u64>::empty(),
            final(woken)@ == old(woken)@ + old(shared).receiver_waiters(),
            final(shared).sender_waiters() == old(shared).sender_waiters(),
            final(shared).senders() == old(shared).senders(),
            final(shared).receivers() == old(shared).receivers(),
            final(shared).ext() == old(shared).ext(),
    {
        shared.receiver_notify.notify(woken);
    }

    /// Subscribes the sending task to the next event on the receivers' side.
    pub fn subscribe_recv(&self, shared: &mut Shared<E>, cx: &Context)
        ensures
            final(shared).sender_waiters() == match cx.waker {
                Some(w) => old(shared).sender_waiters().push(w),
                None => old(shared).sender_waiters(),
            },
            final(shared).receiver_waiters() == old(shared).receiver_waiters(),
            final(shared).senders() == old(shared).senders(),
            final(shared).receivers() == old(shared).receivers(),
            final(shared).ext() == old(shared).ext(),
    {
        shared.sender_notify.subscribe(cx);
    }

    /// Whether a receiver is alive.
    pub fn is_alive(&self, shared: &Shared<E>) -> (alive: bool)
        ensures
            alive == (shared.receivers() > 0),
    {
        shared.receiver_count.is_alive()
    }

    /// Whether every receiver is gone.
    pub fn is_closed(&self, shared: &Shared<E>) -> (closed: bool)
        ensures
            closed == (shared.receivers() == 0),
    {
        !self.is_alive(shared)
    }

    /// A handle for one more receiver.
    pub fn clone_receiver(&self, shared: &mut Shared<E>) -> (r: ReceiverShared<E>)
        requires
            old(shared).receivers() < usize::MAX,
        ensures
            final(shared).receivers() == old(shared).receivers() + 1,
            final(shared).senders() == old(shared).senders(),
            final(shared).sender_waiters() == old(shared).sender_waiters(),
            final(shared).receiver_waiters() == old(shared).receiver_waiters(),
            final(shared).ext() == old(shared).ext(),
    {
        shared.receiver_count.increment();
        ReceiverShared { extension: PhantomData }
    }

    /// One more sender.
    pub fn clone_with(&self, shared: &mut Shared<E>) -> (s: Self)
        requires
            old(shared).senders() < usize::MAX,
        ensures
            final(shared).senders() == old(shared).senders() + 1,
            final(shared).receivers() == old(shared).receivers(),
            final(shared).sender_waiters() == old(shared).sender_waiters(),
            final(shared).receiver_waiters() == old(shared).receiver_waiters(),
            final(shared).ext() == old(shared).ext(),
    {
        shared.sender_count.increment();
        Self { extension: PhantomData }
    }

    /// One sender less; when it was the last one, the receiving tasks are
    /// woken, for they will see the channel closed.
    pub fn drop_with(self, shared: &mut Shared<E>, woken: &mut Vec<u64>)
        ensures
            final(shared).senders() == if old(shared).senders() == 0 {
                0
            } else {
                old(shared).senders() - 1
            },
            final(shared).receivers() == old(shared).receivers(),
            final(shared).sender_waiters() == old(shared).sender_waiters(),
            final(shared).ext() == old(shared).ext(),
            old(shared).senders() <= 1 ==> final(shared).receiver_waiters() == Seq::<u64>::empty()
                && final(woken)@ == old(woken)@ + old(shared).receiver_waiters(),
            old(shared).senders() > 1 ==> final(shared).receiver_waiters() == old(shared).receiver_waiters() && final(woken)@ == old(woken)@,
    {
        if let TryDecrement::Dead = shared.sender_count.decrement() {
            shared.receiver_notify.notify(woken);
        }
    }
}

/// The receiver's handle on the shared state of a channel.
pub struct ReceiverShared<E> {
    extension: PhantomData<E>,
}

impl<E> ReceiverShared<E> {
    /// The channel's own state.
    pub fn extension<'a>(&self, shared: &'a Shared<E>) -> (e: &'a E)
        ensures
            *e == shared.ext(),
    {
        &shared.extension
    }

    /// Wakes the sending tasks waiting on the receivers.
    pub fn notify_senders(&self, shared: &mut Shared<E>, woken: &mut Vec<u64>)
        ensures
            final(shared).sender_waiters() == Seq::<u64>::empty(),
            final(woken)@ == old(woken)@ + old(shared).sender_waiters(),
            final(shared).receiver_waiters() == old(shared).receiver_waiters(),
            final(shared).senders() == old(shared).senders(),
            final(shared).receivers() == old(shared).receivers(),
            final(shared).ext() == old(shared).ext(),
    {
        shared.sender_notify.notify(woken);
    }

    /// Subscribes the receiving task to the next event on the senders' side.
    pub fn subscribe_send(&self, shared: &mut Shared<E>, cx: &Context)
        ensures
            final(shared).receiver_waiters() == match cx.waker {
                Some(w) => old(shared).receiver_waiters().push(w),
                None => old(shared).receiver_waiters(),
            },
            final(shared).sender_waiters() == old(shared).sender_waiters(),
            final(shared).senders() == old(shared).senders(),
            final(shared).receivers() == old(shared).receivers(),
            final(shared).ext() == old(shared).ext(),
    {
        shared.receiver_notify.subscribe(cx);
    }

    /// Whether a sender is alive.
    pub fn is_alive(&self, shared: &Shared<E>) -> (alive: bool)
        ensures
            alive == (shared.senders() > 0),
    {
        shared.sender_count.is_alive()
    }

    /// Whether every sender is gone.
    pub fn is_closed(&self, shared: &Shared<E>) -> (closed: bool)
        ensures
            closed == (shared.senders() == 0),
    {
        !self.is_alive(shared)
    }

    /// One more receiver.
    pub fn clone_with(&self, shared: &mut Shared<E>) -> (s: Self)
        requires
            old(shared).receivers() < usize::MAX,
        ensures
            final(shared).receivers() == old(shared).receivers() + 1,
            final(shared).senders() == old(shared).senders(),
            final(shared).sender_waiters() == old(shared).sender_waiters(),
            final(shared).receiver_waiters() == old(shared).receiver_waiters(),
            final(shared).ext() == old(shared).ext(),
    {
        shared.receiver_count.increment();
        Self { extension: PhantomData }
    }

    /// One receiver less.  No task is woken.
    pub fn drop_with(self, shared: &mut Shared<E>)
        ensures
            final(shared).receivers() == if old(shared).receivers() == 0 {
                0
            } else {
                old(shared).receivers() - 1
            },
            final(shared).senders() == old(shared).senders(),
            final(shared).receiver_waiters() == old(shared).receiver_waiters(),
            final(shared).ext() == old(shared).ext(),
            final(shared).sender_waiters() == old(shared).sender_waiters(),
    {
        shared.receiver_count.decrement();
    }
}

} // verus!
