use crate::stream::PollRecv;
use vstd::prelude::*;

verus! {

/// A one-time transfer of a value from a sender to a receiver.
///
/// It holds the value sent until it is received, whether the transfer is
/// over (the value was received, or one side disconnected), and the task of
/// the receiver waiting for the value, if any.
pub struct Transfer<T> {
    value: Option<T>,
    closed: bool,
    waker: Option<u64>,
}

impl<T> Transfer<T> {
    /// The value sent and not yet received.
    pub closed spec fn value(&self) -> Option<T> {
        self.value
    }

    /// Whether no value can be sent any more.
    pub closed spec fn is_closed(&self) -> bool {
        self.closed
    }

    /// The receiver's task waiting for the value.
    pub closed spec fn waiter(&self) -> Option<u64> {
        self.waker
    }

    /// An empty, open transfer.
    pub fn new() -> (t: Self)
        ensures
            t.value() is None,
            !t.is_closed(),
            t.waiter() is None,
    {
        Self { value: None, closed: false, waker: None }
    }

    /// Sends `value`, waking the waiting receiver; refused, handing the value
    /// back, once a value was sent or the transfer is closed.
    pub fn send(&mut self, value: T, woken: &mut Vec<u64>) -> (r: Result<(), T>)
        ensures
            old(self).is_closed() || old(self).value() is Some ==> r == Err::<(), T>(value)
                && *final(self) == *old(self) && final(woken)@ == old(woken)@,
            !old(self).is_closed() && old(self).value() is None ==> r == Ok::<(), T>(())
                && final(self).value() == Some(value) && !final(self).is_closed()
                && final(self).waiter() is None && final(woken)@ == match old(self).waiter() {
                Some(w) => old(woken)@.push(w),
                None => old(woken)@,
            },
    {
        if self.closed || self.value.is_some() {
            return Err(value);
        }
        self.value = Some(value);
        if let Some(waker) = self.waker.take() {
            woken.push(waker);
        }
        Ok(())
    }

    /// Receives the value sent, which closes the transfer; `Closed` when the
    /// transfer is closed without a value; otherwise `Pending`, with the task
    /// of `waker` registered to be woken by the send.
    pub fn recv(&mut self, waker: Option<u64>) -> (r: PollRecv<T>)
        ensures
            old(self).value() matches Some(v) ==> r == PollRecv::Ready(v) && final(self).value()
                is None && final(self).is_closed() && final(self).waiter() == old(self).waiter(),
            old(self).value() is None && old(self).is_closed() ==> r == PollRecv::<T>::Closed
                && *final(self) == *old(self),
            old(self).value() is None && !old(self).is_closed() ==> r == PollRecv::<T>::Pending
                && final(self).value() is None && !final(self).is_closed() && final(self).waiter()
                == if waker is Some {
                waker
            } else {
                old(self).waiter()
            },
    {
        match self.value.take() {
            Some(value) => {
                self.closed = true;
                PollRecv::Ready(value)
            },
            None => {
                if self.closed {
                    PollRecv::Closed
                } else {
                    if waker.is_some() {
                        self.waker = waker;
                    }
                    PollRecv::Pending
                }
            },
        }
    }

    /// The sender is gone: with no value sent, the transfer closes and the
    /// waiting receiver is woken; a value sent stays receivable.
    pub fn sender_disconnect(&mut self, woken: &mut Vec<u64>)
        ensures
            final(self).value() == old(self).value(),
            final(self).is_closed() == (old(self).is_closed() || old(self).value() is None),
            final(self).waiter() is None,
            final(woken)@ == match old(self).waiter() {
                Some(w) => old(woken)@.push(w),
                None => old(woken)@,
            },
    {
        if self.value.is_none() {
            self.closed = true;
        }
        if let Some(waker) = self.waker.take() {
            woken.push(waker);
        }
    }

    /// The receiver is gone: the transfer closes, and a value sent is dropped.
    pub fn receiver_disconnect(&mut self)
        ensures
            final(self).value() is None,
            final(self).is_closed(),
            final(self).waiter() == old(self).waiter(),
    {
        self.value = None;
        self.closed = true;
    }
}

} // verus!
