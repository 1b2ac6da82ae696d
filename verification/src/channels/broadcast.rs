//! The broadcast channel provides multi-sender, multi-receiver message
//! dispatch.  All receivers are sent every message.  The channel has a fixed
//! capacity, and senders are suspended if the buffer is filled.
//!
//! When a receiver is cloned, both receivers will be sent the same series of
//! messages.  Senders also provide a `subscribe()` method which creates a
//! receiver that will observe all messages sent *after* the call to subscribe.
use crate::context::Context;
use crate::sink::PollSend;
use crate::stream::{PollRecv, Stream};
use crate::sync::mpmc_circular_buffer::{
    dropped_reads,
    gather,
    read_from,
    subscribed,
    wrote,
    BufferReader,
    MpmcCircularBuffer,
    TryRead,
    TryWrite,
};
use crate::sync::{shared, ReceiverShared, SenderShared, Shared};
use vstd::multiset::Multiset;
use vstd::prelude::*;

verus! {

/// Constructs a broadcast channel that holds up to `max(2, capacity)`
/// messages not yet read by every receiver.
pub fn channel<T: Clone>(capacity: usize) -> (r: (
    Shared<MpmcCircularBuffer<T>>,
    Sender<T>,
    Receiver<T>,
))
    ensures
        r.0.ext().wf(),
        r.0.ext().capacity() == if capacity < 2 {
            2
        } else {
            capacity as nat
        },
        r.0.ext().next_id() == 1,
        r.0.ext().written() == Seq::<T>::empty(),
        r.0.ext().positions() == Multiset::<int>::singleton(1),
        r.2.position() == 1,
        r.0.senders() == 1,
        r.0.receivers() == 1,
        r.0.sender_waiters() == Seq::<u64>::empty(),
        r.0.receiver_waiters() == Seq::<u64>::empty(),
        forall|k: int|
            0 <= k < r.0.ext().capacity() ==> (#[trigger] r.0.ext().slot(k)).write_waiters()
                == Seq::<u64>::empty() && r.0.ext().slot(k).release_waiters() == Seq::<u64>::empty(),
{
    let (buffer, reader) = MpmcCircularBuffer::new(capacity);
    let (shared, tx_shared, rx_shared) = shared(buffer);
    (shared, Sender { shared: tx_shared }, Receiver { shared: rx_shared, reader })
}

/// The sender half of a broadcast channel.
pub struct Sender<T> {
    shared: SenderShared<MpmcCircularBuffer<T>>,
}

impl<T> Sender<T> {
    /// Writes the message for every receiver; while a receiver has yet to
    /// read the message it would displace, the message is handed back and
    /// the task subscribed.  Once every receiver is gone, messages are
    /// rejected.
    pub fn poll_send(
        &mut self,
        shared: &mut Shared<MpmcCircularBuffer<T>>,
        cx: &mut Context,
        value: T,
    ) -> (r: PollSend<T>)
        requires
            old(shared).ext().wf(),
            old(shared).ext().next_id() < usize::MAX,
        ensures
            final(shared).ext().wf(),
            final(cx).waker == old(cx).waker,
            final(shared).senders() == old(shared).senders(),
            final(shared).receivers() == old(shared).receivers(),
            final(shared).sender_waiters() == old(shared).sender_waiters(),
            final(shared).receiver_waiters() == old(shared).receiver_waiters(),
            final(shared).ext().capacity() == old(shared).ext().capacity(),
            final(shared).ext().positions() == old(shared).ext().positions(),
            old(shared).receivers() == 0 ==> r == PollSend::Rejected(value) && final(shared).ext()
                == old(shared).ext() && final(cx).woken@ == old(cx).woken@,
            old(shared).receivers() > 0 ==> wrote(
                old(shared).ext(),
                final(shared).ext(),
                old(cx).waker,
                value,
                match r {
                    PollSend::Pending(v) => TryWrite::Pending(v),
                    _ => TryWrite::Ready,
                },
                old(cx).woken@,
                final(cx).woken@,
            ) && !(r is Rejected),
    {
        if self.shared.is_closed(shared) {
            return PollSend::Rejected(value);
        }
        let buffer = shared.extension_mut();
        match buffer.try_write(value, cx) {
            TryWrite::Pending(value) => PollSend::Pending(value),
            TryWrite::Ready => PollSend::Ready,
        }
    }

    /// A receiver that reads every message sent from now on.
    pub fn subscribe(
        &self,
        shared: &mut Shared<MpmcCircularBuffer<T>>,
        woken: &mut Vec<u64>,
    ) -> (r: Receiver<T>)
        requires
            old(shared).ext().wf(),
            old(shared).receivers() < usize::MAX,
            old(shared).ext().positions().len() < usize::MAX,
        ensures
            final(shared).ext().wf(),
            r.position() == old(shared).ext().next_id(),
            final(shared).ext().positions() == old(shared).ext().positions().insert(
                old(shared).ext().next_id() as int,
            ),
            final(shared).ext().written() == old(shared).ext().written(),
            final(shared).ext().next_id() == old(shared).ext().next_id(),
            final(shared).receivers() == old(shared).receivers() + 1,
            final(shared).senders() == old(shared).senders(),
            final(shared).sender_waiters() == old(shared).sender_waiters(),
            final(shared).receiver_waiters() == old(shared).receiver_waiters(),
            final(woken)@ == old(woken)@ + gather(
                old(shared).ext().release_all(),
                |k: int| old(shared).ext().slot(k).reads() >= old(shared).ext().positions().len(),
                old(shared).ext().capacity() as int,
            ),
    {
        let rx_shared = self.shared.clone_receiver(shared);
        let reader = shared.extension_mut().new_reader(woken);
        Receiver { shared: rx_shared, reader }
    }

    /// Another sender of the same channel.
    pub fn clone_with(&self, shared: &mut Shared<MpmcCircularBuffer<T>>) -> (s: Self)
        requires
            old(shared).senders() < usize::MAX,
        ensures
            final(shared).senders() == old(shared).senders() + 1,
            final(shared).receivers() == old(shared).receivers(),
            final(shared).ext() == old(shared).ext(),
    {
        Self { shared: self.shared.clone_with(shared) }
    }

    /// Drops the sender; when it was the last one, the waiting receivers are
    /// woken, for they will see the channel closed once they have read every
    /// message.
    pub fn drop_with(self, shared: &mut Shared<MpmcCircularBuffer<T>>, woken: &mut Vec<u64>)
        ensures
            final(shared).senders() == if old(shared).senders() == 0 {
                0
            } else {
                old(shared).senders() - 1
            },
            final(shared).receivers() == old(shared).receivers(),
            final(shared).ext() == old(shared).ext(),
            old(shared).senders() <= 1 ==> final(woken)@ == old(woken)@ + old(shared).receiver_waiters(),
            old(shared).senders() > 1 ==> final(woken)@ == old(woken)@,
    {
        self.shared.drop_with(shared, woken);
    }
}

/// The receiver half of a broadcast channel.
pub struct Receiver<T> {
    shared: ReceiverShared<MpmcCircularBuffer<T>>,
    reader: BufferReader,
}

impl<T> Receiver<T> {
    /// The id of the next message this receiver reads.
    pub closed spec fn position(&self) -> int {
        self.reader.position()
    }
}

impl<T: Clone> Receiver<T> {
    /// Reads the next message, once written; otherwise answers `Closed` when
    /// every sender is gone, and `Pending`, subscribing the task, while one
    /// is alive.
    pub fn poll_recv(&mut self, shared: &mut Shared<MpmcCircularBuffer<T>>, cx: &mut Context) -> (r:
        PollRecv<T>)
        requires
            old(shared).ext().wf(),
            old(shared).ext().positions().contains(old(self).position()),
        ensures
            final(shared).ext().wf(),
            final(cx).waker == old(cx).waker,
            final(shared).senders() == old(shared).senders(),
            final(shared).receivers() == old(shared).receivers(),
            final(shared).sender_waiters() == old(shared).sender_waiters(),
            final(shared).ext().capacity() == old(shared).ext().capacity(),
            final(shared).ext().written() == old(shared).ext().written(),
            final(shared).ext().next_id() == old(shared).ext().next_id(),
            read_from(
                old(shared).ext(),
                final(shared).ext(),
                old(self).position(),
                final(self).position(),
                old(cx).waker,
                match r {
                    PollRecv::Ready(v) => TryRead::Ready(v),
                    _ => TryRead::Pending,
                },
                old(cx).woken@,
                final(cx).woken@,
            ),
            r is Ready ==> final(shared).receiver_waiters() == old(shared).receiver_waiters(),
            !(r is Ready) && old(shared).senders() == 0 ==> r is Closed && final(shared).receiver_waiters() == old(shared).receiver_waiters(),
            !(r is Ready) && old(shared).senders() > 0 ==> r is Pending && final(shared).receiver_waiters() == subscribed(old(shared).receiver_waiters(), old(cx).waker),
    {
        let buffer = shared.extension_mut();
        match self.reader.try_read(buffer, cx) {
            TryRead::Pending => {
                if self.shared.is_closed(shared) {
                    return PollRecv::Closed;
                }
                self.shared.subscribe_send(shared, cx);
                PollRecv::Pending
            },
            TryRead::Ready(value) => PollRecv::Ready(value),
        }
    }
}

impl<T> Receiver<T> {
    /// A receiver of the same channel at the same position: both read the
    /// same series of messages from here on.
    pub fn clone_with(&self, shared: &mut Shared<MpmcCircularBuffer<T>>, woken: &mut Vec<u64>) -> (r:
        Self)
        requires
            old(shared).ext().wf(),
            old(shared).ext().positions().contains(self.position()),
            old(shared).receivers() < usize::MAX,
            old(shared).ext().positions().len() < usize::MAX,
        ensures
            final(shared).ext().wf(),
            r.position() == self.position(),
            final(shared).ext().positions() == old(shared).ext().positions().insert(
                self.position(),
            ),
            final(shared).ext().written() == old(shared).ext().written(),
            final(shared).ext().next_id() == old(shared).ext().next_id(),
            final(shared).receivers() == old(shared).receivers() + 1,
            final(shared).senders() == old(shared).senders(),
            final(shared).sender_waiters() == old(shared).sender_waiters(),
            final(shared).receiver_waiters() == old(shared).receiver_waiters(),
            final(woken)@ == old(woken)@ + gather(
                old(shared).ext().release_all(),
                |k: int|
                    old(shared).ext().slot(k).index() < self.position() && old(shared).ext().slot(
                        k,
                    ).reads() >= old(shared).ext().positions().len(),
                old(shared).ext().capacity() as int,
            ),
    {
        let rx_shared = self.shared.clone_with(shared);
        let reader = self.reader.clone_with(shared.extension_mut(), woken);
        Self { shared: rx_shared, reader }
    }

    /// Drops the receiver: the messages it had yet to read no longer wait for
    /// it, which may release slots for the waiting senders; when it was the
    /// last receiver, later sends are rejected.
    pub fn drop_with(self, shared: &mut Shared<MpmcCircularBuffer<T>>, woken: &mut Vec<u64>)
        requires
            old(shared).ext().wf(),
            old(shared).ext().positions().contains(self.position()),
        ensures
            final(shared).ext().wf(),
            final(shared).ext().positions() == old(shared).ext().positions().remove(
                self.position(),
            ),
            final(shared).ext().written() == old(shared).ext().written(),
            final(shared).ext().next_id() == old(shared).ext().next_id(),
            final(shared).receivers() == if old(shared).receivers() == 0 {
                0
            } else {
                old(shared).receivers() - 1
            },
            final(shared).senders() == old(shared).senders(),
            final(shared).receiver_waiters() == old(shared).receiver_waiters(),
            ({
                let released = gather(
                    old(shared).ext().release_all(),
                    |k: int|
                        dropped_reads(old(shared).ext().slot(k), self.position()) >= old(shared).ext().positions().len() - 1,
                    old(shared).ext().capacity() as int,
                );
                final(woken)@ == old(woken)@ + released
            }),
            final(shared).sender_waiters() == old(shared).sender_waiters(),
    {
        let Receiver { shared: rx_shared, mut reader } = self;
        reader.drop_with(shared.extension_mut(), woken);
        rx_shared.drop_with(shared);
    }
}

/// What a read answered, for a poll that answered `r`.
pub open spec fn as_read<T>(r: PollRecv<T>) -> TryRead<T> {
    match r {
        PollRecv::Ready(v) => TryRead::Ready(v),
        _ => TryRead::Pending,
    }
}

/// A receiver with the state it acts on, as a `Stream`: each poll is a
/// `poll_recv` of the receiver.
pub struct ReceiverStream<'a, T> {
    receiver: &'a mut Receiver<T>,
    shared: &'a mut Shared<MpmcCircularBuffer<T>>,
}

impl<'a, T> ReceiverStream<'a, T> {
    /// The state of the channel.
    pub closed spec fn state(&self) -> Shared<MpmcCircularBuffer<T>> {
        *self.shared
    }

    /// The id of the next message the receiver reads.
    pub closed spec fn position(&self) -> int {
        self.receiver.position()
    }

    pub fn new(receiver: &'a mut Receiver<T>, shared: &'a mut Shared<MpmcCircularBuffer<T>>) -> (s:
        Self)
        ensures
            s.state() == *old(shared),
            s.position() == old(receiver).position(),
    {
        ReceiverStream { receiver, shared }
    }
}

impl<'a, T: Clone> Stream for ReceiverStream<'a, T> {
    type Item = T;

    open spec fn inv(self) -> bool {
        self.state().ext().wf() && self.state().ext().positions().contains(self.position())
    }

    /// The next message, once written, read as the buffer's reads go;
    /// otherwise `Closed` once every sender is gone, and `Pending`, the task
    /// waiting for a message, while one is alive.
    open spec fn recv_step(self, waker: Option<u64>, next: Self, r: PollRecv<T>) -> bool {
        let o = self.state();
        let n = next.state();
        &&& n.senders() == o.senders()
        &&& n.receivers() == o.receivers()
        &&& n.sender_waiters() == o.sender_waiters()
        &&& n.ext().written() == o.ext().written()
        &&& exists|woken_o: Seq<u64>, woken_n: Seq<u64>|
            #[trigger] read_from(
                o.ext(),
                n.ext(),
                self.position(),
                next.position(),
                waker,
                as_read(r),
                woken_o,
                woken_n,
            )
        &&& r is Ready ==> n.receiver_waiters() == o.receiver_waiters()
        &&& !(r is Ready) && o.senders() == 0 ==> r is Closed && n.receiver_waiters()
            == o.receiver_waiters()
        &&& !(r is Ready) && o.senders() > 0 ==> r is Pending && n.receiver_waiters() == subscribed(
            o.receiver_waiters(),
            waker,
        )
    }

    fn poll_recv(&mut self, cx: &mut Context) -> (r: PollRecv<T>) {
        let ghost woken_o = cx.woken@;
        let r = self.receiver.poll_recv(self.shared, cx);
        assert(read_from(
            old(self).state().ext(),
            self.state().ext(),
            old(self).position(),
            self.position(),
            old(cx).waker,
            as_read(r),
            woken_o,
            cx.woken@,
        ));
        r
    }
}

} // verus!
