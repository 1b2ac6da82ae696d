use crate::context::Context;
use crate::sync::notifier::Notifier;
use crate::sync::ref_count::{wrapping_sum, RefCount, TryDecrement};
use vstd::prelude::*;

verus! {

/// Whether the lock holds a value that is being read.
#[derive(Debug, Clone, Copy, PartialEq, Eq)]
pub enum State {
    Empty,
    Reading,
}

/// A cell that a writer fills once it is empty; readers then clone the value
/// while they hold the lock, and the last one releases it for the next write.
///
/// `readers` counts the readers of the current value, `next_readers` those
/// waiting for the next one, who become readers of the value written.
pub struct ReadReleaseLock<T> {
    state: State,
    readers: RefCount,
    next_readers: RefCount,
    value: Option<T>,
    on_write: Notifier,
    on_release: Notifier,
}

/// The result of an attempt to read.
pub enum TryRead<T> {
    NotLocked,
    Read(T),
    Pending,
}

/// The result of a release.
pub enum TryClose {
    Released,
    Closed,
}

/// The result of an attempt to write.
pub enum TryWrite<T> {
    Ready,
    Pending(T),
}

impl<T> ReadReleaseLock<T> {
    pub closed spec fn state(&self) -> State {
        self.state
    }

    pub closed spec fn readers(&self) -> nat {
        self.readers@
    }

    pub closed spec fn next_readers(&self) -> nat {
        self.next_readers@
    }

    pub closed spec fn value(&self) -> Option<T> {
        self.value
    }

    pub closed spec fn write_waiters(&self) -> Seq<u64> {
        self.on_write@
    }

    pub closed spec fn release_waiters(&self) -> Seq<u64> {
        self.on_release@
    }

    /// A value is held whenever it is being read.
    pub closed spec fn wf(&self) -> bool {
        self.state == State::Reading ==> self.value is Some
    }

    pub fn new() -> (l: Self)
        ensures
            l.wf(),
            l.state() == State::Empty,
            l.readers() == 0,
            l.next_readers() == 0,
            l.value() is None,
            l.write_waiters() == Seq::<u64>::empty(),
            l.release_waiters() == Seq::<u64>::empty(),
    {
        Self {
            state: State::Empty,
            readers: RefCount::new(0),
            next_readers: RefCount::new(0),
            value: None,
            on_write: Notifier::new(),
            on_release: Notifier::new(),
        }
    }

    /// Writes `value` into an empty lock: the waiting next readers become
    /// its readers, and the tasks waiting for a write are woken.  A lock that
    /// is being read hands the value back and subscribes the task to the
    /// release.  A write calls `on_writing` once, before it stores the value;
    /// a lock that is being read drops it uncalled.
    pub fn try_write<OnWriting: FnOnce()>(
        &mut self,
        value: T,
        cx: &mut Context,
        on_writing: OnWriting,
    ) -> (r: TryWrite<T>)
        requires
            old(self).wf(),
            on_writing.requires(()),
        ensures
            r is Ready ==> call_ensures(on_writing, (), ()),
            final(self).wf(),
            final(cx).waker == old(cx).waker,
            ({
                let o = *old(self);
                let n = *final(self);
                if o.state() == State::Empty {
                    &&& r == TryWrite::<T>::Ready
                    &&& n.state() == State::Reading
                    &&& n.value() == Some(value)
                    &&& n.readers() == wrapping_sum(o.readers(), o.next_readers())
                    &&& n.next_readers() == 0
                    &&& n.write_waiters() == Seq::<u64>::empty()
                    &&& n.release_waiters() == o.release_waiters()
                    &&& final(cx).woken@ == old(cx).woken@ + o.write_waiters()
                } else {
                    &&& r == TryWrite::Pending(value)
                    &&& n.state() == State::Reading
                    &&& n.value() == o.value()
                    &&& n.readers() == o.readers()
                    &&& n.next_readers() == o.next_readers()
                    &&& n.write_waiters() == o.write_waiters()
                    &&& n.release_waiters() == match old(cx).waker {
                        Some(w) => o.release_waiters().push(w),
                        None => o.release_waiters(),
                    }
                    &&& final(cx).woken@ == old(cx).woken@
                }
            }),
    {
        match self.state {
            State::Empty => {
                on_writing();
                self.value = Some(value);
                let prev = self.next_readers.take();
                self.readers.add(prev);
                self.state = State::Reading;
                self.on_write.notify(&mut cx.woken);
                TryWrite::Ready
            },
            State::Reading => {
                self.on_release.subscribe(cx);
                TryWrite::Pending(value)
            },
        }
    }

    /// Subscribes the task to the next write.
    pub fn subscribe_write(&mut self, cx: &Context)
        ensures
            final(self).write_waiters() == match cx.waker {
                Some(w) => old(self).write_waiters().push(w),
                None => old(self).write_waiters(),
            },
            final(self).release_waiters() == old(self).release_waiters(),
            final(self).state() == old(self).state(),
            final(self).value() == old(self).value(),
            final(self).readers() == old(self).readers(),
            final(self).next_readers() == old(self).next_readers(),
    {
        self.on_write.subscribe(cx);
    }

    /// Subscribes the task to the next release.
    pub fn subscribe_release(&mut self, cx: &Context)
        ensures
            final(self).release_waiters() == match cx.waker {
                Some(w) => old(self).release_waiters().push(w),
                None => old(self).release_waiters(),
            },
            final(self).write_waiters() == old(self).write_waiters(),
            final(self).state() == old(self).state(),
            final(self).value() == old(self).value(),
            final(self).readers() == old(self).readers(),
            final(self).next_readers() == old(self).next_readers(),
    {
        self.on_release.subscribe(cx);
    }

    /// Registers a reader of the next value written.
    pub fn acquire_next(&mut self)
        ensures
            final(self).next_readers() == wrapping_sum(old(self).next_readers(), 1),
            final(self).readers() == old(self).readers(),
            final(self).state() == old(self).state(),
            final(self).value() == old(self).value(),
            final(self).write_waiters() == old(self).write_waiters(),
            final(self).release_waiters() == old(self).release_waiters(),
    {
        self.next_readers.increment()
    }

    /// Removes a reader of the next value written.
    pub fn decrement_next(&mut self) -> (r: TryDecrement)
        ensures
            final(self).next_readers() == if old(self).next_readers() == 0 {
                0
            } else {
                old(self).next_readers() - 1
            },
            r == TryDecrement::Dead <==> old(self).next_readers() <= 1,
            final(self).readers() == old(self).readers(),
            final(self).state() == old(self).state(),
            final(self).value() == old(self).value(),
            final(self).write_waiters() == old(self).write_waiters(),
            final(self).release_waiters() == old(self).release_waiters(),
    {
        self.next_readers.decrement()
    }

    /// Registers a reader of the current value.
    pub fn acquire(&mut self)
        ensures
            final(self).readers() == wrapping_sum(old(self).readers(), 1),
            final(self).next_readers() == old(self).next_readers(),
            final(self).state() == old(self).state(),
            final(self).value() == old(self).value(),
            final(self).write_waiters() == old(self).write_waiters(),
            final(self).release_waiters() == old(self).release_waiters(),
    {
        self.readers.increment()
    }

    /// Removes a reader of the current value.
    pub fn decrement(&mut self) -> (r: TryDecrement)
        ensures
            final(self).readers() == if old(self).readers() == 0 {
                0
            } else {
                old(self).readers() - 1
            },
            r == TryDecrement::Dead <==> old(self).readers() <= 1,
            final(self).next_readers() == old(self).next_readers(),
            final(self).state() == old(self).state(),
            final(self).value() == old(self).value(),
            final(self).write_waiters() == old(self).write_waiters(),
            final(self).release_waiters() == old(self).release_waiters(),
    {
        self.readers.decrement()
    }

    /// Empties the lock, once no reader holds it, and wakes the tasks waiting
    /// for the release.
    pub fn release(&mut self, woken: &mut Vec<u64>)
        requires
            old(self).readers() == 0,
        ensures
            final(self).wf(),
            final(self).state() == State::Empty,
            final(self).value() == old(self).value(),
            final(self).readers() == 0,
            final(self).next_readers() == old(self).next_readers(),
            final(self).write_waiters() == old(self).write_waiters(),
            final(self).release_waiters() == Seq::<u64>::empty(),
            final(woken)@ == old(woken)@ + old(self).release_waiters(),
    {
        self.state = State::Empty;
        self.on_release.notify(woken);
    }
}

impl<T: Clone> ReadReleaseLock<T> {
    /// Reads the value: `Pending` while the lock is empty, subscribing the
    /// task to the next write; `NotLocked` when no reader holds the value;
    /// otherwise a clone of it.
    pub fn try_read(&mut self, cx: &Context) -> (r: TryRead<T>)
        requires
            old(self).wf(),
        ensures
            final(self).wf(),
            final(self).state() == old(self).state(),
            final(self).value() == old(self).value(),
            final(self).readers() == old(self).readers(),
            final(self).next_readers() == old(self).next_readers(),
            final(self).release_waiters() == old(self).release_waiters(),
            old(self).state() == State::Empty ==> r is Pending && final(self).write_waiters()
                == match cx.waker {
                Some(w) => old(self).write_waiters().push(w),
                None => old(self).write_waiters(),
            },
            old(self).state() == State::Reading ==> final(self).write_waiters() == old(self).write_waiters(),
            old(self).state() == State::Reading && old(self).readers() == 0 ==> r is NotLocked,
            old(self).state() == State::Reading && old(self).readers() > 0 ==> (r matches TryRead::Read(v)
                && cloned(old(self).value()->0, v)),
    {
        match self.state {
            State::Empty => {
                self.on_write.subscribe(cx);
                TryRead::Pending
            },
            State::Reading => {
                if self.readers.load() == 0 {
                    return TryRead::NotLocked;
                }
                TryRead::Read(self.clone_value())
            },
        }
    }

    /// A clone of the value held.
    fn clone_value(&self) -> (v: T)
        requires
            self.value is Some,
        ensures
            cloned(self.value->0, v),
    {
        match &self.value {
            Some(v) => v.clone(),
            None => vstd::pervasive::unreached(),
        }
    }
}

impl<T> ReadReleaseLock<T> {
    /// Takes the value held out of the lock.
    fn take_value(&mut self) -> (v: T)
        requires
            old(self).value is Some,
        ensures
            v == old(self).value->0,
            final(self).value is None,
            final(self).state == old(self).state,
    {
        match self.value.take() {
            Some(v) => v,
            None => vstd::pervasive::unreached(),
        }
    }
}

} // verus!
