use vstd::prelude::*;

verus! {

/// The polling context of a task.
///
/// `waker` identifies the task that is polling, if it can be woken at all.
/// `woken` collects, in order, the ids of the tasks that the poll woke; the
/// caller drains it and wakes them.
#[derive(Debug, PartialEq, Eq)]
pub struct Context {
    pub waker: Option<u64>,
    pub woken: Vec<u64>,
}

impl Context {
    /// A context with no waker, which cannot be woken.
    pub fn empty() -> (cx: Context)
        ensures
            cx.waker is None,
            cx.woken@ == Seq::<u64>::empty(),
    {
        Context { waker: None, woken: Vec::new() }
    }

    /// A context for the task identified by `waker`.
    pub fn from_waker(waker: u64) -> (cx: Context)
        ensures
            cx.waker == Some(waker),
            cx.woken@ == Seq::<u64>::empty(),
    {
        Context { waker: Some(waker), woken: Vec::new() }
    }

    /// The waker of the polling task, if there is one.
    pub fn waker(&self) -> (w: Option<u64>)
        ensures
            w == self.waker,
    {
        self.waker
    }

    /// Takes the ids of the tasks woken so far, leaving none behind.
    pub fn take_woken(&mut self) -> (woken: Vec<u64>)
        ensures
            woken@ == old(self).woken@,
            final(self).woken@ == Seq::<u64>::empty(),
            final(self).waker == old(self).waker,
    {
        let mut woken: Vec<u64> = Vec::new();
        std::mem::swap(&mut woken, &mut self.woken);
        woken
    }
}

} // verus!
