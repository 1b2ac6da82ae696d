use crate::context::Context;
use crossbeam_queue::SegQueue;
use vstd::prelude::*;

verus! {

#[verifier::external_type_specification]
#[verifier::external_body]
#[verifier::reject_recursive_types(T)]
pub struct ExSegQueue<T>(SegQueue<T>);

/// The waker ids held by a queue, from the oldest to the newest.
pub uninterp spec fn seg_queue_contents(q: SegQueue<u64>) -> Seq<u64>;

/// Calls `SegQueue::new`, which makes an empty queue.
#[verifier::external_body]
fn seg_queue_new() -> (q: SegQueue<u64>)
    ensures
        seg_queue_contents(q) == Seq::<u64>::empty(),
{
    SegQueue::new()
}

/// Calls `SegQueue::push`, which appends `v` at the tail of the queue.
#[verifier::external_body]
fn seg_queue_push(q: &mut SegQueue<u64>, v: u64)
    ensures
        seg_queue_contents(*final(q)) == seg_queue_contents(*old(q)).push(v),
{
    q.push(v)
}

/// Calls `SegQueue::pop`, which removes and returns the element at the head of
/// the queue, or returns `None` when the queue is empty.
#[verifier::external_body]
fn seg_queue_pop(q: &mut SegQueue<u64>) -> (r: Option<u64>)
    ensures
        seg_queue_contents(*old(q)).len() == 0 ==> r is None && seg_queue_contents(*final(q))
            == seg_queue_contents(*old(q)),
        seg_queue_contents(*old(q)).len() > 0 ==> r == Some(seg_queue_contents(*old(q))[0])
            && seg_queue_contents(*final(q)) == seg_queue_contents(*old(q)).drop_first(),
{
    q.pop()
}

/// The tasks waiting for an event, in the order in which they subscribed.
#[derive(Debug)]
pub struct Notifier {
    wakers: SegQueue<u64>,
}

impl Notifier {
    /// The subscribed waker ids, oldest first.
    pub closed spec fn view(&self) -> Seq<u64> {
        seg_queue_contents(self.wakers)
    }

    pub fn new() -> (n: Self)
        ensures
            n@ == Seq::<u64>::empty(),
    {
        Self { wakers: seg_queue_new() }
    }

    /// Wakes every subscribed task once, oldest first: their ids are appended
    /// to `woken`, and the notifier is left without subscribers.
    pub fn notify(&mut self, woken: &mut Vec<u64>)
        ensures
            final(woken)@ == old(woken)@ + old(self)@,
            final(self)@ == Seq::<u64>::empty(),
    {
        loop
            invariant
                woken@ + self@ == old(woken)@ + old(self)@,
            ensures
                self@.len() == 0,
            decreases self@.len(),
        {
            let ghost before = self@;
            let ghost woken_before = woken@;
            match seg_queue_pop(&mut self.wakers) {
                Some(waker) => {
                    woken.push(waker);
                    proof {
                        assert(before =~= seq![waker] + self@);
                        assert(woken@ + self@ =~= woken_before + before);
                    }
                },
                None => {
                    break;
                },
            }
        }
        assert(self@ =~= Seq::<u64>::empty());
        assert(woken@ =~= old(woken)@ + old(self)@);
    }

    /// Subscribes the task polling with `cx`, if it has a waker.
    pub fn subscribe(&mut self, cx: &Context)
        ensures
            final(self)@ == match cx.waker {
                Some(w) => old(self)@.push(w),
                None => old(self)@,
            },
    {
        if let Some(waker) = cx.waker() {
            seg_queue_push(&mut self.wakers, waker);
        }
    }
}

} // verus!
