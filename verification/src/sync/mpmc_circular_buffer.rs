use crate::context::Context;
use crate::sync::notifier::Notifier;
use vstd::arithmetic::div_mod::{lemma_fundamental_div_mod, lemma_mod_add_multiples_vanish};
use vstd::multiset::Multiset;
use vstd::prelude::*;

verus! {

broadcast use vstd::multiset::group_multiset_axioms;

// A multi-producer, multi-consumer circular buffer.  Every value written is
// given the next id, starting at 1, and is stored in slot `id % capacity`.
// Each reader sees each value written after it was created exactly once, in
// the order written.  A writer is held back while the slot it would overwrite
// holds a value that some reader has not read yet.

/// Whether a reader at position `r` has read the value with id `i`.
pub open spec fn past_pred(i: int) -> spec_fn(int) -> bool {
    |r: int| r > i
}

/// The number of readers, by position, that have read the value with id `i`.
pub open spec fn readers_past(m: Multiset<int>, i: int) -> nat {
    m.filter(past_pred(i)).len()
}

/// `q` with the waker of a task appended, if it has one.
pub open spec fn subscribed(q: Seq<u64>, waker: Option<u64>) -> Seq<u64> {
    match waker {
        Some(w) => q.push(w),
        None => q,
    }
}

/// The waker ids of the selected notifiers among the first `n`, in order.
pub open spec fn gather(w: Seq<Seq<u64>>, sel: spec_fn(int) -> bool, n: int) -> Seq<u64>
    decreases n,
{
    if n <= 0 {
        Seq::empty()
    } else {
        gather(w, sel, n - 1) + if sel(n - 1) {
            w[n - 1]
        } else {
            Seq::empty()
        }
    }
}

proof fn lemma_gather_ext(
    w: Seq<Seq<u64>>,
    sel1: spec_fn(int) -> bool,
    sel2: spec_fn(int) -> bool,
    n: int,
)
    requires
        forall|j: int| 0 <= j < n ==> #[trigger] sel1(j) == sel2(j),
    ensures
        gather(w, sel1, n) == gather(w, sel2, n),
    decreases n,
{
    if n > 0 {
        lemma_gather_ext(w, sel1, sel2, n - 1);
    }
}

proof fn lemma_past_insert(m: Multiset<int>, x: int, i: int)
    ensures
        readers_past(m.insert(x), i) == readers_past(m, i) + if x > i {
            1nat
        } else {
            0nat
        },
{
    let f = past_pred(i);
    if x > i {
        assert(m.insert(x).filter(f) =~= m.filter(f).insert(x));
    } else {
        assert(m.insert(x).filter(f) =~= m.filter(f));
    }
}

proof fn lemma_past_remove(m: Multiset<int>, x: int, i: int)
    requires
        m.contains(x),
    ensures
        readers_past(m, i) == readers_past(m.remove(x), i) + if x > i {
            1nat
        } else {
            0nat
        },
{
    assert(m.remove(x).insert(x) =~= m);
    lemma_past_insert(m.remove(x), x, i);
}

proof fn lemma_past_le_len(m: Multiset<int>, i: int)
    ensures
        readers_past(m, i) <= m.len(),
    decreases m.len(),
{
    if m.len() == 0 {
        assert(m =~= Multiset::empty());
        assert(m.filter(past_pred(i)) =~= Multiset::empty());
    } else {
        let x = m.choose();
        assert(m.contains(x));
        lemma_past_remove(m, x, i);
        lemma_past_le_len(m.remove(x), i);
    }
}

/// Every reader has read the value with id `i` exactly when the count of
/// readers past `i` is the number of readers.
proof fn lemma_past_all(m: Multiset<int>, i: int)
    ensures
        readers_past(m, i) == m.len() <==> (forall|r: int| m.contains(r) ==> r > i),
{
    let f = past_pred(i);
    if forall|r: int| m.contains(r) ==> r > i {
        assert forall|v: int| #[trigger] m.filter(f).count(v) == m.count(v) by {
            if m.count(v) > 0 {
                assert(m.contains(v));
                assert(f(v));
            }
        }
        assert(m.filter(f) =~= m);
    } else {
        let r = choose|r: int| m.contains(r) && !(r > i);
        lemma_past_remove(m, r, i);
        lemma_past_le_len(m.remove(r), i);
    }
}

/// No reader has read the value with id `i` when every reader is at `i` or before.
proof fn lemma_past_none(m: Multiset<int>, i: int)
    requires
        forall|r: int| m.contains(r) ==> r <= i,
    ensures
        readers_past(m, i) == 0,
{
    let f = past_pred(i);
    assert forall|v: int| #[trigger] m.filter(f).count(v) == 0 by {
        if m.count(v) > 0 {
            assert(m.contains(v));
            assert(!f(v));
        }
    }
    assert(m.filter(f) =~= Multiset::empty());
}

proof fn lemma_mod_distinct(a: int, b: int, cap: int)
    requires
        0 < cap,
        a < b < a + cap,
    ensures
        a % cap != b % cap,
{
    lemma_fundamental_div_mod(a, cap);
    lemma_fundamental_div_mod(b, cap);
    if a % cap == b % cap {
        let q = b / cap - a / cap;
        assert(b - a == cap * q) by (nonlinear_arith)
            requires
                a == cap * (a / cap) + a % cap,
                b == cap * (b / cap) + b % cap,
                a % cap == b % cap,
                q == b / cap - a / cap,
        ;
        assert(false) by (nonlinear_arith)
            requires
                0 < cap,
                0 < b - a < cap,
                b - a == cap * q,
        ;
    }
}

proof fn lemma_mod_back(h: int, cap: int)
    requires
        0 < cap,
    ensures
        (h - cap) % cap == h % cap,
{
    lemma_mod_add_multiples_vanish(h - cap, cap);
    assert(cap + (h - cap) == h);
}

/// The result of an attempt to write into the buffer.
pub enum TryWrite<T> {
    Pending(T),
    Ready,
}

/// The result of an attempt to write into one slot.
pub enum SlotTryWrite<T> {
    Pending(T),
    Ready,
    Written(T),
}

/// The result of an attempt to read.
pub enum TryRead<T> {
    /// A value is ready
    Ready(T),
    /// A value is pending in this slot
    Pending,
}

/// One attempt to write `value` took the buffer from `o` to `n`, answered
/// `r`, and took the list of woken tasks from `woken_o` to `woken_n`.
pub open spec fn wrote<T>(
    o: MpmcCircularBuffer<T>,
    n: MpmcCircularBuffer<T>,
    waker: Option<u64>,
    value: T,
    r: TryWrite<T>,
    woken_o: Seq<u64>,
    woken_n: Seq<u64>,
) -> bool {
    ({
        let hk = o.next_id() as int % o.capacity() as int;
        if o.write_blocked() {
            &&& r == TryWrite::Pending(value)
            &&& n.written() == o.written()
            &&& n.next_id() == o.next_id()
            &&& woken_n == woken_o
            &&& forall|k: int|
                0 <= k < o.capacity() ==> (#[trigger] n.slot(
                    k,
                )).write_waiters() == o.slot(k).write_waiters()
                    && n.slot(k).release_waiters() == if k == hk {
                    subscribed(o.slot(k).release_waiters(), waker)
                } else {
                    o.slot(k).release_waiters()
                }
        } else {
            &&& r == TryWrite::<T>::Ready
            &&& n.written() == o.written().push(value)
            &&& n.next_id() == o.next_id() + 1
            &&& woken_n == woken_o + o.slot(hk).write_waiters()
            &&& forall|k: int|
                0 <= k < o.capacity() ==> (#[trigger] n.slot(
                    k,
                )).release_waiters() == o.slot(k).release_waiters()
                    && n.slot(k).write_waiters() == if k == hk {
                    Seq::<u64>::empty()
                } else {
                    o.slot(k).write_waiters()
                }
        }
    })
}

/// One read by a reader at position `p_o` took the buffer from `o` to `n`
/// and the reader to position `p_n`, answered `r`, and took the list of woken
/// tasks from `woken_o` to `woken_n`.
pub open spec fn read_from<T: Clone>(
    o: MpmcCircularBuffer<T>,
    n: MpmcCircularBuffer<T>,
    p_o: int,
    p_n: int,
    waker: Option<u64>,
    r: TryRead<T>,
    woken_o: Seq<u64>,
    woken_n: Seq<u64>,
) -> bool {
    ({
        let p = p_o;
        let pk = p % o.capacity() as int;
        if p < o.next_id() {
            let positions = o.positions().remove(p).insert(p + 1);
            let notified = forall|q: int| #[trigger] positions.contains(q) ==> q > p;
            &&& r matches TryRead::Ready(v) && cloned(o.written()[p - 1], v)
            &&& p_n == p + 1
            &&& n.positions() == positions
            &&& woken_n == woken_o + if notified {
                o.slot(pk).release_waiters()
            } else {
                Seq::<u64>::empty()
            }
            &&& forall|k: int|
                0 <= k < o.capacity() ==> (#[trigger] n.slot(
                    k,
                )).write_waiters() == o.slot(k).write_waiters()
                    && n.slot(k).release_waiters() == if k == pk && notified {
                    Seq::<u64>::empty()
                } else {
                    o.slot(k).release_waiters()
                }
        } else {
            &&& r is Pending
            &&& p_n == p
            &&& n.positions() == o.positions()
            &&& woken_n == woken_o
            &&& forall|k: int|
                0 <= k < o.capacity() ==> (#[trigger] n.slot(
                    k,
                )).release_waiters() == o.slot(k).release_waiters()
                    && n.slot(k).write_waiters() == if k == pk {
                    subscribed(o.slot(k).write_waiters(), waker)
                } else {
                    o.slot(k).write_waiters()
                }
        }
    })
}

/// One cell of the buffer: the value with id `index` (0 when none has been
/// written), the number of readers that have read it, and the tasks waiting
/// for a write into it or for its release.
pub struct Slot<T> {
    data: Option<T>,
    reads: usize,
    index: usize,
    on_write: Notifier,
    on_release: Notifier,
}

impl<T> Slot<T> {
    pub closed spec fn data(&self) -> Option<T> {
        self.data
    }

    pub closed spec fn reads(&self) -> nat {
        self.reads as nat
    }

    pub closed spec fn index(&self) -> nat {
        self.index as nat
    }

    pub closed spec fn write_waiters(&self) -> Seq<u64> {
        self.on_write@
    }

    pub closed spec fn release_waiters(&self) -> Seq<u64> {
        self.on_release@
    }

    pub fn new(index: usize) -> (s: Self)
        ensures
            s.data() is None,
            s.reads() == 0,
            s.index() == index,
            s.write_waiters() == Seq::<u64>::empty(),
            s.release_waiters() == Seq::<u64>::empty(),
    {
        Self {
            data: None,
            reads: 0,
            index,
            on_write: Notifier::new(),
            on_release: Notifier::new(),
        }
    }

    /// Writes `value` with id `index`, unless the slot already holds that id
    /// or a later one (`Written`), or holds a value that fewer than `readers`
    /// readers have read (`Pending`, subscribing the task to the release).
    /// A write wakes the tasks waiting for it.  Just before the value is
    /// stored, a write moves `head` from `index` to the next id, when it still
    /// holds `index`; `head` is left as it is otherwise.
    pub fn try_write(
        &mut self,
        index: usize,
        value: T,
        readers: usize,
        cx: &mut Context,
        head: &mut usize,
    ) -> (r: SlotTryWrite<T>)
        requires
            index < usize::MAX,
        ensures
            final(cx).waker == old(cx).waker,
            r is Ready ==> *final(head) == if *old(head) == index {
                (index + 1) as usize
            } else {
                *old(head)
            },
            !(r is Ready) ==> *final(head) == *old(head),
            old(self).index() >= index ==> r == SlotTryWrite::Written(value) && *final(self)
                == *old(self) && final(cx).woken@ == old(cx).woken@,
            old(self).index() < index && old(self).index() != 0 && old(self).reads() < readers
                ==> r == SlotTryWrite::Pending(value) && final(self).data() == old(self).data()
                && final(self).reads() == old(self).reads() && final(self).index()
                == old(self).index() && final(self).write_waiters() == old(self).write_waiters()
                && final(self).release_waiters() == subscribed(
                old(self).release_waiters(),
                old(cx).waker,
            ) && final(cx).woken@ == old(cx).woken@,
            old(self).index() < index && (old(self).index() == 0 || old(self).reads() >= readers)
                ==> r == SlotTryWrite::<T>::Ready && final(self).data() == Some(value)
                && final(self).reads() == 0 && final(self).index() == index
                && final(self).write_waiters() == Seq::<u64>::empty()
                && final(self).release_waiters() == old(self).release_waiters()
                && final(cx).woken@ == old(cx).woken@ + old(self).write_waiters(),
    {
        let prev_index = self.index;
        if prev_index >= index {
            return SlotTryWrite::Written(value);
        } else if prev_index != 0 && self.reads < readers {
            self.on_release.subscribe(cx);
            return SlotTryWrite::Pending(value);
        }
        self.index = index;
        if *head == index {
            *head = index + 1;
        }
        self.data = Some(value);
        self.reads = 0;
        self.on_write.notify(&mut cx.woken);
        SlotTryWrite::Ready
    }

    /// Counts one more reader for the value, if its id lies in `[min, max)`;
    /// when `readers` readers have then read it, the slot is released.
    fn mark_read_in_range(&mut self, min: usize, max: usize, readers: usize, woken: &mut Vec<u64>)
        requires
            min <= old(self).index() < max ==> old(self).reads() < usize::MAX,
        ensures
            ({
                let hit = min <= old(self).index() < max;
                let reads = if hit {
                    old(self).reads() + 1
                } else {
                    old(self).reads()
                };
                let notified = hit && reads >= readers;
                &&& final(self).reads() == reads
                &&& final(self).data() == old(self).data()
                &&& final(self).index() == old(self).index()
                &&& final(self).write_waiters() == old(self).write_waiters()
                &&& final(self).release_waiters() == if notified {
                    Seq::<u64>::empty()
                } else {
                    old(self).release_waiters()
                }
                &&& final(woken)@ == old(woken)@ + if notified {
                    old(self).release_waiters()
                } else {
                    Seq::<u64>::empty()
                }
            }),
    {
        let index = self.index;
        if index >= min && index < max {
            self.reads = self.reads + 1;
            let reads = self.reads;
            if reads >= readers {
                self.on_release.notify(woken);
            } else {
                assert(woken@ =~= old(woken)@ + Seq::<u64>::empty());
            }
        } else {
            assert(woken@ =~= old(woken)@ + Seq::<u64>::empty());
        }
    }

    /// Counts one reader less for the value, if its id lies in `[min, max)`
    /// and any reader was counted.
    fn decrement_read_in_range(&mut self, min: usize, max: usize)
        ensures
            final(self).reads() == if min <= old(self).index() < max && old(self).reads() > 0 {
                old(self).reads() - 1
            } else {
                old(self).reads() as int
            },
            final(self).data() == old(self).data(),
            final(self).index() == old(self).index(),
            final(self).write_waiters() == old(self).write_waiters(),
            final(self).release_waiters() == old(self).release_waiters(),
    {
        let index = self.index;
        if index >= min && index < max {
            let reads = self.reads;
            if reads == 0 {
                return;
            }
            self.reads = reads - 1;
        }
    }

    /// Releases the slot if `readers` readers have read its value.
    fn notify_readers_decreased(&mut self, readers: usize, woken: &mut Vec<u64>)
        ensures
            ({
                let notified = old(self).reads() >= readers;
                &&& final(self).reads() == old(self).reads()
                &&& final(self).data() == old(self).data()
                &&& final(self).index() == old(self).index()
                &&& final(self).write_waiters() == old(self).write_waiters()
                &&& final(self).release_waiters() == if notified {
                    Seq::<u64>::empty()
                } else {
                    old(self).release_waiters()
                }
                &&& final(woken)@ == old(woken)@ + if notified {
                    old(self).release_waiters()
                } else {
                    Seq::<u64>::empty()
                }
            }),
    {
        if self.reads >= readers {
            self.on_release.notify(woken);
        } else {
            assert(woken@ =~= old(woken)@ + Seq::<u64>::empty());
        }
    }
}

impl<T: Clone> Slot<T> {
    /// Reads the value with id `index`: `Pending`, subscribing the task to
    /// the next write, when the slot holds no value or an earlier id;
    /// otherwise a clone of the value, counting one more reader and releasing
    /// the slot once `readers` readers have read it.
    pub fn try_read(&mut self, index: usize, readers: usize, cx: &mut Context) -> (r: TryRead<T>)
        requires
            old(self).data() is Some ==> old(self).index() <= index,
            old(self).data() is Some && old(self).index() == index ==> old(self).reads()
                < usize::MAX,
        ensures
            final(cx).waker == old(cx).waker,
            final(self).data() == old(self).data(),
            final(self).index() == old(self).index(),
            final(self).write_waiters() == if r is Pending {
                subscribed(old(self).write_waiters(), old(cx).waker)
            } else {
                old(self).write_waiters()
            },
            (old(self).data() is None || old(self).index() < index) ==> r is Pending
                && final(self).reads() == old(self).reads() && final(self).release_waiters()
                == old(self).release_waiters() && final(cx).woken@ == old(cx).woken@,
            (old(self).data() is Some && old(self).index() == index) ==> ({
                let reads = old(self).reads() + 1;
                let notified = reads >= readers;
                &&& r matches TryRead::Ready(v) && cloned(old(self).data()->0, v)
                &&& final(self).reads() == reads
                &&& final(self).release_waiters() == if notified {
                    Seq::<u64>::empty()
                } else {
                    old(self).release_waiters()
                }
                &&& final(cx).woken@ == old(cx).woken@ + if notified {
                    old(self).release_waiters()
                } else {
                    Seq::<u64>::empty()
                }
            }),
    {
        if self.data.is_none() {
            self.on_write.subscribe(cx);
            return TryRead::Pending;
        }
        let slot_index = self.index;
        if slot_index < index {
            self.on_write.subscribe(cx);
            return TryRead::Pending;
        }
        self.reads = self.reads + 1;
        let reads = self.reads;
        let data_cloned = match &self.data {
            Some(v) => v.clone(),
            None => vstd::pervasive::unreached(),
        };
        if reads >= readers {
            self.on_release.notify(&mut cx.woken);
        } else {
            assert(cx.woken@ =~= old(cx).woken@ + Seq::<u64>::empty());
        }
        TryRead::Ready(data_cloned)
    }
}

/// The buffer: its slots, the id that the next write takes, and the number of
/// live readers.  Ghost state records every value written so far, in order,
/// and the position of each live reader: the id of the next value it reads.
pub struct MpmcCircularBuffer<T> {
    buffer: Vec<Slot<T>>,
    head: usize,
    readers: usize,
    written: Ghost<Seq<T>>,
    positions: Ghost<Multiset<int>>,
}

/// A reader of the buffer, at the id of the next value it reads.
#[derive(Debug)]
pub struct BufferReader {
    index: usize,
}

impl BufferReader {
    /// The id of the next value this reader reads.
    pub closed spec fn position(&self) -> int {
        self.index as int
    }
}

impl<T> MpmcCircularBuffer<T> {
    /// The number of slots.
    pub closed spec fn capacity(&self) -> nat {
        self.buffer@.len()
    }

    /// The id that the next value written takes.
    pub closed spec fn next_id(&self) -> nat {
        self.head as nat
    }

    /// Every value written so far, oldest first: the value with id `i` is
    /// `written()[i - 1]`.
    pub closed spec fn written(&self) -> Seq<T> {
        self.written@
    }

    /// The positions of the live readers.
    pub closed spec fn positions(&self) -> Multiset<int> {
        self.positions@
    }

    /// The slot at `k`.
    pub closed spec fn slot(&self, k: int) -> Slot<T> {
        self.buffer@[k]
    }

    /// A write waits while the slot that the next id takes holds a value that
    /// some live reader has not read.
    pub open spec fn write_blocked(&self) -> bool {
        self.next_id() >= self.capacity() + 1 && self.positions().contains(
            self.next_id() - self.capacity(),
        )
    }

    /// The value with id `i` is held by its slot.
    spec fn id_stored(&self, i: int) -> bool {
        self.buffer@[i % (self.buffer@.len() as int)].index == i
    }

    spec fn slot_wf(&self, k: int) -> bool {
        let s = self.buffer@[k];
        let cap = self.buffer@.len() as int;
        if s.index == 0 {
            &&& s.data is None
            &&& s.reads <= self.positions@.len()
        } else {
            &&& s.index as int % cap == k
            &&& self.head - cap <= s.index < self.head
            &&& s.data == Some(self.written@[s.index - 1])
            &&& s.reads == readers_past(self.positions@, s.index as int)
        }
    }

    /// The invariant of the buffer.
    pub closed spec fn wf(&self) -> bool {
        let cap = self.buffer@.len() as int;
        &&& cap >= 2
        &&& self.head >= 1
        &&& self.written@.len() == self.head - 1
        &&& self.readers == self.positions@.len()
        &&& forall|r: int| #[trigger]
            self.positions@.contains(r) ==> 1 <= r <= self.head && r >= self.head - cap
        &&& forall|k: int| 0 <= k < cap ==> #[trigger] self.slot_wf(k)
        &&& forall|i: int| 1 <= i < self.head && i >= self.head - cap ==> #[trigger] self.id_stored(i)
    }

    /// A well-formed buffer has at least two slots, and ids start at 1: the
    /// values written so far are those with ids below `next_id()`.
    pub proof fn lemma_wf_bounds(&self)
        requires
            self.wf(),
        ensures
            self.capacity() >= 2,
            self.next_id() >= 1,
            self.written().len() == self.next_id() - 1,
            self.positions().len() <= usize::MAX,
    {
    }

    /// The id that the next value written takes.
    pub fn next_index(&self) -> (n: usize)
        ensures
            n == self.next_id(),
    {
        self.head
    }

    /// The number of live readers.
    pub fn reader_count(&self) -> (n: usize)
        requires
            self.wf(),
        ensures
            n == self.positions().len(),
    {
        self.readers
    }

    /// The number of slots.
    pub fn len(&self) -> (n: usize)
        ensures
            n == self.capacity(),
    {
        self.buffer.len()
    }
}

impl<T: Clone> MpmcCircularBuffer<T> {
    /// A buffer of `max(2, capacity)` slots, with one reader, which reads
    /// every value written.
    pub fn new(capacity: usize) -> (r: (Self, BufferReader))
        ensures
            r.0.wf(),
            r.0.capacity() == if capacity < 2 {
                2
            } else {
                capacity as nat
            },
            r.0.next_id() == 1,
            r.0.written() == Seq::<T>::empty(),
            r.0.positions() == Multiset::<int>::singleton(1),
            r.1.position() == 1,
            forall|k: int|
                0 <= k < r.0.capacity() ==> (#[trigger] r.0.slot(k)).write_waiters()
                    == Seq::<u64>::empty() && r.0.slot(k).release_waiters() == Seq::<u64>::empty(),
    {
        let capacity = if capacity < 2 {
            2
        } else {
            capacity
        };
        let mut vec: Vec<Slot<T>> = Vec::with_capacity(capacity);
        let mut i: usize = 0;
        while i < capacity
            invariant
                i <= capacity,
                vec@.len() == i,
                forall|k: int|
                    0 <= k < i ==> (#[trigger] vec@[k]).index == 0 && vec@[k].data is None
                        && vec@[k].reads == 0 && vec@[k].on_write@ == Seq::<u64>::empty()
                        && vec@[k].on_release@ == Seq::<u64>::empty(),
            decreases capacity - i,
        {
            vec.push(Slot::new(0));
            i = i + 1;
        }
        let this = Self {
            buffer: vec,
            head: 1,
            readers: 1,
            written: Ghost(Seq::empty()),
            positions: Ghost(Multiset::singleton(1)),
        };
        let reader = BufferReader { index: 1 };
        proof {
            assert(this.positions@.len() == 1);
            assert forall|k: int| 0 <= k < this.buffer@.len() implies #[trigger] this.slot_wf(k) by {}
        }
        (this, reader)
    }
}

impl<T> MpmcCircularBuffer<T> {
    /// Writes `value` with the next id, unless the write is blocked: then the
    /// value is handed back and the task is subscribed to the release of the
    /// slot.  A write wakes the tasks waiting for a value in that slot.
    pub fn try_write(&mut self, value: T, cx: &mut Context) -> (r: TryWrite<T>)
        requires
            old(self).wf(),
            old(self).next_id() < usize::MAX,
        ensures
            final(self).wf(),
            final(cx).waker == old(cx).waker,
            final(self).capacity() == old(self).capacity(),
            final(self).positions() == old(self).positions(),
            wrote(*old(self), *final(self), old(cx).waker, value, r, old(cx).woken@, final(cx).woken@),
    {
        let head_id = self.head;
        let readers = self.readers;
        let cap = self.buffer.len();
        let hk = head_id % cap;
        let ghost h = head_id as int;
        let ghost capi = cap as int;
        let ghost m = self.positions@;
        let ghost s0 = self.buffer@[hk as int];
        proof {
            assert(self.slot_wf(hk as int));
            // the slot holds the value that the next id replaces, if any
            assert(s0.index != 0 ==> s0.index as int == h - capi) by {
                if s0.index != 0 && s0.index as int != h - capi {
                    lemma_mod_distinct(s0.index as int, h, capi);
                }
            }
            assert(s0.index == 0 ==> h <= capi) by {
                if s0.index == 0 && h >= capi + 1 {
                    assert(self.id_stored(h - capi));
                    lemma_mod_back(h, capi);
                }
            }
            lemma_past_all(m, h - capi);
            lemma_past_le_len(m, h - capi);
        }
        let try_write = self.buffer[hk].try_write(head_id, value, readers, cx, &mut self.head);
        match try_write {
            SlotTryWrite::Pending(v) => {
                proof {
                    assert forall|k: int| 0 <= k < capi implies #[trigger] self.slot_wf(k) by {
                        if k != hk {
                            assert(old(self).slot_wf(k));
                        }
                    }
                    assert forall|i: int| 1 <= i < h && i >= h - capi implies #[trigger] self.id_stored(i) by {
                        assert(old(self).id_stored(i));
                    }
                }
                TryWrite::Pending(v)
            },
            SlotTryWrite::Ready => {
                self.written = Ghost(self.written@.push(value));
                proof {
                    lemma_past_none(m, h);
                    assert forall|k: int| 0 <= k < capi implies #[trigger] self.slot_wf(k) by {
                        if k != hk {
                            assert(old(self).slot_wf(k));
                            let s = self.buffer@[k];
                            if s.index != 0 {
                                if s.index as int == h - capi {
                                    lemma_mod_back(h, capi);
                                }
                            }
                        }
                    }
                    assert forall|r: int| #[trigger] m.contains(r) implies 1 <= r <= h + 1 && r >= h
                        + 1 - capi by {}
                    assert forall|i: int| 1 <= i < h + 1 && i >= h + 1 - capi implies #[trigger] self.id_stored(i) by {
                        if i != h {
                            assert(old(self).id_stored(i));
                            lemma_mod_distinct(i, h, capi);
                        }
                    }
                }
                TryWrite::Ready
            },
            // the slot at the head holds an earlier id than the head
            SlotTryWrite::Written(_) => vstd::pervasive::unreached(),
        }
    }
}

impl BufferReader {
    /// Reads the value with this reader's position as its id: a clone of it,
    /// advancing the reader, once it has been written; `Pending` otherwise,
    /// subscribing the task to the next write into its slot.  The read
    /// releases the slot when no live reader is left at or before its id.
    pub fn try_read<T: Clone>(&mut self, buffer: &mut MpmcCircularBuffer<T>, cx: &mut Context) -> (r:
        TryRead<T>)
        requires
            old(buffer).wf(),
            old(buffer).positions().contains(old(self).position()),
        ensures
            final(buffer).wf(),
            final(cx).waker == old(cx).waker,
            final(buffer).capacity() == old(buffer).capacity(),
            final(buffer).written() == old(buffer).written(),
            final(buffer).next_id() == old(buffer).next_id(),
            read_from(
                *old(buffer),
                *final(buffer),
                old(self).position(),
                final(self).position(),
                old(cx).waker,
                r,
                old(cx).woken@,
                final(cx).woken@,
            ),
    {
        let index = self.index;
        let cap = buffer.buffer.len();
        let k = index % cap;
        let readers = buffer.readers;
        let ghost p = index as int;
        let ghost capi = cap as int;
        let ghost m = buffer.positions@;
        let ghost head = buffer.head as int;
        let ghost m2 = m.remove(p).insert(p + 1);
        proof {
            assert(buffer.slot_wf(k as int));
            if p < head {
                assert(buffer.id_stored(p));
                lemma_past_remove(m, p, p);
                lemma_past_le_len(m.remove(p), p);
            } else if buffer.buffer@[k as int].index != 0 {
                assert(buffer.buffer@[k as int].index < p);
            }
        }
        let try_read = buffer.buffer[k].try_read(index, readers, cx);
        match try_read {
            TryRead::Ready(_) => {
                self.index = index + 1;
                buffer.positions = Ghost(m2);
                proof {
                    lemma_past_insert(m.remove(p), p + 1, p);
                    lemma_past_all(m2, p);
                    assert forall|j: int| 0 <= j < capi implies #[trigger] buffer.slot_wf(j) by {
                        if j != k {
                            assert(old(buffer).slot_wf(j));
                            let q = buffer.buffer@[j].index as int;
                            if q != 0 {
                                lemma_past_remove(m, p, q);
                                lemma_past_insert(m.remove(p), p + 1, q);
                            }
                        }
                    }
                    assert forall|i: int| 1 <= i < head && i >= head - capi implies #[trigger] buffer.id_stored(i) by {
                        assert(old(buffer).id_stored(i));
                    }
                    assert forall|r: int| #[trigger] m2.contains(r) implies 1 <= r <= head && r >= head - capi by {
                        if r != p + 1 {
                            assert(m.contains(r));
                        }
                    }
                }
            },
            TryRead::Pending => {
                proof {
                    assert forall|j: int| 0 <= j < capi implies #[trigger] buffer.slot_wf(j) by {
                        assert(old(buffer).slot_wf(j));
                    }
                    assert forall|i: int| 1 <= i < head && i >= head - capi implies #[trigger] buffer.id_stored(i) by {
                        assert(old(buffer).id_stored(i));
                    }
                }
            },
        }
        try_read
    }
}

impl<T> MpmcCircularBuffer<T> {
    /// The tasks waiting for the release of each slot.
    pub open spec fn release_all(&self) -> Seq<Seq<u64>> {
        Seq::new(self.capacity(), |k: int| self.slot(k).release_waiters())
    }

    /// Counts one more reader for every slot whose id lies in `[min, max)`,
    /// releasing those that all readers have then read.
    fn mark_read_in_range(&mut self, min: usize, max: usize, woken: &mut Vec<u64>)
        requires
            forall|k: int|
                0 <= k < old(self).buffer@.len() && min <= (#[trigger] old(self).buffer@[k]).index
                    < max ==> old(self).buffer@[k].reads < usize::MAX,
        ensures
            final(self).buffer@.len() == old(self).buffer@.len(),
            final(self).head == old(self).head,
            final(self).readers == old(self).readers,
            final(self).written == old(self).written,
            final(self).positions == old(self).positions,
            forall|k: int|
                0 <= k < old(self).buffer@.len() ==> {
                    let o = old(self).buffer@[k];
                    let n = #[trigger] final(self).buffer@[k];
                    let hit = min <= o.index < max;
                    &&& n.reads == if hit {
                        o.reads + 1
                    } else {
                        o.reads as int
                    }
                    &&& n.data == o.data
                    &&& n.index == o.index
                    &&& n.on_write@ == o.on_write@
                    &&& n.on_release@ == if hit && o.reads + 1 >= old(self).readers {
                        Seq::<u64>::empty()
                    } else {
                        o.on_release@
                    }
                },
            final(woken)@ == old(woken)@ + gather(
                old(self).release_all(),
                |k: int|
                    min <= old(self).buffer@[k].index < max && old(self).buffer@[k].reads + 1
                        >= old(self).readers,
                old(self).buffer@.len() as int,
            ),
    {
        let ghost sel = |k: int|
            min <= old(self).buffer@[k].index < max && old(self).buffer@[k].reads + 1
                >= old(self).readers;
        let ghost w = old(self).release_all();
        let len = self.buffer.len();
        let mut k: usize = 0;
        while k < len
            invariant
                k <= len,
                len == old(self).buffer@.len(),
                self.buffer@.len() == len,
                self.head == old(self).head,
                self.readers == old(self).readers,
                self.written == old(self).written,
                self.positions == old(self).positions,
                forall|j: int|
                    0 <= j < len && min <= (#[trigger] old(self).buffer@[j]).index < max
                        ==> old(self).buffer@[j].reads < usize::MAX,
                forall|j: int| k <= j < len ==> #[trigger] self.buffer@[j] == old(self).buffer@[j],
                forall|j: int|
                    0 <= j < k ==> {
                        let o = old(self).buffer@[j];
                        let n = #[trigger] self.buffer@[j];
                        let hit = min <= o.index < max;
                        &&& n.reads == if hit {
                            o.reads + 1
                        } else {
                            o.reads as int
                        }
                        &&& n.data == o.data
                        &&& n.index == o.index
                        &&& n.on_write@ == o.on_write@
                        &&& n.on_release@ == if hit && o.reads + 1 >= old(self).readers {
                            Seq::<u64>::empty()
                        } else {
                            o.on_release@
                        }
                    },
                w == old(self).release_all(),
                sel == (|j: int|
                    min <= old(self).buffer@[j].index < max && old(self).buffer@[j].reads + 1
                        >= old(self).readers),
                woken@ == old(woken)@ + gather(w, sel, k as int),
            decreases len - k,
        {
            let readers = self.readers;
            self.buffer[k].mark_read_in_range(min, max, readers, woken);
            proof {
                assert(w[k as int] == old(self).buffer@[k as int].on_release@);
                assert(woken@ =~= old(woken)@ + gather(w, sel, k + 1));
            }
            k = k + 1;
        }
    }
}

impl<T> MpmcCircularBuffer<T> {
    /// Adds a reader at the next id: it reads every value written from now
    /// on.  Every value already written counts it as a reader, which releases
    /// the slots that no other reader is waiting on.
    pub fn new_reader(&mut self, woken: &mut Vec<u64>) -> (reader: BufferReader)
        requires
            old(self).wf(),
            old(self).positions().len() < usize::MAX,
        ensures
            final(self).wf(),
            reader.position() == old(self).next_id(),
            final(self).positions() == old(self).positions().insert(old(self).next_id() as int),
            final(self).written() == old(self).written(),
            final(self).next_id() == old(self).next_id(),
            final(self).capacity() == old(self).capacity(),
            forall|k: int|
                0 <= k < old(self).capacity() ==> (#[trigger] final(self).slot(k)).write_waiters()
                    == old(self).slot(k).write_waiters() && final(self).slot(k).release_waiters()
                    == if old(self).slot(k).reads() >= old(self).positions().len() {
                    Seq::<u64>::empty()
                } else {
                    old(self).slot(k).release_waiters()
                },
            final(woken)@ == old(woken)@ + gather(
                old(self).release_all(),
                |k: int| old(self).slot(k).reads() >= old(self).positions().len(),
                old(self).capacity() as int,
            ),
    {
        let index = self.head;
        let ghost m = self.positions@;
        let ghost cap = self.buffer@.len() as int;
        proof {
            assert forall|k: int| 0 <= k < cap implies (#[trigger] self.buffer@[k]).reads
                < usize::MAX by {
                assert(self.slot_wf(k));
                if self.buffer@[k].index != 0 {
                    lemma_past_le_len(m, self.buffer@[k].index as int);
                }
            }
        }
        self.readers = self.readers + 1;
        self.positions = Ghost(m.insert(index as int));
        let ghost mid = *self;
        self.mark_read_in_range(0, index, woken);
        proof {
            assert forall|k: int| 0 <= k < cap implies mid.buffer@[k].index < index by {
                assert(old(self).slot_wf(k));
            }
            assert forall|r: int| #[trigger] m.insert(index as int).contains(r) implies 1 <= r
                <= index && r >= index - cap by {
                if r != index {
                    assert(m.contains(r));
                }
            }
            lemma_gather_ext(
                mid.release_all(),
                |k: int|
                    0 <= mid.buffer@[k].index < index && mid.buffer@[k].reads + 1 >= mid.readers,
                |k: int| old(self).slot(k).reads() >= old(self).positions().len(),
                cap,
            );
            assert(mid.release_all() =~= old(self).release_all());
            assert forall|k: int| 0 <= k < cap implies #[trigger] self.slot_wf(k) by {
                assert(old(self).slot_wf(k));
                if self.buffer@[k].index != 0 {
                    lemma_past_insert(m, index as int, self.buffer@[k].index as int);
                }
            }
            assert forall|i: int| 1 <= i < index && i >= index - cap implies #[trigger] self.id_stored(i) by {
                assert(old(self).id_stored(i));
            }
        }
        BufferReader { index }
    }
}

impl BufferReader {
    /// A second reader at this reader's position: it reads the same values
    /// from here on.  Every value before that position counts it as a reader.
    pub fn clone_with<T>(&self, buffer: &mut MpmcCircularBuffer<T>, woken: &mut Vec<u64>) -> (reader:
        Self)
        requires
            old(buffer).wf(),
            old(buffer).positions().contains(self.position()),
            old(buffer).positions().len() < usize::MAX,
        ensures
            final(buffer).wf(),
            reader.position() == self.position(),
            final(buffer).positions() == old(buffer).positions().insert(self.position()),
            final(buffer).written() == old(buffer).written(),
            final(buffer).next_id() == old(buffer).next_id(),
            final(buffer).capacity() == old(buffer).capacity(),
            forall|k: int|
                0 <= k < old(buffer).capacity() ==> (#[trigger] final(buffer).slot(
                    k,
                )).write_waiters() == old(buffer).slot(k).write_waiters() && final(buffer).slot(
                    k,
                ).release_waiters() == if old(buffer).slot(k).index() < self.position()
                    && old(buffer).slot(k).reads() >= old(buffer).positions().len() {
                    Seq::<u64>::empty()
                } else {
                    old(buffer).slot(k).release_waiters()
                },
            final(woken)@ == old(woken)@ + gather(
                old(buffer).release_all(),
                |k: int|
                    old(buffer).slot(k).index() < self.position() && old(buffer).slot(k).reads()
                        >= old(buffer).positions().len(),
                old(buffer).capacity() as int,
            ),
    {
        let index = self.index;
        let ghost m = buffer.positions@;
        let ghost cap = buffer.buffer@.len() as int;
        let ghost head = buffer.head as int;
        proof {
            assert forall|k: int| 0 <= k < cap implies (#[trigger] buffer.buffer@[k]).reads
                < usize::MAX by {
                assert(buffer.slot_wf(k));
                if buffer.buffer@[k].index != 0 {
                    lemma_past_le_len(m, buffer.buffer@[k].index as int);
                }
            }
        }
        buffer.readers = buffer.readers + 1;
        buffer.positions = Ghost(m.insert(index as int));
        let ghost mid = *buffer;
        buffer.mark_read_in_range(0, index, woken);
        proof {
            assert forall|r: int| #[trigger] m.insert(index as int).contains(r) implies 1 <= r
                <= head && r >= head - cap by {
                if r != index {
                    assert(m.contains(r));
                }
            }
            lemma_gather_ext(
                mid.release_all(),
                |k: int|
                    0 <= mid.buffer@[k].index < index && mid.buffer@[k].reads + 1 >= mid.readers,
                |k: int|
                    old(buffer).slot(k).index() < self.position() && old(buffer).slot(k).reads()
                        >= old(buffer).positions().len(),
                cap,
            );
            assert(mid.release_all() =~= old(buffer).release_all());
            assert forall|k: int| 0 <= k < cap implies #[trigger] buffer.slot_wf(k) by {
                assert(old(buffer).slot_wf(k));
                if buffer.buffer@[k].index != 0 {
                    lemma_past_insert(m, index as int, buffer.buffer@[k].index as int);
                }
            }
            assert forall|i: int| 1 <= i < head && i >= head - cap implies #[trigger] buffer.id_stored(i) by {
                assert(old(buffer).id_stored(i));
            }
        }
        BufferReader { index }
    }

    /// Removes this reader from the buffer.  The values before its position
    /// no longer count it, and the slots that every remaining reader has read
    /// are released.
    pub fn drop_with<T>(&mut self, buffer: &mut MpmcCircularBuffer<T>, woken: &mut Vec<u64>)
        requires
            old(buffer).wf(),
            old(buffer).positions().contains(old(self).position()),
        ensures
            final(buffer).wf(),
            final(self).position() == old(self).position(),
            final(buffer).positions() == old(buffer).positions().remove(old(self).position()),
            final(buffer).written() == old(buffer).written(),
            final(buffer).next_id() == old(buffer).next_id(),
            final(buffer).capacity() == old(buffer).capacity(),
            forall|k: int|
                0 <= k < old(buffer).capacity() ==> (#[trigger] final(buffer).slot(
                    k,
                )).write_waiters() == old(buffer).slot(k).write_waiters() && final(buffer).slot(
                    k,
                ).release_waiters() == if dropped_reads(old(buffer).slot(k), old(self).position())
                    >= old(buffer).positions().len() - 1 {
                    Seq::<u64>::empty()
                } else {
                    old(buffer).slot(k).release_waiters()
                },
            final(woken)@ == old(woken)@ + gather(
                old(buffer).release_all(),
                |k: int|
                    dropped_reads(old(buffer).slot(k), old(self).position())
                        >= old(buffer).positions().len() - 1,
                old(buffer).capacity() as int,
            ),
    {
        let index = self.index;
        let ghost p = index as int;
        let ghost m = buffer.positions@;
        let ghost cap = buffer.buffer@.len() as int;
        let ghost head = buffer.head as int;
        let ghost sel = |k: int|
            dropped_reads(old(buffer).slot(k), p) >= old(buffer).positions().len() - 1;
        let ghost w = old(buffer).release_all();
        buffer.readers = buffer.readers - 1;
        buffer.positions = Ghost(m.remove(p));
        let len = buffer.buffer.len();
        let mut k: usize = 0;
        while k < len
            invariant
                k <= len,
                len == cap,
                p == index as int,
                cap == old(buffer).buffer@.len(),
                buffer.buffer@.len() == len,
                buffer.head == old(buffer).head,
                buffer.readers == old(buffer).readers - 1,
                buffer.written == old(buffer).written,
                buffer.positions@ == m.remove(p),
                forall|j: int| k <= j < len ==> #[trigger] buffer.buffer@[j] == old(buffer).buffer@[j],
                forall|j: int|
                    0 <= j < k ==> {
                        let o = old(buffer).buffer@[j];
                        let n = #[trigger] buffer.buffer@[j];
                        let reads = dropped_reads(o, p);
                        &&& n.reads == reads
                        &&& n.data == o.data
                        &&& n.index == o.index
                        &&& n.on_write@ == o.on_write@
                        &&& n.on_release@ == if reads >= old(buffer).readers - 1 {
                            Seq::<u64>::empty()
                        } else {
                            o.on_release@
                        }
                    },
                w == old(buffer).release_all(),
                sel == (|j: int|
                    dropped_reads(old(buffer).slot(j), p) >= old(buffer).positions().len() - 1),
                old(buffer).readers == old(buffer).positions@.len(),
                woken@ == old(woken)@ + gather(w, sel, k as int),
            decreases len - k,
        {
            let readers = buffer.readers;
            buffer.buffer[k].decrement_read_in_range(0, index);
            buffer.buffer[k].notify_readers_decreased(readers, woken);
            proof {
                assert(w[k as int] == old(buffer).buffer@[k as int].on_release@);
                assert(woken@ =~= old(woken)@ + gather(w, sel, k + 1));
            }
            k = k + 1;
        }
        proof {
            assert forall|j: int| 0 <= j < cap implies #[trigger] buffer.slot_wf(j) by {
                assert(old(buffer).slot_wf(j));
                let q = buffer.buffer@[j].index as int;
                if q != 0 {
                    lemma_past_remove(m, p, q);
                }
            }
            assert forall|i: int| 1 <= i < head && i >= head - cap implies #[trigger] buffer.id_stored(i) by {
                assert(old(buffer).id_stored(i));
            }
            assert forall|r: int| #[trigger] m.remove(p).contains(r) implies 1 <= r <= head && r
                >= head - cap by {
                assert(m.contains(r));
            }
        }
    }
}

/// The count of readers of a slot once the reader at position `p` is gone.
pub open spec fn dropped_reads<T>(s: Slot<T>, p: int) -> nat {
    if s.index() < p && s.reads() > 0 {
        (s.reads() - 1) as nat
    } else {
        s.reads()
    }
}

/// Every live reader is at most `capacity()` values behind the next id, and
/// never past it.
pub proof fn lemma_readers_within_capacity<T>(b: MpmcCircularBuffer<T>, r: int)
    requires
        b.wf(),
        b.positions().contains(r),
    ensures
        1 <= r <= b.next_id(),
        b.next_id() - b.capacity() <= r,
{
}

/// No value is lost: every value that a live reader has yet to read is still
/// held in the slot for its id.
pub proof fn lemma_unread_values_held<T>(b: MpmcCircularBuffer<T>, r: int, i: int)
    requires
        b.wf(),
        b.positions().contains(r),
        r <= i < b.next_id(),
    ensures
        b.slot(i % b.capacity() as int).index() == i,
        b.slot(i % b.capacity() as int).data() == Some(b.written()[i - 1]),
{
    assert(b.id_stored(i));
    assert(b.slot_wf(i % b.capacity() as int));
}

/// A write never changes the values written before it: it appends exactly
/// the value it accepted, or nothing.
pub proof fn lemma_write_extends_history<T>(
    o: MpmcCircularBuffer<T>,
    n: MpmcCircularBuffer<T>,
    waker: Option<u64>,
    value: T,
    r: TryWrite<T>,
    woken_o: Seq<u64>,
    woken_n: Seq<u64>,
)
    requires
        wrote(o, n, waker, value, r, woken_o, woken_n),
    ensures
        o.written().is_prefix_of(n.written()),
        r is Ready ==> n.written() == o.written().push(value),
        r is Pending ==> n.written() == o.written(),
{
    if r is Ready {
        assert(o.written() =~= n.written().subrange(0, o.written().len() as int));
    } else {
        assert(o.written() =~= n.written().subrange(0, o.written().len() as int));
    }
}

/// With no live reader, a write is never held back.
pub proof fn lemma_no_reader_never_blocks<T>(b: MpmcCircularBuffer<T>)
    requires
        b.positions().len() == 0,
    ensures
        !b.write_blocked(),
{
    assert(b.positions() =~= Multiset::empty());
}

/// A reader created at the next id reads first the first value written after
/// its creation: it sees every value sent from then on, and none before.
pub proof fn lemma_new_reader_starts_after_history<T>(
    before: MpmcCircularBuffer<T>,
    after: MpmcCircularBuffer<T>,
    p: int,
)
    requires
        before.wf(),
        p == before.next_id(),
        before.written().is_prefix_of(after.written()),
    ensures
        p - 1 == before.written().len(),
        after.written().len() > before.written().len() ==> after.written()[p - 1]
            == after.written()[before.written().len() as int],
{
}

/// The values that a series of reads answered `Ready` with, in order.
pub open spec fn ready_values<T>(rs: Seq<TryRead<T>>) -> Seq<T>
    decreases rs.len(),
{
    if rs.len() == 0 {
        Seq::empty()
    } else {
        ready_values(rs.drop_last()) + match rs.last() {
            TryRead::Ready(v) => seq![v],
            TryRead::Pending => Seq::empty(),
        }
    }
}

/// The `i`-th of a series of reads by one reader: it took the buffer from
/// `before[i]` to `after[i]`, leaving the values written as they were, and
/// the reader from `positions[i]` to `positions[i + 1]`, answering `rs[i]`;
/// the buffer was well-formed, held the reader, and had written no value
/// that `history` does not hold in the same place.
pub open spec fn read_in_series<T: Clone>(
    before: Seq<MpmcCircularBuffer<T>>,
    after: Seq<MpmcCircularBuffer<T>>,
    positions: Seq<int>,
    rs: Seq<TryRead<T>>,
    history: Seq<T>,
    i: int,
) -> bool {
    &&& before[i].wf()
    &&& before[i].positions().contains(positions[i])
    &&& before[i].written().is_prefix_of(history)
    &&& exists|waker: Option<u64>, woken_o: Seq<u64>, woken_n: Seq<u64>|
        #[trigger] read_from(
            before[i],
            after[i],
            positions[i],
            positions[i + 1],
            waker,
            rs[i],
            woken_o,
            woken_n,
        )
}

/// Each value is delivered once, in the order written: a reader that starts
/// at position `positions[0]` and reads `rs.len()` times, while the values
/// written only ever extend `history`, is handed a clone of the value with
/// id `positions[0] + j` by its `j`-th `Ready` read, with none skipped or
/// repeated, and ends at the position after the last value it was handed.
pub proof fn lemma_reads_deliver_in_order<T: Clone>(
    before: Seq<MpmcCircularBuffer<T>>,
    after: Seq<MpmcCircularBuffer<T>>,
    positions: Seq<int>,
    rs: Seq<TryRead<T>>,
    history: Seq<T>,
)
    requires
        before.len() == rs.len(),
        after.len() == rs.len(),
        positions.len() == rs.len() + 1,
        forall|i: int|
            0 <= i < rs.len() ==> #[trigger] read_in_series(before, after, positions, rs, history, i),
    ensures
        positions[rs.len() as int] == positions[0] + ready_values(rs).len(),
        rs.len() > 0 ==> 1 <= positions[0] && positions[rs.len() as int] - 1 <= history.len(),
        forall|j: int|
            0 <= j < ready_values(rs).len() ==> cloned(
                history[positions[0] - 1 + j],
                #[trigger] ready_values(rs)[j],
            ),
    decreases rs.len(),
{
    let n = rs.len() as int;
    if n > 0 {
        let b2 = before.drop_last();
        let a2 = after.drop_last();
        let p2 = positions.drop_last();
        let r2 = rs.drop_last();
        assert forall|i: int| 0 <= i < r2.len() implies #[trigger] read_in_series(
            b2,
            a2,
            p2,
            r2,
            history,
            i,
        ) by {
            assert(read_in_series(before, after, positions, rs, history, i));
            assert(b2[i] == before[i] && a2[i] == after[i] && p2[i] == positions[i] && p2[i + 1]
                == positions[i + 1] && r2[i] == rs[i]);
        }
        lemma_reads_deliver_in_order(b2, a2, p2, r2, history);
        let last = n - 1;
        assert(read_in_series(before, after, positions, rs, history, last));
        let o = before[last];
        let p = positions[last];
        let (waker, woken_o, woken_n) = choose|waker: Option<u64>, woken_o: Seq<u64>, woken_n: Seq<u64>|
            #[trigger] read_from(o, after[last], p, positions[n], waker, rs[last], woken_o, woken_n);
        lemma_readers_within_capacity(o, p);
        o.lemma_wf_bounds();
        assert(r2 == rs.drop_last());
        let rv2 = ready_values(r2);
        if p < o.next_id() {
            let v = rs[last]->Ready_0;
            assert(o.written()[p - 1] == history[p - 1]);
            assert(ready_values(rs) == rv2 + seq![v]);
            assert forall|j: int| 0 <= j < ready_values(rs).len() implies cloned(
                history[positions[0] - 1 + j],
                #[trigger] ready_values(rs)[j],
            ) by {
                if j < rv2.len() {
                    assert(ready_values(rs)[j] == rv2[j]);
                    assert(p2[0] == positions[0]);
                }
            }
        } else {
            assert(ready_values(rs) =~= rv2);
        }
    }
}

/// A reader and its clone, which start at the same position, are sent the
/// same series: the `j`-th value that either is handed is a clone of the same
/// value written.
pub proof fn lemma_clones_read_same_series<T: Clone>(
    before_a: Seq<MpmcCircularBuffer<T>>,
    after_a: Seq<MpmcCircularBuffer<T>>,
    positions_a: Seq<int>,
    rs_a: Seq<TryRead<T>>,
    before_b: Seq<MpmcCircularBuffer<T>>,
    after_b: Seq<MpmcCircularBuffer<T>>,
    positions_b: Seq<int>,
    rs_b: Seq<TryRead<T>>,
    history: Seq<T>,
)
    requires
        before_a.len() == rs_a.len(),
        after_a.len() == rs_a.len(),
        positions_a.len() == rs_a.len() + 1,
        forall|i: int|
            0 <= i < rs_a.len() ==> #[trigger] read_in_series(
                before_a,
                after_a,
                positions_a,
                rs_a,
                history,
                i,
            ),
        before_b.len() == rs_b.len(),
        after_b.len() == rs_b.len(),
        positions_b.len() == rs_b.len() + 1,
        forall|i: int|
            0 <= i < rs_b.len() ==> #[trigger] read_in_series(
                before_b,
                after_b,
                positions_b,
                rs_b,
                history,
                i,
            ),
        positions_a[0] == positions_b[0],
    ensures
        forall|j: int|
            0 <= j < ready_values(rs_a).len() && 0 <= j < ready_values(rs_b).len() ==> cloned(
                history[positions_a[0] - 1 + j],
                #[trigger] ready_values(rs_a)[j],
            ) && cloned(history[positions_a[0] - 1 + j], #[trigger] ready_values(rs_b)[j]),
{
    lemma_reads_deliver_in_order(before_a, after_a, positions_a, rs_a, history);
    lemma_reads_deliver_in_order(before_b, after_b, positions_b, rs_b, history);
}

/// A write waits only for a live reader that has yet to read the value it
/// would displace: while every live reader is fewer than `capacity()` values
/// behind the next id, a write is accepted, appending its value, so that
/// `capacity()` values can be written ahead of the slowest reader.  A write
/// that waits hands its value back and leaves the values written as they
/// were.
pub proof fn lemma_write_waits_only_for_slowest_reader<T>(
    o: MpmcCircularBuffer<T>,
    n: MpmcCircularBuffer<T>,
    waker: Option<u64>,
    value: T,
    r: TryWrite<T>,
    woken_o: Seq<u64>,
    woken_n: Seq<u64>,
)
    requires
        o.wf(),
        wrote(o, n, waker, value, r, woken_o, woken_n),
    ensures
        (forall|p: int| #[trigger] o.positions().contains(p) ==> o.next_id() < p + o.capacity())
            ==> r == TryWrite::<T>::Ready,
        r is Pending ==> o.positions().contains(o.next_id() - o.capacity()) && r == TryWrite::Pending(
            value,
        ) && n.written() == o.written() && n.next_id() == o.next_id(),
        r is Ready ==> n.written() == o.written().push(value) && n.next_id() == o.next_id() + 1,
{
    if forall|p: int| #[trigger] o.positions().contains(p) ==> o.next_id() < p + o.capacity() {
        if o.positions().contains(o.next_id() - o.capacity()) {
            assert(o.next_id() < (o.next_id() - o.capacity()) + o.capacity());
        }
    }
}

/// A read never waits for a value that has been written: a live reader
/// behind the next id is handed a clone of the value with its position as id
/// and moves on by one; a read waits only when the reader has read every
/// value written, and then the reader stays where it is.
pub proof fn lemma_read_progress<T: Clone>(
    o: MpmcCircularBuffer<T>,
    n: MpmcCircularBuffer<T>,
    p_o: int,
    p_n: int,
    waker: Option<u64>,
    r: TryRead<T>,
    woken_o: Seq<u64>,
    woken_n: Seq<u64>,
)
    requires
        o.wf(),
        o.positions().contains(p_o),
        read_from(o, n, p_o, p_n, waker, r, woken_o, woken_n),
    ensures
        p_o < o.next_id() ==> (r matches TryRead::Ready(v) && cloned(o.written()[p_o - 1], v))
            && p_n == p_o + 1,
        r is Pending ==> p_o == o.next_id() && p_n == p_o,
        1 <= p_o <= o.next_id(),
{
    lemma_readers_within_capacity(o, p_o);
}

} // verus!
