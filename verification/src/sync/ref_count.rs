use vstd::prelude::*;

verus! {

/// `a + b`, wrapping around at the bound of `usize`.
pub open spec fn wrapping_sum(a: nat, b: nat) -> nat {
    if a + b > usize::MAX {
        (a + b - (usize::MAX + 1)) as nat
    } else {
        a + b
    }
}

/// A counter of live handles.
#[derive(Debug)]
pub struct RefCount {
    count: usize,
}

/// The outcome of a decrement: whether handles remain.
#[derive(Debug, Clone, Copy, PartialEq, Eq)]
pub enum TryDecrement {
    Alive,
    Dead,
}

impl RefCount {
    /// The number of live handles.
    pub closed spec fn view(&self) -> nat {
        self.count as nat
    }

    pub fn new(count: usize) -> (rc: Self)
        ensures
            rc@ == count,
    {
        Self { count }
    }

    pub fn is_alive(&self) -> (alive: bool)
        ensures
            alive == (self@ > 0),
    {
        self.count > 0
    }

    pub fn load(&self) -> (count: usize)
        ensures
            count == self@,
    {
        self.count
    }

    /// Sets the count to zero and returns what it was.
    pub fn take(&mut self) -> (prev: usize)
        ensures
            prev == old(self)@,
            final(self)@ == 0,
    {
        let prev = self.count;
        self.count = 0;
        prev
    }

    /// Adds `n`, wrapping around at the bound of `usize` as an atomic add does.
    pub fn add(&mut self, n: usize)
        ensures
            final(self)@ == wrapping_sum(old(self)@, n as nat),
    {
        self.count = self.count.wrapping_add(n);
    }

    /// Adds one, wrapping around at the bound of `usize`.
    pub fn increment(&mut self)
        ensures
            final(self)@ == wrapping_sum(old(self)@, 1),
    {
        self.count = self.count.wrapping_add(1);
    }

    /// Removes one handle, unless none remain; says whether any remain.
    pub fn decrement(&mut self) -> (r: TryDecrement)
        ensures
            old(self)@ == 0 ==> final(self)@ == 0 && r == TryDecrement::Dead,
            old(self)@ > 0 ==> final(self)@ == old(self)@ - 1,
            old(self)@ > 0 ==> (r == TryDecrement::Dead <==> old(self)@ == 1),
    {
        let state = self.count;
        if state == 0 {
            return TryDecrement::Dead;
        }
        self.count = state - 1;
        if state == 1 {
            TryDecrement::Dead
        } else {
            TryDecrement::Alive
        }
    }
}

/// Adding one and then removing one leaves the count as it was, below the
/// bound of `usize`.
pub proof fn lemma_increment_then_decrement(n: nat)
    requires
        n < usize::MAX,
    ensures
        wrapping_sum(n, 1) == n + 1,
        wrapping_sum(n, 1) > 0,
{
}

} // verus!
