use vstd::prelude::*;

verus! {

/// Why a stream produced no item at once.
#[derive(Debug, Clone, Copy, PartialEq, Eq)]
pub enum TryRecvError {
    /// The stream may produce an item at a later time
    Pending,
    /// The stream is closed, and will never produce an item
    Rejected,
}

} // verus!
