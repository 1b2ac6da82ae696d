use crate::stream::Stream;
use vstd::prelude::*;

verus! {

/// A stream, held to be polled without blocking.
pub struct TryRecv<R: Stream> {
    recv: R,
}

} // verus!
