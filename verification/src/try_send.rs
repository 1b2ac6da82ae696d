use crate::sink::Sink;
use vstd::prelude::*;

verus! {

/// A sink, held to be sent into without blocking.
pub struct TrySend<S: Sink> {
    send: S,
}

} // verus!
