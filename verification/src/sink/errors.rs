use vstd::prelude::*;

verus! {

/// A message that a sink rejected.
#[derive(Debug, Clone, PartialEq, Eq)]
pub struct SendError<T>(pub T);

/// A message that a sink did not accept at once.
#[derive(Debug, Clone, PartialEq, Eq)]
pub enum TrySendError<T> {
    /// The sink could accept the message later
    Pending(T),
    /// The sink is closed, and will never accept the message
    Rejected(T),
}

} // verus!
