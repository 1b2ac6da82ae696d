use crate::context::Context;
use vstd::prelude::*;

verus! {

/// The outcome of an attempt at an action: applied, or pending.
pub enum AtomicResult<A, P> {
    Apply(A),
    Pending(P),
}

/// The outcome of checking a pending action again.
pub enum VerifyResult<A> {
    Apply(A),
    Pending,
}

/// An action that is attempted at once, and otherwise checked again with the
/// pending state after the task subscribed to be woken.
pub trait AtomicApply {
    type Apply;
    type Pending;

    fn apply(&self) -> AtomicResult<Self::Apply, Self::Pending>;

    fn verify(&self, pending: Self::Pending, context: &mut Context) -> VerifyResult<Self::Apply>;
}

} // verus!
