//! A portable channel library: broadcast, mpsc, oneshot, watch and barrier
//! channels, with stream and sink combinators.
//!
//! Every channel is modelled as explicit state owned by the caller; the
//! endpoints act on that state, and the tasks that must be woken are handed
//! back as waker ids through the `Context`.

pub mod channels;
pub mod context;
pub mod logging;
pub mod sink;
pub mod stream;
pub mod sync;
pub mod try_recv;
pub mod try_send;

pub use context::Context;
pub use channels::barrier;
pub use channels::broadcast;
pub use channels::mpsc;
pub use channels::oneshot;
pub use channels::watch;
