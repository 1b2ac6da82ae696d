pub mod barrier;
pub mod broadcast;
pub mod mpsc;
pub mod oneshot;
pub mod watch;
