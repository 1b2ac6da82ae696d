use log::Level;
use postage::stream::repeat::RepeatStream;
use postage::stream::stream_log::StreamLog;
use postage::stream::{PollRecv, Stream};
use postage::Context;

fn ready(value: usize) -> RepeatStream<usize> {
    RepeatStream::new(value)
}

/// A stream that is always pending.
struct PendingStream;

impl Stream for PendingStream {
    type Item = usize;

    fn poll_recv(&mut self, _cx: &mut Context) -> PollRecv<usize> {
        PollRecv::Pending
    }
}

/// A stream that is always closed.
struct ClosedStream;

impl Stream for ClosedStream {
    type Item = usize;

    fn poll_recv(&mut self, _cx: &mut Context) -> PollRecv<usize> {
        PollRecv::Closed
    }
}

fn pending() -> PendingStream {
    PendingStream
}

fn closed() -> ClosedStream {
    ClosedStream
}

#[test]
fn ready_forwarded() {
    let mut repeat = StreamLog::new(ready(1usize), Level::Info);
    let mut cx = Context::empty();

    assert_eq!(PollRecv::Ready(1), repeat.poll_recv(&mut cx));
}

#[test]
fn pending_forwarded() {
    let mut repeat = StreamLog::new(pending(), Level::Info);
    let mut cx = Context::empty();

    assert_eq!(PollRecv::Pending, repeat.poll_recv(&mut cx));
}

#[test]
fn closed_forwarded() {
    let mut repeat = StreamLog::new(closed(), Level::Info);
    let mut cx = Context::empty();

    assert_eq!(PollRecv::Closed, repeat.poll_recv(&mut cx));
}

#[test]
fn stream_log_keeps_level() {
    let repeat = StreamLog::new(ready(3usize), Level::Warn);
    assert_eq!(Level::Warn, repeat.level());
}
