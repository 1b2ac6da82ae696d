use log::Level;
use postage::sink::chain::SinkChain;
use postage::sink::filter::SinkFilter;
use postage::sink::sink_log::SinkLog;
use postage::sink::{PollSend, Sink, TrySendError};
use postage::Context;

/// A sink that accepts up to `capacity` messages and then rejects them.
struct Bounded {
    accepted: Vec<usize>,
    capacity: usize,
}

impl Sink for Bounded {
    type Item = usize;

    fn poll_send(&mut self, _cx: &mut Context, value: usize) -> PollSend<usize> {
        if self.accepted.len() < self.capacity {
            self.accepted.push(value);
            PollSend::Ready
        } else {
            PollSend::Rejected(value)
        }
    }
}

/// A sink that is always pending.
struct Busy;

impl Sink for Busy {
    type Item = usize;

    fn poll_send(&mut self, _cx: &mut Context, value: usize) -> PollSend<usize> {
        PollSend::Pending(value)
    }
}

#[test]
fn chain_sends_left_then_right_then_rejects() {
    let left = Bounded { accepted: vec![], capacity: 1 };
    let right = Bounded { accepted: vec![], capacity: 1 };
    let mut s = SinkChain::new(left, right);
    let mut cx = Context::empty();
    assert_eq!(PollSend::Ready, s.poll_send(&mut cx, 1));
    assert_eq!(PollSend::Ready, s.poll_send(&mut cx, 2));
    assert_eq!(PollSend::Rejected(3), s.poll_send(&mut cx, 3));
    assert_eq!(PollSend::Rejected(4), s.poll_send(&mut cx, 4));
}

#[test]
fn filter_drops_rejected_messages() {
    let target = Bounded { accepted: vec![], capacity: 1 };
    let mut s = SinkFilter::new(|v: &usize| *v > 5, target);
    let mut cx = Context::empty();
    assert_eq!(PollSend::Ready, s.poll_send(&mut cx, 1));
    assert_eq!(PollSend::Ready, s.poll_send(&mut cx, 7));
    assert_eq!(PollSend::Rejected(8), s.poll_send(&mut cx, 8));
    assert_eq!(PollSend::Ready, s.poll_send(&mut cx, 2));
}

#[test]
fn try_send_errors() {
    let mut busy = Busy;
    assert_eq!(Err(TrySendError::Pending(1)), busy.try_send(1));
    let mut full = Bounded { accepted: vec![], capacity: 0 };
    assert_eq!(Err(TrySendError::Rejected(2)), full.try_send(2));
    let mut open = Bounded { accepted: vec![], capacity: 1 };
    assert_eq!(Ok(()), open.try_send(3));
}

#[test]
fn sink_log_forwards() {
    let mut s = SinkLog::new(Bounded { accepted: vec![], capacity: 1 }, Level::Debug);
    let mut cx = Context::empty();
    assert_eq!(Level::Debug, s.level());
    assert_eq!(PollSend::Ready, s.poll_send(&mut cx, 1));
    assert_eq!(PollSend::Rejected(2), s.poll_send(&mut cx, 2));
}

#[test]
fn sink_methods_build_combinators() {
    let mut cx = Context::empty();
    let first = Bounded { accepted: vec![], capacity: 1 };
    let second = Bounded { accepted: vec![], capacity: 1 };
    let mut chained = second.after(first);
    assert_eq!(PollSend::Ready, chained.poll_send(&mut cx, 1));
    assert_eq!(PollSend::Ready, chained.poll_send(&mut cx, 2));
    assert_eq!(PollSend::Rejected(3), chained.poll_send(&mut cx, 3));
    let mut filtered = Bounded { accepted: vec![], capacity: 1 }.filter(|v: &usize| *v > 5);
    assert_eq!(PollSend::Ready, filtered.poll_send(&mut cx, 1));
    assert_eq!(PollSend::Ready, filtered.poll_send(&mut cx, 6));
    assert_eq!(PollSend::Rejected(7), filtered.poll_send(&mut cx, 7));
    let mut logged = Bounded { accepted: vec![], capacity: 1 }.log(Level::Warn);
    assert_eq!(Level::Warn, logged.level());
    assert_eq!(PollSend::Ready, logged.poll_send(&mut cx, 1));
    assert_eq!(PollSend::Rejected(2), logged.poll_send(&mut cx, 2));
}
