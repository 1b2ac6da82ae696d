use postage::sink::PollSend;
use postage::stream::PollRecv;
use postage::watch::channel;
use postage::Context;

#[derive(Clone, Debug, PartialEq, Eq)]
struct State(usize);

impl Default for State {
    fn default() -> Self {
        State(0)
    }
}

const PANIC: u64 = u64::MAX;

fn panic_context() -> Context {
    Context::from_waker(PANIC)
}

fn noop_context() -> Context {
    Context::empty()
}

fn wakes(id: u64, lists: &[&Vec<u64>]) -> usize {
    lists.iter().map(|l| l.iter().filter(|w| **w == id).count()).sum()
}

#[test]
fn watch_send_accepted() {
    let mut cx = noop_context();
    let (mut shared, mut tx, _rx) = channel();

    assert_eq!(PollSend::Ready, tx.poll_send(&mut shared, &mut cx, State(1)));
    assert_eq!(PollSend::Ready, tx.poll_send(&mut shared, &mut cx, State(2)));
}

#[test]
fn watch_send_recv() {
    let mut cx = noop_context();
    let (mut shared, mut tx, mut rx) = channel();

    assert_eq!(PollSend::Ready, tx.poll_send(&mut shared, &mut cx, State(1)));

    assert_eq!(PollRecv::Ready(State(1)), rx.poll_recv(&mut shared, &mut cx));
    assert_eq!(PollRecv::Pending, rx.poll_recv(&mut shared, &mut cx));
}

#[test]
fn recv_default() {
    let mut cx = panic_context();
    let (mut shared, _tx, mut rx) = channel();

    assert_eq!(PollRecv::Ready(State(0)), rx.poll_recv(&mut shared, &mut cx));
    assert_eq!(PollRecv::Pending, rx.poll_recv(&mut shared, &mut noop_context()));
    assert_eq!(0, wakes(PANIC, &[&cx.woken]));
}

#[test]
fn borrow_default() {
    let (shared, _tx, rx) = channel();

    assert_eq!(&State(0), &*rx.borrow(&shared));
}

#[test]
fn borrow_sent() {
    let mut cx = panic_context();
    let (mut shared, mut tx, rx) = channel();

    assert_eq!(PollSend::Ready, tx.poll_send(&mut shared, &mut cx, State(1)));

    assert_eq!(&State(1), &*rx.borrow(&shared));
}

#[test]
fn watch_sender_disconnect() {
    let mut cx = noop_context();
    let mut woken = Vec::new();
    let (mut shared, mut tx, mut rx) = channel();
    let mut rx2 = rx.clone_with(&mut shared);

    assert_eq!(PollSend::Ready, tx.poll_send(&mut shared, &mut cx, State(1)));

    tx.drop_with(&mut shared, &mut woken);

    assert_eq!(PollRecv::Ready(State(1)), rx.poll_recv(&mut shared, &mut cx));
    assert_eq!(PollRecv::Closed, rx.poll_recv(&mut shared, &mut cx));

    assert_eq!(PollRecv::Ready(State(1)), rx2.poll_recv(&mut shared, &mut cx));
    assert_eq!(PollRecv::Closed, rx2.poll_recv(&mut shared, &mut cx));
}

#[test]
fn watch_receiver_disconnect() {
    let mut cx = noop_context();
    let (mut shared, mut tx, rx) = channel();

    rx.drop_with(&mut shared);

    assert_eq!(
        PollSend::Rejected(State(1)),
        tx.poll_send(&mut shared, &mut cx, State(1))
    );
}

#[test]
fn send_then_receiver_disconnect() {
    let mut cx = noop_context();
    let (mut shared, mut tx, rx) = channel();

    assert_eq!(PollSend::Ready, tx.poll_send(&mut shared, &mut cx, State(1)));

    rx.drop_with(&mut shared);

    assert_eq!(
        PollSend::Rejected(State(2)),
        tx.poll_send(&mut shared, &mut cx, State(2))
    );
}

#[test]
fn watch_wake_receiver() {
    let mut cx = panic_context();
    let (mut shared, mut tx, mut rx) = channel();

    let w1: u64 = 1;
    let mut w1_context = Context::from_waker(w1);

    assert_eq!(PollRecv::Ready(State(0)), rx.poll_recv(&mut shared, &mut cx));
    assert_eq!(PollRecv::Pending, rx.poll_recv(&mut shared, &mut w1_context));

    assert_eq!(0, wakes(w1, &[&cx.woken, &w1_context.woken]));

    assert_eq!(PollSend::Ready, tx.poll_send(&mut shared, &mut cx, State(1)));

    assert_eq!(1, wakes(w1, &[&cx.woken, &w1_context.woken]));

    assert_eq!(PollSend::Ready, tx.poll_send(&mut shared, &mut cx, State(2)));

    assert_eq!(1, wakes(w1, &[&cx.woken, &w1_context.woken]));
    assert_eq!(0, wakes(PANIC, &[&cx.woken]));
}

#[test]
fn watch_wake_receiver_on_disconnect() {
    let mut woken = Vec::new();
    let (mut shared, tx, mut rx) = channel::<State>();

    let w1: u64 = 1;
    let mut w1_context = Context::from_waker(w1);

    assert_eq!(PollRecv::Ready(State(0)), rx.poll_recv(&mut shared, &mut panic_context()));
    assert_eq!(PollRecv::Pending, rx.poll_recv(&mut shared, &mut w1_context));

    assert_eq!(0, wakes(w1, &[&w1_context.woken, &woken]));

    tx.drop_with(&mut shared, &mut woken);

    assert_eq!(1, wakes(w1, &[&w1_context.woken, &woken]));
}

#[test]
fn watch_receiver_observes_only_latest() {
    let mut cx = noop_context();
    let (mut shared, mut tx, mut rx) = channel();

    assert_eq!(PollSend::Ready, tx.poll_send(&mut shared, &mut cx, State(1)));
    assert_eq!(PollSend::Ready, tx.poll_send(&mut shared, &mut cx, State(2)));
    assert_eq!(2, shared.extension_mut().generation());
    assert_eq!(PollRecv::Ready(State(2)), rx.poll_recv(&mut shared, &mut cx));
    assert_eq!(PollRecv::Pending, rx.poll_recv(&mut shared, &mut cx));
}
