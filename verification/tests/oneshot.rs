use postage::oneshot::channel;
use postage::sink::PollSend;
use postage::stream::PollRecv;
use postage::Context;

#[derive(Clone, Debug, PartialEq, Eq)]
struct Message(usize);

const PANIC: u64 = u64::MAX;

fn panic_context() -> Context {
    Context::from_waker(PANIC)
}

fn noop_context() -> Context {
    Context::empty()
}

fn wakes(id: u64, lists: &[&Vec<u64>]) -> usize {
    lists.iter().map(|l| l.iter().filter(|w| **w == id).count()).sum()
}

#[test]
fn oneshot_send_accepted() {
    let mut cx = noop_context();
    let (mut shared, mut tx, _rx) = channel();

    assert_eq!(PollSend::Ready, tx.poll_send(&mut shared, &mut cx, Message(1)));
    assert_eq!(
        PollSend::Rejected(Message(2)),
        tx.poll_send(&mut shared, &mut cx, Message(2))
    );
}

#[test]
fn oneshot_send_recv() {
    let mut cx = noop_context();
    let (mut shared, mut tx, mut rx) = channel();

    assert_eq!(PollSend::Ready, tx.poll_send(&mut shared, &mut cx, Message(1)));

    assert_eq!(PollRecv::Ready(Message(1)), rx.poll_recv(&mut shared, &mut cx));
    assert_eq!(PollRecv::Closed, rx.poll_recv(&mut shared, &mut cx));
}

#[test]
fn oneshot_sender_disconnect() {
    let mut cx = noop_context();
    let mut woken = Vec::new();
    let (mut shared, tx, mut rx) = channel::<Message>();

    tx.drop_with(&mut shared, &mut woken);

    assert_eq!(PollRecv::Closed, rx.poll_recv(&mut shared, &mut cx));
}

#[test]
fn oneshot_send_then_disconnect() {
    let mut cx = noop_context();
    let mut woken = Vec::new();
    let (mut shared, mut tx, mut rx) = channel();

    assert_eq!(PollSend::Ready, tx.poll_send(&mut shared, &mut cx, Message(1)));

    tx.drop_with(&mut shared, &mut woken);

    assert_eq!(PollRecv::Ready(Message(1)), rx.poll_recv(&mut shared, &mut cx));
    assert_eq!(PollRecv::Closed, rx.poll_recv(&mut shared, &mut cx));
}

#[test]
fn oneshot_receiver_disconnect() {
    let mut cx = noop_context();
    let (mut shared, mut tx, rx) = channel();

    rx.drop_with(&mut shared);

    assert_eq!(
        PollSend::Rejected(Message(1)),
        tx.poll_send(&mut shared, &mut cx, Message(1))
    );
}

#[test]
fn oneshot_wake_receiver() {
    let mut cx = panic_context();
    let (mut shared, mut tx, mut rx) = channel();

    let w1: u64 = 1;
    let mut w1_context = Context::from_waker(w1);

    assert_eq!(PollRecv::Pending, rx.poll_recv(&mut shared, &mut w1_context));

    assert_eq!(0, wakes(w1, &[&cx.woken, &w1_context.woken]));

    assert_eq!(PollSend::Ready, tx.poll_send(&mut shared, &mut cx, Message(1)));

    assert_eq!(1, wakes(w1, &[&cx.woken, &w1_context.woken]));

    assert_eq!(
        PollSend::Rejected(Message(2)),
        tx.poll_send(&mut shared, &mut cx, Message(2))
    );

    assert_eq!(1, wakes(w1, &[&cx.woken, &w1_context.woken]));
    assert_eq!(0, wakes(PANIC, &[&cx.woken]));
}

#[test]
fn oneshot_sender_disconnect_wakes_receiver() {
    let mut woken = Vec::new();
    let (mut shared, tx, mut rx) = channel::<Message>();
    let mut w1_context = Context::from_waker(1);

    assert_eq!(PollRecv::Pending, rx.poll_recv(&mut shared, &mut w1_context));
    tx.drop_with(&mut shared, &mut woken);
    assert_eq!(vec![1u64], woken);
    assert_eq!(PollRecv::Closed, rx.poll_recv(&mut shared, &mut w1_context));
}
