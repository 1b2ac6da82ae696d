use postage::barrier::channel;
use postage::sink::PollSend;
use postage::stream::PollRecv;
use postage::Context;

const PANIC: u64 = u64::MAX;

fn panic_context() -> Context {
    Context::from_waker(PANIC)
}

fn noop_context() -> Context {
    Context::empty()
}

fn wakes(id: u64, lists: &[&Vec<u64>]) -> usize {
    lists.iter().map(|l| l.iter().filter(|w| **w == id).count()).sum()
}

#[test]
fn barrier_send_accepted() {
    let mut cx = noop_context();
    let (mut shared, mut tx, _rx) = channel();

    assert_eq!(PollSend::Ready, tx.poll_send(&mut shared, &mut cx, ()));
    assert_eq!(PollSend::Rejected(()), tx.poll_send(&mut shared, &mut cx, ()));
}

#[test]
fn barrier_send_recv() {
    let mut cx = noop_context();
    let (mut shared, mut tx, mut rx) = channel();

    assert_eq!(PollSend::Ready, tx.poll_send(&mut shared, &mut cx, ()));

    assert_eq!(PollRecv::Ready(()), rx.poll_recv(&mut shared, &mut cx));
    assert_eq!(PollRecv::Ready(()), rx.poll_recv(&mut shared, &mut cx));
}

#[test]
fn barrier_sender_disconnect() {
    let mut cx = noop_context();
    let mut woken = Vec::new();
    let (mut shared, tx, mut rx) = channel();

    tx.drop_with(&mut shared, &mut woken);

    assert_eq!(PollRecv::Ready(()), rx.poll_recv(&mut shared, &mut cx));
}

#[test]
fn barrier_send_then_disconnect() {
    let mut cx = noop_context();
    let mut woken = Vec::new();
    let (mut shared, mut tx, mut rx) = channel();

    assert_eq!(PollSend::Ready, tx.poll_send(&mut shared, &mut cx, ()));

    tx.drop_with(&mut shared, &mut woken);

    assert_eq!(PollRecv::Ready(()), rx.poll_recv(&mut shared, &mut cx));
    assert_eq!(PollRecv::Ready(()), rx.poll_recv(&mut shared, &mut cx));
}

#[test]
fn barrier_receiver_disconnect() {
    let mut cx = noop_context();
    let (mut shared, mut tx, rx) = channel();

    drop(rx);

    assert_eq!(PollSend::Ready, tx.poll_send(&mut shared, &mut cx, ()));
}

#[test]
fn receiver_clone() {
    let mut cx = noop_context();
    let (mut shared, mut tx, mut rx) = channel();
    let mut rx2 = rx.clone();

    assert_eq!(PollSend::Ready, tx.poll_send(&mut shared, &mut cx, ()));

    assert_eq!(PollRecv::Ready(()), rx.poll_recv(&mut shared, &mut cx));
    assert_eq!(PollRecv::Ready(()), rx2.poll_recv(&mut shared, &mut cx));
}

#[test]
fn receiver_send_then_clone() {
    let mut cx = noop_context();
    let (mut shared, mut tx, mut rx) = channel();

    assert_eq!(PollSend::Ready, tx.poll_send(&mut shared, &mut cx, ()));

    let mut rx2 = rx.clone();

    assert_eq!(PollRecv::Ready(()), rx.poll_recv(&mut shared, &mut cx));
    assert_eq!(PollRecv::Ready(()), rx2.poll_recv(&mut shared, &mut cx));
}

#[test]
fn barrier_wake_receiver() {
    let mut cx = panic_context();
    let (mut shared, mut tx, mut rx) = channel();

    let w: u64 = 1;
    let mut w_context = Context::from_waker(w);

    assert_eq!(PollRecv::Pending, rx.poll_recv(&mut shared, &mut w_context));

    assert_eq!(0, wakes(w, &[&cx.woken, &w_context.woken]));

    assert_eq!(PollSend::Ready, tx.poll_send(&mut shared, &mut cx, ()));

    assert_eq!(1, wakes(w, &[&cx.woken, &w_context.woken]));

    assert_eq!(PollSend::Rejected(()), tx.poll_send(&mut shared, &mut cx, ()));

    assert_eq!(1, wakes(w, &[&cx.woken, &w_context.woken]));
    assert_eq!(0, wakes(PANIC, &[&cx.woken]));
}

#[test]
fn barrier_wake_receiver_on_disconnect() {
    let mut woken = Vec::new();
    let (mut shared, tx, mut rx) = channel();

    let w1: u64 = 1;
    let mut w1_context = Context::from_waker(w1);

    assert_eq!(PollRecv::Pending, rx.poll_recv(&mut shared, &mut w1_context));

    assert_eq!(0, wakes(w1, &[&w1_context.woken, &woken]));

    tx.drop_with(&mut shared, &mut woken);

    assert_eq!(1, wakes(w1, &[&w1_context.woken, &woken]));
}
