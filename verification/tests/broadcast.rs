use postage::broadcast::channel;
use postage::sink::PollSend;
use postage::stream::PollRecv;
use postage::Context;

#[derive(Clone, Debug, PartialEq, Eq)]
struct Message(usize);

/// The waker of a context whose task must never be woken.
const PANIC: u64 = u64::MAX;

fn panic_context() -> Context {
    Context::from_waker(PANIC)
}

fn noop_context() -> Context {
    Context::empty()
}

/// How often the task `id` appears among the woken tasks.
fn wakes(id: u64, lists: &[&Vec<u64>]) -> usize {
    lists.iter().map(|l| l.iter().filter(|w| **w == id).count()).sum()
}

#[test]
fn broadcast_send_accepted() {
    let mut cx = panic_context();
    let (mut shared, mut tx, _rx) = channel(2);

    assert_eq!(PollSend::Ready, tx.poll_send(&mut shared, &mut cx, Message(1)));
    assert_eq!(0, wakes(PANIC, &[&cx.woken]));
}

#[test]
fn full_send_blocks() {
    let mut cx = panic_context();
    let (mut shared, mut tx, _rx) = channel(2);

    assert_eq!(PollSend::Ready, tx.poll_send(&mut shared, &mut cx, Message(1)));
    assert_eq!(PollSend::Ready, tx.poll_send(&mut shared, &mut cx, Message(2)));
    assert_eq!(
        PollSend::Pending(Message(3)),
        tx.poll_send(&mut shared, &mut noop_context(), Message(3))
    );
    assert_eq!(0, wakes(PANIC, &[&cx.woken]));
}

#[test]
fn empty_send_recv() {
    let mut cx = noop_context();
    let (mut shared, mut tx, mut rx) = channel(0);

    assert_eq!(PollSend::Ready, tx.poll_send(&mut shared, &mut cx, Message(1)));
    assert_eq!(PollRecv::Ready(Message(1)), rx.poll_recv(&mut shared, &mut cx));
}

#[test]
fn broadcast_send_recv() {
    let mut cx = noop_context();
    let (mut shared, mut tx, mut rx) = channel(2);

    assert_eq!(PollSend::Ready, tx.poll_send(&mut shared, &mut cx, Message(1)));
    assert_eq!(PollRecv::Ready(Message(1)), rx.poll_recv(&mut shared, &mut cx));
}

#[test]
fn sender_subscribe_same_read() {
    let mut cx = noop_context();
    let mut woken = Vec::new();
    let (mut shared, mut tx, mut rx) = channel(2);

    assert_eq!(PollSend::Ready, tx.poll_send(&mut shared, &mut cx, Message(1)));
    assert_eq!(PollRecv::Ready(Message(1)), rx.poll_recv(&mut shared, &mut cx));

    let mut rx2 = tx.subscribe(&mut shared, &mut woken);
    assert_eq!(PollRecv::Pending, rx2.poll_recv(&mut shared, &mut cx));
    assert_eq!(PollSend::Ready, tx.poll_send(&mut shared, &mut cx, Message(2)));
    assert_eq!(PollRecv::Ready(Message(2)), rx2.poll_recv(&mut shared, &mut cx));
}

#[test]
fn sender_subscribe_different_read() {
    let mut cx = noop_context();
    let mut woken = Vec::new();
    let (mut shared, mut tx, _rx) = channel(2);

    assert_eq!(PollSend::Ready, tx.poll_send(&mut shared, &mut cx, Message(1)));

    let mut rx2 = tx.subscribe(&mut shared, &mut woken);
    assert_eq!(PollRecv::Pending, rx2.poll_recv(&mut shared, &mut cx));
    assert_eq!(PollSend::Ready, tx.poll_send(&mut shared, &mut cx, Message(2)));
    assert_eq!(PollRecv::Ready(Message(2)), rx2.poll_recv(&mut shared, &mut cx));
}

#[test]
fn two_senders_recv() {
    let mut cx = panic_context();
    let (mut shared, mut tx, mut rx) = channel(2);
    let mut tx2 = tx.clone_with(&mut shared);

    assert_eq!(PollSend::Ready, tx.poll_send(&mut shared, &mut cx, Message(1)));
    assert_eq!(PollSend::Ready, tx2.poll_send(&mut shared, &mut cx, Message(2)));

    assert_eq!(
        PollSend::Pending(Message(3)),
        tx.poll_send(&mut shared, &mut noop_context(), Message(3))
    );
    assert_eq!(
        PollSend::Pending(Message(3)),
        tx2.poll_send(&mut shared, &mut noop_context(), Message(3))
    );

    assert_eq!(PollRecv::Ready(Message(1)), rx.poll_recv(&mut shared, &mut cx));
    assert_eq!(PollRecv::Ready(Message(2)), rx.poll_recv(&mut shared, &mut cx));

    assert_eq!(PollRecv::Pending, rx.poll_recv(&mut shared, &mut noop_context()));
    assert_eq!(0, wakes(PANIC, &[&cx.woken]));
}

#[test]
fn two_receivers() {
    let mut cx = panic_context();
    let mut woken = Vec::new();
    let (mut shared, mut tx, mut rx) = channel(2);
    let mut rx2 = rx.clone_with(&mut shared, &mut woken);

    assert_eq!(PollSend::Ready, tx.poll_send(&mut shared, &mut cx, Message(1)));
    assert_eq!(PollSend::Ready, tx.poll_send(&mut shared, &mut cx, Message(2)));
    assert_eq!(
        PollSend::Pending(Message(3)),
        tx.poll_send(&mut shared, &mut noop_context(), Message(3))
    );

    assert_eq!(PollRecv::Ready(Message(1)), rx.poll_recv(&mut shared, &mut cx));
    assert_eq!(PollRecv::Ready(Message(2)), rx.poll_recv(&mut shared, &mut cx));
    assert_eq!(PollRecv::Pending, rx.poll_recv(&mut shared, &mut noop_context()));

    assert_eq!(PollRecv::Ready(Message(1)), rx2.poll_recv(&mut shared, &mut cx));
    assert_eq!(PollRecv::Ready(Message(2)), rx2.poll_recv(&mut shared, &mut cx));
    assert_eq!(PollRecv::Pending, rx2.poll_recv(&mut shared, &mut noop_context()));
    assert_eq!(0, wakes(PANIC, &[&cx.woken, &woken]));
}

#[test]
fn broadcast_sender_disconnect() {
    let mut cx = panic_context();
    let mut woken = Vec::new();
    let (mut shared, mut tx, mut rx) = channel(100);
    let mut tx2 = tx.clone_with(&mut shared);

    assert_eq!(PollSend::Ready, tx.poll_send(&mut shared, &mut cx, Message(1)));
    assert_eq!(PollSend::Ready, tx2.poll_send(&mut shared, &mut cx, Message(2)));
    tx.drop_with(&mut shared, &mut woken);
    tx2.drop_with(&mut shared, &mut woken);
    assert_eq!(PollRecv::Ready(Message(1)), rx.poll_recv(&mut shared, &mut cx));
    assert_eq!(PollRecv::Ready(Message(2)), rx.poll_recv(&mut shared, &mut cx));
    assert_eq!(PollRecv::Closed, rx.poll_recv(&mut shared, &mut cx));
    assert_eq!(0, wakes(PANIC, &[&cx.woken, &woken]));
}

#[test]
fn broadcast_receiver_disconnect() {
    let mut cx = panic_context();
    let mut woken = Vec::new();
    let (mut shared, mut tx, rx) = channel(100);
    let rx2 = rx.clone_with(&mut shared, &mut woken);

    assert_eq!(PollSend::Ready, tx.poll_send(&mut shared, &mut cx, Message(1)));
    rx.drop_with(&mut shared, &mut woken);
    rx2.drop_with(&mut shared, &mut woken);
    assert_eq!(
        PollSend::Rejected(Message(2)),
        tx.poll_send(&mut shared, &mut cx, Message(2))
    );
    assert_eq!(0, wakes(PANIC, &[&cx.woken, &woken]));
}

#[test]
fn wake_sender() {
    let mut cx = panic_context();
    let (mut shared, mut tx, mut rx) = channel(2);

    assert_eq!(PollSend::Ready, tx.poll_send(&mut shared, &mut cx, Message(1)));

    let w2: u64 = 2;
    let mut w2_context = Context::from_waker(w2);
    assert_eq!(PollSend::Ready, tx.poll_send(&mut shared, &mut cx, Message(2)));
    assert_eq!(
        PollSend::Pending(Message(3)),
        tx.poll_send(&mut shared, &mut w2_context, Message(3))
    );

    assert_eq!(0, wakes(w2, &[&cx.woken, &w2_context.woken]));

    assert_eq!(PollRecv::Ready(Message(1)), rx.poll_recv(&mut shared, &mut cx));
    assert_eq!(PollRecv::Ready(Message(2)), rx.poll_recv(&mut shared, &mut cx));

    assert_eq!(1, wakes(w2, &[&cx.woken, &w2_context.woken]));
    let mut noop = noop_context();
    assert_eq!(PollRecv::Pending, rx.poll_recv(&mut shared, &mut noop));

    assert_eq!(1, wakes(w2, &[&cx.woken, &w2_context.woken, &noop.woken]));
    assert_eq!(0, wakes(PANIC, &[&cx.woken]));
}

#[test]
fn broadcast_wake_receiver() {
    let mut cx = panic_context();
    let (mut shared, mut tx, mut rx) = channel(100);

    let w1: u64 = 1;
    let mut w1_context = Context::from_waker(w1);

    assert_eq!(PollRecv::Pending, rx.poll_recv(&mut shared, &mut w1_context));
    assert_eq!(0, wakes(w1, &[&cx.woken, &w1_context.woken]));

    assert_eq!(PollSend::Ready, tx.poll_send(&mut shared, &mut cx, Message(1)));
    assert_eq!(1, wakes(w1, &[&cx.woken, &w1_context.woken]));

    assert_eq!(PollSend::Ready, tx.poll_send(&mut shared, &mut cx, Message(2)));
    assert_eq!(1, wakes(w1, &[&cx.woken, &w1_context.woken]));
    assert_eq!(0, wakes(PANIC, &[&cx.woken]));
}

#[test]
fn dropping_receiver_does_not_block() {
    let mut cx = panic_context();
    let mut woken = Vec::new();
    let (mut shared, mut tx, mut rx) = channel(2);
    let rx2 = rx.clone_with(&mut shared, &mut woken);

    assert_eq!(PollSend::Ready, tx.poll_send(&mut shared, &mut cx, Message(1)));
    assert_eq!(PollSend::Ready, tx.poll_send(&mut shared, &mut cx, Message(2)));

    rx2.drop_with(&mut shared, &mut woken);
    assert_eq!(
        PollSend::Pending(Message(2)),
        tx.poll_send(&mut shared, &mut noop_context(), Message(2))
    );

    assert_eq!(PollRecv::Ready(Message(1)), rx.poll_recv(&mut shared, &mut cx));
    assert_eq!(PollSend::Ready, tx.poll_send(&mut shared, &mut cx, Message(4)));
    assert_eq!(0, wakes(PANIC, &[&cx.woken, &woken]));
}

#[test]
fn drop_receiver_frees_slot() {
    let mut cx = panic_context();
    let mut woken = Vec::new();
    let (mut shared, mut tx, mut rx) = channel(2);
    let rx2 = rx.clone_with(&mut shared, &mut woken);

    assert_eq!(PollSend::Ready, tx.poll_send(&mut shared, &mut cx, Message(1)));
    assert_eq!(PollSend::Ready, tx.poll_send(&mut shared, &mut cx, Message(2)));
    assert_eq!(PollRecv::Ready(Message(1)), rx.poll_recv(&mut shared, &mut cx));

    rx2.drop_with(&mut shared, &mut woken);

    assert_eq!(PollSend::Ready, tx.poll_send(&mut shared, &mut cx, Message(3)));
    assert_eq!(0, wakes(PANIC, &[&cx.woken, &woken]));
}

#[test]
fn wake_sender_on_disconnect() {
    let mut woken = Vec::new();
    let (mut shared, mut tx, rx) = channel(2);

    let w1: u64 = 1;
    let mut w1_context = Context::from_waker(w1);

    assert_eq!(PollSend::Ready, tx.poll_send(&mut shared, &mut w1_context, Message(1)));
    assert_eq!(PollSend::Ready, tx.poll_send(&mut shared, &mut w1_context, Message(2)));
    assert_eq!(
        PollSend::Pending(Message(3)),
        tx.poll_send(&mut shared, &mut w1_context, Message(3))
    );

    assert_eq!(0, wakes(w1, &[&w1_context.woken, &woken]));

    rx.drop_with(&mut shared, &mut woken);

    assert_eq!(1, wakes(w1, &[&w1_context.woken, &woken]));
}

#[test]
fn broadcast_wake_receiver_on_disconnect() {
    let mut woken = Vec::new();
    let (mut shared, tx, mut rx) = channel::<()>(100);

    let w1: u64 = 1;
    let mut w1_context = Context::from_waker(w1);

    assert_eq!(PollRecv::Pending, rx.poll_recv(&mut shared, &mut w1_context));
    assert_eq!(0, wakes(w1, &[&w1_context.woken, &woken]));

    tx.drop_with(&mut shared, &mut woken);

    assert_eq!(1, wakes(w1, &[&w1_context.woken, &woken]));
}

#[test]
fn reader_bounds_bug() {
    let mut cx = noop_context();
    let (mut shared, mut tx, mut rx) = channel(2);

    assert_eq!(PollSend::Ready, tx.poll_send(&mut shared, &mut cx, Message(1)));
    assert_eq!(PollRecv::Ready(Message(1)), rx.poll_recv(&mut shared, &mut cx));

    assert_eq!(PollSend::Ready, tx.poll_send(&mut shared, &mut cx, Message(2)));
    assert_eq!(PollRecv::Ready(Message(2)), rx.poll_recv(&mut shared, &mut cx));
}

#[test]
fn drop_subscribe_bug() {
    let mut cx = noop_context();
    let mut woken = Vec::new();
    let (mut shared, mut tx, rx) = channel(2);

    rx.drop_with(&mut shared, &mut woken);
    let mut rx2 = tx.subscribe(&mut shared, &mut woken);

    assert_eq!(PollSend::Ready, tx.poll_send(&mut shared, &mut cx, Message(1)));
    assert_eq!(PollRecv::Ready(Message(1)), rx2.poll_recv(&mut shared, &mut cx));
}

#[test]
fn skips_intermediate_bug() {
    let mut cx = noop_context();
    let mut woken = Vec::new();
    let (mut shared, mut tx, rx) = channel(2);

    rx.drop_with(&mut shared, &mut woken);
    let mut rx2 = tx.subscribe(&mut shared, &mut woken);

    assert_eq!(PollSend::Ready, tx.poll_send(&mut shared, &mut cx, Message(1)));
    assert_eq!(PollSend::Ready, tx.poll_send(&mut shared, &mut cx, Message(2)));
    assert_eq!(PollRecv::Ready(Message(1)), rx2.poll_recv(&mut shared, &mut cx));
}

#[test]
fn drop_subscribe_ignores_queued() {
    let mut cx = noop_context();
    let mut woken = Vec::new();
    let (mut shared, mut tx, rx) = channel(2);

    assert_eq!(PollSend::Ready, tx.poll_send(&mut shared, &mut cx, Message(1)));

    rx.drop_with(&mut shared, &mut woken);
    let mut rx2 = tx.subscribe(&mut shared, &mut woken);

    assert_eq!(PollSend::Ready, tx.poll_send(&mut shared, &mut cx, Message(2)));
    assert_eq!(PollRecv::Ready(Message(2)), rx2.poll_recv(&mut shared, &mut cx));
}

// Scenarios of the buffer's own promises.

#[test]
fn each_receiver_sees_every_message_in_order() {
    let mut cx = noop_context();
    let mut woken = Vec::new();
    let (mut shared, mut tx, mut rx) = channel(3);
    let mut rx2 = rx.clone_with(&mut shared, &mut woken);
    for i in 0..3 {
        assert_eq!(PollSend::Ready, tx.poll_send(&mut shared, &mut cx, Message(i)));
    }
    for i in 0..3 {
        assert_eq!(PollRecv::Ready(Message(i)), rx.poll_recv(&mut shared, &mut cx));
    }
    assert_eq!(PollRecv::Pending, rx.poll_recv(&mut shared, &mut cx));
    for i in 0..3 {
        assert_eq!(PollRecv::Ready(Message(i)), rx2.poll_recv(&mut shared, &mut cx));
    }
    assert_eq!(PollRecv::Pending, rx2.poll_recv(&mut shared, &mut cx));
}

#[test]
fn lagging_receiver_holds_back_sender() {
    let mut cx = noop_context();
    let (mut shared, mut tx, mut rx) = channel(2);
    assert_eq!(PollSend::Ready, tx.poll_send(&mut shared, &mut cx, Message(1)));
    assert_eq!(PollSend::Ready, tx.poll_send(&mut shared, &mut cx, Message(2)));
    assert_eq!(PollSend::Pending(Message(3)), tx.poll_send(&mut shared, &mut cx, Message(3)));
    assert_eq!(PollRecv::Ready(Message(1)), rx.poll_recv(&mut shared, &mut cx));
    assert_eq!(PollSend::Ready, tx.poll_send(&mut shared, &mut cx, Message(3)));
    assert_eq!(PollSend::Pending(Message(4)), tx.poll_send(&mut shared, &mut cx, Message(4)));
    assert_eq!(PollRecv::Ready(Message(2)), rx.poll_recv(&mut shared, &mut cx));
    assert_eq!(PollRecv::Ready(Message(3)), rx.poll_recv(&mut shared, &mut cx));
}

#[test]
fn sender_without_receivers_is_rejected_not_blocked() {
    let mut cx = noop_context();
    let mut woken = Vec::new();
    let (mut shared, mut tx, rx) = channel(2);
    rx.drop_with(&mut shared, &mut woken);
    assert_eq!(PollSend::Rejected(Message(1)), tx.poll_send(&mut shared, &mut cx, Message(1)));
}
