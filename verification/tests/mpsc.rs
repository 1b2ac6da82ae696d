use postage::mpsc::channel;
use postage::sink::PollSend;
use postage::stream::PollRecv;
use postage::Context;

#[test]
fn mpsc_send_recv_in_order() {
    let mut cx = Context::empty();
    let (mut shared, mut tx, mut rx) = channel::<usize>(4);
    assert_eq!(PollRecv::Pending, rx.poll_recv(&mut shared, &mut cx));
    assert_eq!(PollSend::Ready, tx.poll_send(&mut shared, &mut cx, 1));
    assert_eq!(PollSend::Ready, tx.poll_send(&mut shared, &mut cx, 2));
    assert_eq!(PollRecv::Ready(1), rx.poll_recv(&mut shared, &mut cx));
    assert_eq!(PollRecv::Ready(2), rx.poll_recv(&mut shared, &mut cx));
    assert_eq!(PollRecv::Pending, rx.poll_recv(&mut shared, &mut cx));
}

#[test]
fn mpsc_full_channel_blocks_and_wakes_sender() {
    let (mut shared, mut tx, mut rx) = channel::<usize>(1);
    let mut w1 = Context::from_waker(1);
    let mut cx = Context::empty();
    assert_eq!(PollSend::Ready, tx.poll_send(&mut shared, &mut w1, 1));
    assert_eq!(PollSend::Pending(2), tx.poll_send(&mut shared, &mut w1, 2));
    assert_eq!(PollRecv::Ready(1), rx.poll_recv(&mut shared, &mut cx));
    assert_eq!(vec![1u64], cx.take_woken());
    assert_eq!(PollSend::Ready, tx.poll_send(&mut shared, &mut w1, 2));
}

#[test]
fn mpsc_receiver_woken_by_send() {
    let (mut shared, mut tx, mut rx) = channel::<usize>(2);
    let mut w1 = Context::from_waker(1);
    let mut cx = Context::empty();
    assert_eq!(PollRecv::Pending, rx.poll_recv(&mut shared, &mut w1));
    assert_eq!(PollSend::Ready, tx.poll_send(&mut shared, &mut cx, 5));
    assert_eq!(vec![1u64], cx.woken);
}

#[test]
fn mpsc_closed_when_senders_gone() {
    let mut cx = Context::empty();
    let mut woken = Vec::new();
    let (mut shared, tx, mut rx) = channel::<usize>(2);
    let tx2 = tx.clone_with(&mut shared);
    tx.drop_with(&mut shared, &mut woken);
    assert_eq!(PollRecv::Pending, rx.poll_recv(&mut shared, &mut cx));
    tx2.drop_with(&mut shared, &mut woken);
    assert_eq!(PollRecv::Closed, rx.poll_recv(&mut shared, &mut cx));
}

#[test]
fn mpsc_rejected_when_receiver_gone() {
    let mut cx = Context::empty();
    let (mut shared, mut tx, rx) = channel::<usize>(2);
    rx.drop_with(&mut shared);
    assert_eq!(PollSend::Rejected(7), tx.poll_send(&mut shared, &mut cx, 7));
}

#[test]
fn mpsc_delivers_queued_messages_before_closed() {
    let mut cx = Context::empty();
    let mut woken = Vec::new();
    let (mut shared, mut tx, mut rx) = channel::<usize>(4);
    assert_eq!(PollSend::Ready, tx.poll_send(&mut shared, &mut cx, 1));
    tx.drop_with(&mut shared, &mut woken);
    assert_eq!(PollRecv::Ready(1), rx.poll_recv(&mut shared, &mut cx));
    assert_eq!(PollRecv::Closed, rx.poll_recv(&mut shared, &mut cx));
}
