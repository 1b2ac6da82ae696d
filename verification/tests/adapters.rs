use postage::barrier;
use postage::broadcast;
use postage::mpsc;
use postage::oneshot;
use postage::sink::{PollSend, Sink};
use postage::stream::{PollRecv, Stream};
use postage::watch;
use postage::Context;

#[test]
fn chained_oneshot_senders_fill_in_turn() {
    let mut cx = Context::empty();
    let (mut s1, mut tx1, mut rx1) = oneshot::channel::<usize>();
    let (mut s2, mut tx2, mut rx2) = oneshot::channel::<usize>();
    {
        let first = oneshot::SenderSink::new(&mut tx1, &mut s1);
        let second = oneshot::SenderSink::new(&mut tx2, &mut s2);
        let mut chain = second.after(first);
        assert_eq!(PollSend::Ready, chain.poll_send(&mut cx, 1));
        assert_eq!(PollSend::Ready, chain.poll_send(&mut cx, 2));
        assert_eq!(PollSend::Rejected(3), chain.poll_send(&mut cx, 3));
    }
    assert_eq!(PollRecv::Ready(1), rx1.poll_recv(&mut s1, &mut cx));
    assert_eq!(PollRecv::Ready(2), rx2.poll_recv(&mut s2, &mut cx));
}

#[test]
fn oneshot_receiver_stream_maps_value() {
    let mut cx = Context::empty();
    let (mut shared, mut tx, mut rx) = oneshot::channel::<usize>();
    assert_eq!(PollSend::Ready, tx.poll_send(&mut shared, &mut cx, 4));
    let mut mapped = oneshot::ReceiverStream::new(&mut rx, &mut shared).map(|v: usize| v * 3);
    assert_eq!(PollRecv::Ready(12), mapped.poll_recv(&mut cx));
    assert_eq!(PollRecv::Closed, mapped.poll_recv(&mut cx));
}

#[test]
fn mpsc_adapters_send_and_filter() {
    let mut cx = Context::empty();
    let (mut shared, mut tx, mut rx) = mpsc::channel::<usize>(4);
    {
        let mut sink = mpsc::SenderSink::new(&mut tx, &mut shared);
        for v in 1..=4 {
            assert_eq!(PollSend::Ready, sink.poll_send(&mut cx, v));
        }
        assert_eq!(PollSend::Pending(5), sink.poll_send(&mut cx, 5));
    }
    let mut even = mpsc::ReceiverStream::new(&mut rx, &mut shared).filter(|v: &usize| *v % 2 == 0);
    assert_eq!(PollRecv::Ready(2), even.poll_recv(&mut cx));
    assert_eq!(PollRecv::Ready(4), even.poll_recv(&mut cx));
    assert_eq!(PollRecv::Pending, even.poll_recv(&mut cx));
}

#[test]
fn barrier_adapters_pass_once() {
    let mut cx = Context::empty();
    let (mut shared, mut tx, mut rx) = barrier::channel();
    {
        let mut stream = barrier::ReceiverStream::new(&mut rx, &mut shared);
        assert_eq!(PollRecv::Pending, stream.poll_recv(&mut cx));
    }
    {
        let mut sink = barrier::SenderSink::new(&mut tx, &mut shared);
        assert_eq!(PollSend::Ready, sink.poll_send(&mut cx, ()));
        assert_eq!(PollSend::Rejected(()), sink.poll_send(&mut cx, ()));
    }
    let mut stream = barrier::ReceiverStream::new(&mut rx, &mut shared);
    assert_eq!(PollRecv::Ready(()), stream.poll_recv(&mut cx));
}

#[test]
fn watch_sender_sink_stores_latest() {
    let mut cx = Context::empty();
    let (mut shared, mut tx, mut rx) = watch::channel::<usize>();
    {
        let mut sink = watch::SenderSink::new(&mut tx, &mut shared);
        assert_eq!(PollSend::Ready, sink.poll_send(&mut cx, 8));
        assert_eq!(PollSend::Ready, sink.poll_send(&mut cx, 9));
    }
    assert_eq!(PollRecv::Ready(9), rx.poll_recv(&mut shared, &mut cx));
}

#[test]
fn broadcast_receiver_stream_reads_in_order() {
    let mut cx = Context::empty();
    let (mut shared, mut tx, mut rx) = broadcast::channel::<usize>(4);
    assert_eq!(PollSend::Ready, tx.poll_send(&mut shared, &mut cx, 1));
    assert_eq!(PollSend::Ready, tx.poll_send(&mut shared, &mut cx, 2));
    let mut stream = broadcast::ReceiverStream::new(&mut rx, &mut shared);
    assert_eq!(PollRecv::Ready(1), stream.poll_recv(&mut cx));
    assert_eq!(PollRecv::Ready(2), stream.poll_recv(&mut cx));
    assert_eq!(PollRecv::Pending, stream.poll_recv(&mut cx));
}
