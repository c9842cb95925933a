use actor_kernel::actor::uri::{ActorPath, ActorUri};
use actor_kernel::kernel::channel::{
    flume_received, flume_rejected, flume_try_received, flume_try_sent, std_received,
    std_rejected, std_sent, std_try_received, std_try_sent, Backend, Channel, ChannelRecv, Idle,
};
use actor_kernel::kernel::queue::{
    channel_ends, queue, queue_with, EnqueueError, QueueReader, QueueReaderInner, QueueWriter,
};
use actor_kernel::Envelope;
use std::sync::Arc;

fn envelope(n: u32) -> Envelope<u32> {
    Envelope { sender: None, msg: n }
}

fn dequeued(qr: &QueueReader<u32>) -> Option<u32> {
    match qr.try_dequeue() {
        Ok(env) => Some(env.msg),
        Err(_) => None,
    }
}

fn rejected(qw: &QueueWriter<u32>, n: u32) -> Option<u32> {
    match qw.try_enqueue(envelope(n)) {
        Ok(()) => None,
        Err(e) => Some(e.msg.msg),
    }
}

fn is_shareable<T: Send + Sync>() {}

fn is_sendable<T: Send>() {}

#[test]
fn queue_ends_cross_threads() {
    is_shareable::<QueueWriter<u32>>();
    is_shareable::<QueueReader<u32>>();
    is_sendable::<QueueReaderInner<u32>>();
}

#[test]
fn bounded_queue_of_one_rejects_second_message() {
    let (qw, qr) = queue::<u32>(1);
    assert!(qw.try_enqueue(envelope(1)).is_ok());
    assert_eq!(rejected(&qw, 2), Some(2));
    assert_eq!(dequeued(&qr), Some(1));
    assert!(qw.try_enqueue(envelope(3)).is_ok());
    assert_eq!(dequeued(&qr), Some(3));
    assert_eq!(dequeued(&qr), None);
}

#[test]
fn has_msgs_does_not_consume() {
    let (qw, qr) = queue::<u32>(0);
    assert!(!qr.has_msgs());
    assert!(qw.try_enqueue(envelope(7)).is_ok());
    assert!(qr.has_msgs());
    assert!(qr.has_msgs());
    assert_eq!(dequeued(&qr), Some(7));
    assert!(!qr.has_msgs());
}

#[test]
fn messages_come_out_in_the_order_they_went_in() {
    let (qw, qr) = queue::<u32>(0);
    for n in 0..100u32 {
        assert!(qw.try_enqueue(envelope(n)).is_ok());
    }
    for n in 0..100u32 {
        assert_eq!(dequeued(&qr), Some(n));
    }
    assert_eq!(dequeued(&qr), None);
}

#[test]
fn order_survives_checks_between_dequeues() {
    let (qw, qr) = queue::<u32>(0);
    for n in 1..=5u32 {
        assert!(qw.try_enqueue(envelope(n)).is_ok());
    }
    assert!(qr.has_msgs());
    assert_eq!(dequeued(&qr), Some(1));
    assert_eq!(dequeued(&qr), Some(2));
    assert!(qr.has_msgs());
    assert!(qr.has_msgs());
    assert!(qr.has_msgs());
    assert_eq!(dequeued(&qr), Some(3));
    assert!(qr.has_msgs());
    assert!(qw.try_enqueue(envelope(6)).is_ok());
    assert_eq!(dequeued(&qr), Some(4));
    assert_eq!(dequeued(&qr), Some(5));
    assert!(qr.has_msgs());
    assert_eq!(dequeued(&qr), Some(6));
    assert!(!qr.has_msgs());
    assert_eq!(dequeued(&qr), None);
}

#[test]
fn repeated_checks_report_one_message_once() {
    let (qw, qr) = queue::<u32>(0);
    assert!(qw.try_enqueue(envelope(1)).is_ok());
    for _ in 0..10 {
        assert!(qr.has_msgs());
    }
    assert_eq!(dequeued(&qr), Some(1));
    assert!(!qr.has_msgs());
    assert_eq!(dequeued(&qr), None);
}

#[test]
fn bounded_queue_takes_exactly_its_bound() {
    for bound in 1..=4usize {
        let (qw, qr) = queue::<u32>(bound);
        for n in 0..bound {
            assert_eq!(rejected(&qw, n as u32), None);
        }
        assert_eq!(rejected(&qw, 99), Some(99));
        assert_eq!(rejected(&qw, 98), Some(98));
        for n in 0..bound {
            assert_eq!(dequeued(&qr), Some(n as u32));
        }
        assert_eq!(dequeued(&qr), None);
    }
}

#[test]
fn lookahead_frees_a_place_in_a_bounded_queue() {
    let (qw, qr) = queue::<u32>(1);
    assert_eq!(rejected(&qw, 1), None);
    assert_eq!(rejected(&qw, 2), Some(2));
    // the check moves the message from the channel into the lookahead
    assert!(qr.has_msgs());
    assert_eq!(rejected(&qw, 3), None);
    assert_eq!(rejected(&qw, 4), Some(4));
    assert_eq!(dequeued(&qr), Some(1));
    assert_eq!(dequeued(&qr), Some(3));
    assert_eq!(dequeued(&qr), None);
}

#[test]
fn unbounded_queue_takes_many() {
    let (qw, qr) = queue::<u32>(0);
    for n in 0..10_000u32 {
        assert_eq!(rejected(&qw, n), None);
    }
    assert_eq!(dequeued(&qr), Some(0));
}

#[test]
fn rejected_message_comes_back_with_its_sender() {
    let (qw, _qr) = queue::<String>(1);
    let from = ActorUri {
        name: Arc::new("a".to_string()),
        path: ActorPath::new("/user/a"),
        host: Arc::new("localhost".to_string()),
    };
    assert!(qw
        .try_enqueue(Envelope { sender: None, msg: "first".to_string() })
        .is_ok());
    match qw.try_enqueue(Envelope { sender: Some(from), msg: "second".to_string() }) {
        Ok(()) => panic!("a full queue took a message"),
        Err(e) => {
            assert_eq!(e.msg.msg, "second");
            match e.msg.sender {
                Some(uri) => assert_eq!(uri.to_debug_string(), "localhost:///user/a"),
                None => panic!("the sender was lost"),
            }
        }
    }
}

#[test]
fn enqueue_after_the_reader_is_gone_fails_cleanly() {
    let (qw, qr) = queue::<u32>(0);
    drop(qr);
    assert_eq!(rejected(&qw, 5), Some(5));
    let (qw, qr) = queue::<u32>(3);
    drop(qr);
    assert_eq!(rejected(&qw, 6), Some(6));
}

#[test]
fn dequeue_after_the_writers_are_gone_drains_then_fails() {
    let (qw, qr) = queue::<u32>(0);
    assert!(qw.try_enqueue(envelope(1)).is_ok());
    assert!(qw.try_enqueue(envelope(2)).is_ok());
    drop(qw);
    assert!(qr.has_msgs());
    match qr.dequeue() {
        Ok(env) => assert_eq!(env.msg, 1),
        Err(_) => panic!("the queue lost its message"),
    }
    match qr.dequeue() {
        Ok(env) => assert_eq!(env.msg, 2),
        Err(_) => panic!("the queue lost its message"),
    }
    assert!(qr.dequeue().is_err());
    assert!(qr.try_dequeue().is_err());
    assert!(!qr.has_msgs());
}

#[test]
fn blocking_dequeue_returns_the_lookahead_first() {
    let (qw, qr) = queue::<u32>(0);
    assert!(qw.try_enqueue(envelope(1)).is_ok());
    assert!(qw.try_enqueue(envelope(2)).is_ok());
    assert!(qr.has_msgs());
    match qr.dequeue() {
        Ok(env) => assert_eq!(env.msg, 1),
        Err(_) => panic!("the queue lost its message"),
    }
    match qr.dequeue() {
        Ok(env) => assert_eq!(env.msg, 2),
        Err(_) => panic!("the queue lost its message"),
    }
}

#[test]
fn cloned_writers_share_the_queue() {
    let (qw, qr) = queue::<u32>(2);
    let other = qw.clone();
    assert_eq!(rejected(&qw, 1), None);
    assert_eq!(rejected(&other, 2), None);
    assert_eq!(rejected(&qw, 3), Some(3));
    assert_eq!(rejected(&other, 4), Some(4));
    assert_eq!(dequeued(&qr), Some(1));
    assert_eq!(dequeued(&qr), Some(2));
    drop(qw);
    assert_eq!(rejected(&other, 5), None);
    assert_eq!(dequeued(&qr), Some(5));
}

#[test]
fn flume_queue_is_first_in_first_out() {
    let (qw, qr) = queue_with::<u32>(0, Backend::Flume);
    assert!(!qr.has_msgs());
    for n in 0..50u32 {
        assert_eq!(rejected(&qw, n), None);
    }
    assert!(qr.has_msgs());
    assert!(qr.has_msgs());
    for n in 0..50u32 {
        assert_eq!(dequeued(&qr), Some(n));
    }
    assert_eq!(dequeued(&qr), None);
    assert!(!qr.has_msgs());
}

#[test]
fn flume_queue_takes_exactly_its_bound() {
    for bound in 1..=4usize {
        let (qw, qr) = queue_with::<u32>(bound, Backend::Flume);
        for n in 0..bound {
            assert_eq!(rejected(&qw, n as u32), None);
        }
        assert_eq!(rejected(&qw, 99), Some(99));
        assert_eq!(dequeued(&qr), Some(0));
        assert_eq!(rejected(&qw, 100), None);
        assert_eq!(rejected(&qw, 101), Some(101));
    }
}

#[test]
fn flume_queue_fails_cleanly_when_an_end_is_gone() {
    let (qw, qr) = queue_with::<u32>(0, Backend::Flume);
    drop(qr);
    assert_eq!(rejected(&qw, 5), Some(5));
    let (qw, qr) = queue_with::<u32>(2, Backend::Flume);
    assert_eq!(rejected(&qw, 1), None);
    drop(qw);
    match qr.dequeue() {
        Ok(env) => assert_eq!(env.msg, 1),
        Err(_) => panic!("the queue lost its message"),
    }
    assert!(qr.dequeue().is_err());
    assert!(qr.try_dequeue().is_err());
}

#[test]
fn queue_with_std_backend_is_the_plain_queue() {
    let (qw, qr) = queue_with::<u32>(1, Backend::Std);
    assert_eq!(rejected(&qw, 1), None);
    assert_eq!(rejected(&qw, 2), Some(2));
    assert_eq!(dequeued(&qr), Some(1));
}

#[test]
fn channel_ends_pick_the_channel_kind() {
    let (tx, rx) = channel_ends::<u32>(0, Backend::Std);
    assert!(matches!(tx, Channel::Unbounded(_)));
    assert!(matches!(rx, ChannelRecv::Std(_)));
    let (tx, rx) = channel_ends::<u32>(5, Backend::Std);
    assert!(matches!(tx, Channel::Bounded(_)));
    assert!(matches!(rx, ChannelRecv::Std(_)));
    let (tx, rx) = channel_ends::<u32>(0, Backend::Flume);
    assert!(matches!(tx, Channel::Flume(_)));
    assert!(matches!(rx, ChannelRecv::Flume(_)));
    let (tx, rx) = channel_ends::<u32>(5, Backend::Flume);
    assert!(matches!(tx, Channel::Flume(_)));
    assert!(matches!(rx, ChannelRecv::Flume(_)));
}

#[test]
fn channel_says_why_it_is_idle() {
    for backend in [Backend::Std, Backend::Flume] {
        for bound in [0usize, 2] {
            let (tx, rx) = channel_ends::<u32>(bound, backend);
            assert!(matches!(rx.try_recv(), Err(Idle::Empty)));
            assert!(tx.send(1).is_ok());
            assert!(matches!(rx.try_recv(), Ok(1)));
            assert!(matches!(rx.try_recv(), Err(Idle::Empty)));
            assert!(tx.send(2).is_ok());
            drop(tx);
            assert!(matches!(rx.recv(), Ok(2)));
            assert!(matches!(rx.try_recv(), Err(Idle::Disconnected)));
            assert!(matches!(rx.recv(), Err(Idle::Disconnected)));
        }
    }
}

#[test]
fn channel_send_hands_the_message_back() {
    for backend in [Backend::Std, Backend::Flume] {
        let (tx, rx) = channel_ends::<String>(1, backend);
        assert!(tx.send("kept".to_string()).is_ok());
        match tx.send("full".to_string()) {
            Ok(()) => panic!("a full channel took a message"),
            Err(e) => assert_eq!(e.msg, "full"),
        }
        drop(rx);
        match tx.send("closed".to_string()) {
            Ok(()) => panic!("a closed channel took a message"),
            Err(e) => assert_eq!(e.msg, "closed"),
        }
        let (tx, rx) = channel_ends::<String>(0, backend);
        drop(rx);
        match tx.send("closed".to_string()) {
            Ok(()) => panic!("a closed channel took a message"),
            Err(e) => assert_eq!(e.msg, "closed"),
        }
    }
}

#[test]
fn send_errors_fold_into_the_enqueue_error() {
    let e: EnqueueError<u32> = std_rejected(std::sync::mpsc::TrySendError::Full(3));
    assert_eq!(e.msg, 3);
    let e: EnqueueError<u32> = std_rejected(std::sync::mpsc::TrySendError::Disconnected(4));
    assert_eq!(e.msg, 4);
    let e: EnqueueError<u32> = flume_rejected(flume::TrySendError::Full(5));
    assert_eq!(e.msg, 5);
    let e: EnqueueError<u32> = flume_rejected(flume::TrySendError::Disconnected(6));
    assert_eq!(e.msg, 6);
}

#[test]
fn send_results_fold_into_the_enqueue_result() {
    assert!(std_try_sent::<u32>(Ok(())).is_ok());
    match std_try_sent(Err(std::sync::mpsc::TrySendError::Full(3u32))) {
        Ok(()) => panic!("a failed send was reported as sent"),
        Err(e) => assert_eq!(e.msg, 3),
    }
    match std_try_sent(Err(std::sync::mpsc::TrySendError::Disconnected(4u32))) {
        Ok(()) => panic!("a failed send was reported as sent"),
        Err(e) => assert_eq!(e.msg, 4),
    }
    assert!(std_sent::<u32>(Ok(())).is_ok());
    match std_sent(Err(std::sync::mpsc::SendError(5u32))) {
        Ok(()) => panic!("a failed send was reported as sent"),
        Err(e) => assert_eq!(e.msg, 5),
    }
    assert!(flume_try_sent::<u32>(Ok(())).is_ok());
    match flume_try_sent(Err(flume::TrySendError::Full(6u32))) {
        Ok(()) => panic!("a failed send was reported as sent"),
        Err(e) => assert_eq!(e.msg, 6),
    }
    match flume_try_sent(Err(flume::TrySendError::Disconnected(7u32))) {
        Ok(()) => panic!("a failed send was reported as sent"),
        Err(e) => assert_eq!(e.msg, 7),
    }
}

#[test]
fn receive_results_fold_into_message_or_idle() {
    assert!(matches!(std_received(Ok(1u32)), Ok(1)));
    assert!(matches!(
        std_received::<u32>(Err(std::sync::mpsc::RecvError)),
        Err(Idle::Disconnected)
    ));
    assert!(matches!(flume_received(Ok(2u32)), Ok(2)));
    assert!(matches!(
        flume_received::<u32>(Err(flume::RecvError::Disconnected)),
        Err(Idle::Disconnected)
    ));
    assert!(matches!(std_try_received(Ok(3u32)), Ok(3)));
    assert!(matches!(
        std_try_received::<u32>(Err(std::sync::mpsc::TryRecvError::Empty)),
        Err(Idle::Empty)
    ));
    assert!(matches!(
        std_try_received::<u32>(Err(std::sync::mpsc::TryRecvError::Disconnected)),
        Err(Idle::Disconnected)
    ));
    assert!(matches!(flume_try_received(Ok(4u32)), Ok(4)));
    assert!(matches!(
        flume_try_received::<u32>(Err(flume::TryRecvError::Empty)),
        Err(Idle::Empty)
    ));
    assert!(matches!(
        flume_try_received::<u32>(Err(flume::TryRecvError::Disconnected)),
        Err(Idle::Disconnected)
    ));
}

#[test]
fn exclusive_reader_keeps_a_polled_message() {
    let (tx, rx) = channel_ends::<Envelope<u32>>(0, Backend::Std);
    let qw = QueueWriter::new(tx);
    let mut reader = QueueReaderInner::new(rx);
    assert!(!reader.has_msgs());
    assert!(reader.try_dequeue().is_err());
    assert!(qw.try_enqueue(envelope(1)).is_ok());
    assert!(qw.try_enqueue(envelope(2)).is_ok());
    assert!(reader.has_msgs());
    assert!(reader.has_msgs());
    match reader.try_dequeue() {
        Ok(env) => assert_eq!(env.msg, 1),
        Err(_) => panic!("the reader lost its message"),
    }
    match reader.dequeue() {
        Ok(env) => assert_eq!(env.msg, 2),
        Err(_) => panic!("the reader lost its message"),
    }
    assert!(!reader.has_msgs());
    drop(qw);
    assert!(reader.dequeue().is_err());
}

#[test]
fn exclusive_reader_stashes_and_serves() {
    let (_tx, rx) = channel_ends::<Envelope<u32>>(0, Backend::Std);
    let mut reader = QueueReaderInner::new(rx);
    assert!(!reader.stash(None));
    assert!(reader.try_dequeue().is_err());
    assert!(reader.stash(Some(envelope(9))));
    assert!(reader.has_msgs());
    match reader.try_dequeue() {
        Ok(env) => assert_eq!(env.msg, 9),
        Err(_) => panic!("the reader lost its message"),
    }
    assert!(reader.serve(None).is_err());
    match reader.serve(Some(envelope(4))) {
        Ok(env) => assert_eq!(env.msg, 4),
        Err(_) => panic!("the reader lost its message"),
    }
    assert!(!reader.has_msgs());
}

#[test]
fn shared_reader_wraps_an_exclusive_one() {
    let (tx, rx) = channel_ends::<Envelope<u32>>(0, Backend::Flume);
    let qw = QueueWriter::new(tx);
    let mut reader = QueueReaderInner::new(rx);
    assert!(qw.try_enqueue(envelope(1)).is_ok());
    assert!(qw.try_enqueue(envelope(2)).is_ok());
    assert!(reader.has_msgs());
    let qr = QueueReader::new(reader);
    assert_eq!(dequeued(&qr), Some(1));
    assert_eq!(dequeued(&qr), Some(2));
    assert_eq!(dequeued(&qr), None);
}
