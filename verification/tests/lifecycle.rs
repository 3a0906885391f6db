use single_use_channel::SingleUseSender;
use single_use_channel::TryRecvVal;
use single_use_channel::TrySendVal;
use single_use_channel::create_single_use_channel;
use std::sync::Arc;
use std::sync::atomic::AtomicUsize;
use std::sync::atomic::Ordering;

/// Sends at the first try: with no other handle at work, the mailbox cannot
/// be busy.
fn send<T: Send>(sender: SingleUseSender<T>, val: T) {
    match sender.try_send(val) {
        TrySendVal::Sent => {}
        TrySendVal::Fail(_, _) => panic!("nobody else holds the mailbox"),
    }
}

/// Counts how often values of this type are destroyed.
struct Tally {
    drops: Arc<AtomicUsize>,
    tag: u64,
}

impl Drop for Tally {
    fn drop(&mut self) {
        self.drops.fetch_add(1, Ordering::SeqCst);
    }
}

#[test]
fn received_value_is_the_sent_one() {
    let (sender, receiver) = create_single_use_channel::<Vec<String>>().split_channel();
    let sent = vec![String::from("a"), String::from("bc"), String::new()];
    send(sender, sent.clone());
    match receiver.try_recv() {
        TryRecvVal::Received(value) => assert_eq!(value, sent),
        TryRecvVal::Fail(_) => panic!("the value was sent"),
    }
}

#[test]
fn unit_and_extreme_values_pass_through() {
    let (sender, receiver) = create_single_use_channel::<()>().split_channel();
    send(sender, ());
    assert!(matches!(receiver.try_recv(), TryRecvVal::Received(())));

    let (sender, receiver) = create_single_use_channel::<i64>().split_channel();
    send(sender, i64::MIN);
    assert!(matches!(receiver.try_recv(), TryRecvVal::Received(i64::MIN)));
}

#[test]
fn polls_before_send_all_fail() {
    let (sender, mut receiver) = create_single_use_channel::<u8>().split_channel();
    for _ in 0..1000 {
        receiver = match receiver.try_recv() {
            TryRecvVal::Fail(back) => back,
            TryRecvVal::Received(_) => panic!("nothing was sent yet"),
        };
    }
    send(sender, 9);
    assert!(matches!(receiver.try_recv(), TryRecvVal::Received(9)));
}

#[test]
fn failed_poll_hands_back_a_working_receiver() {
    let (sender, receiver) = create_single_use_channel::<u8>().split_channel();
    let twin = receiver.clone();
    let receiver = match receiver.try_recv() {
        TryRecvVal::Fail(back) => back,
        TryRecvVal::Received(_) => panic!("nothing was sent yet"),
    };
    send(sender, 3);
    drop(twin);
    assert!(matches!(receiver.try_recv(), TryRecvVal::Received(3)));
}

#[test]
fn received_value_is_destroyed_by_the_receiver_only() {
    let drops = Arc::new(AtomicUsize::new(0));
    let (sender, receiver) = create_single_use_channel::<Tally>().split_channel();
    send(sender, Tally { drops: drops.clone(), tag: 11 });
    assert_eq!(drops.load(Ordering::SeqCst), 0);
    let value = match receiver.try_recv() {
        TryRecvVal::Received(value) => value,
        TryRecvVal::Fail(_) => panic!("the value was sent"),
    };
    assert_eq!(value.tag, 11);
    assert_eq!(drops.load(Ordering::SeqCst), 0);
    drop(value);
    assert_eq!(drops.load(Ordering::SeqCst), 1);
    assert_eq!(Arc::strong_count(&drops), 1);
}

#[test]
fn unreceived_value_is_destroyed_at_teardown() {
    let drops = Arc::new(AtomicUsize::new(0));
    let (sender, receiver) = create_single_use_channel::<Tally>().split_channel();
    let twin = receiver.clone();
    send(sender, Tally { drops: drops.clone(), tag: 5 });
    assert_eq!(drops.load(Ordering::SeqCst), 0);
    drop(receiver);
    assert_eq!(drops.load(Ordering::SeqCst), 0);
    drop(twin);
    assert_eq!(drops.load(Ordering::SeqCst), 1);
    assert_eq!(Arc::strong_count(&drops), 1);
}

#[test]
fn unsplit_channel_destroys_nothing() {
    let drops = Arc::new(AtomicUsize::new(0));
    let channel = create_single_use_channel::<Tally>();
    drop(channel);
    assert_eq!(drops.load(Ordering::SeqCst), 0);
}

#[test]
fn clone_of_receiver_can_take_the_value() {
    let (sender, receiver) = create_single_use_channel::<String>().split_channel();
    let twin = receiver.clone();
    drop(receiver);
    send(sender, String::from("late"));
    match twin.try_recv() {
        TryRecvVal::Received(value) => assert_eq!(value, "late"),
        TryRecvVal::Fail(_) => panic!("the value was sent"),
    }
}

#[test]
fn second_drainer_finds_nothing() {
    let drops = Arc::new(AtomicUsize::new(0));
    let (sender, receiver) = create_single_use_channel::<Tally>().split_channel();
    let twin = receiver.clone();
    send(sender, Tally { drops: drops.clone(), tag: 1 });
    let value = match receiver.try_recv() {
        TryRecvVal::Received(value) => value,
        TryRecvVal::Fail(_) => panic!("the value was sent"),
    };
    let twin = match twin.try_recv() {
        TryRecvVal::Fail(back) => back,
        TryRecvVal::Received(_) => panic!("the value was taken already"),
    };
    drop(twin);
    assert_eq!(drops.load(Ordering::SeqCst), 0);
    drop(value);
    assert_eq!(drops.load(Ordering::SeqCst), 1);
}

#[test]
fn writes_before_send_are_seen_after_receive() {
    let board = Arc::new(AtomicUsize::new(0));
    let (sender, receiver) = create_single_use_channel::<()>().split_channel();
    let receiver = match receiver.try_recv() {
        TryRecvVal::Fail(back) => back,
        TryRecvVal::Received(()) => panic!("nothing was sent yet"),
    };
    board.store(99, Ordering::Relaxed);
    send(sender, ());
    match receiver.try_recv() {
        TryRecvVal::Received(()) => assert_eq!(board.load(Ordering::Relaxed), 99),
        TryRecvVal::Fail(_) => panic!("the value was sent"),
    }
}
