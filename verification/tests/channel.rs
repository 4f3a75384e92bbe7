use spsc::Consumer;
use spsc::Producer;
use spsc::channel;

#[test]
fn test_consumer_pop() {
    let capacity: usize = 100;
    let (px, cx) = channel(capacity);

    for i in 0..9 {
        px.send(i);
        assert_eq!(px.capacity().unwrap(), capacity.next_power_of_two() - 1);
        assert_eq!(px.size().unwrap(), i + 1);
    }

    for i in 0..9 {
        assert_eq!(cx.size().unwrap(), 9 - i);
        let t = cx.recv().unwrap();
        assert_eq!(cx.capacity().unwrap(), capacity.next_power_of_two() - 1);
        assert_eq!(cx.size().unwrap(), 9 - i - 1);
        assert_eq!(t, i);
    }
}

#[test]
fn queue_length_is_accurate() {
    let (px, cx) = channel(100);
    assert_eq!(0, cx.size().unwrap());
    for i in 0..11 {
        px.send(i);
        assert_eq!(i + 1, cx.size().unwrap());
    }
}

#[test]
fn fifo_order_is_kept() {
    let (px, cx) = channel(16);
    for i in 0..50u64 {
        px.send(i).unwrap();
    }
    for i in 0..50u64 {
        assert_eq!(cx.recv().unwrap(), i);
    }
}

#[test]
fn size_counts_pushes_minus_pops() {
    let (px, cx) = channel(32);
    for i in 0..10i32 {
        px.send(i).unwrap();
    }
    for _ in 0..4 {
        cx.recv().unwrap();
    }
    assert_eq!(px.size().unwrap(), 6);
    assert_eq!(cx.size().unwrap(), 6);
}

#[test]
fn capacity_is_normalized() {
    assert_eq!(channel::<u8>(0).0.capacity().unwrap(), 0);
    assert_eq!(channel::<u8>(1).0.capacity().unwrap(), 1);
    assert_eq!(channel::<u8>(2).0.capacity().unwrap(), 3);
    assert_eq!(channel::<u8>(7).0.capacity().unwrap(), 7);
    assert_eq!(channel::<u8>(64).0.capacity().unwrap(), 127);
    assert_eq!(channel::<u8>(128).0.capacity().unwrap(), 255);
}

#[test]
fn capacity_never_decreases() {
    let (px, cx) = channel(1);
    assert_eq!(px.capacity().unwrap(), 1);
    let mut seen = px.capacity().unwrap();
    for i in 0..20i64 {
        px.send(i).unwrap();
        let now = px.capacity().unwrap();
        assert!(now >= seen);
        seen = now;
    }
    // 20 queued values force the capacity up the 1, 3, 7, 15, 31 ladder.
    assert_eq!(px.capacity().unwrap(), 31);
    for _ in 0..20 {
        cx.recv().unwrap();
    }
    // Pops never shrink it.
    assert_eq!(cx.capacity().unwrap(), 31);
}

#[test]
fn cloned_producers_share_one_queue() {
    let (px1, cx) = channel(8);
    let px2 = px1.clone();
    px1.send(1).unwrap();
    px2.send(2).unwrap();
    let mut got = vec![cx.recv().unwrap(), cx.recv().unwrap()];
    got.sort();
    assert_eq!(got, vec![1, 2]);
    assert_eq!(cx.size().unwrap(), 0);
}

#[test]
fn cloned_consumers_share_one_queue() {
    let (px, cx1) = channel(8);
    let cx2 = cx1.clone();
    px.send(9).unwrap();
    assert_eq!(cx2.recv().unwrap(), 9);
    assert_eq!(cx1.size().unwrap(), 0);
}

#[test]
fn sum_of_a_short_stream() {
    let (px, cx) = channel(64);
    for i in 1..30u64 {
        px.send(i).unwrap();
    }
    let mut sum = 0;
    for _ in 1..30 {
        sum += cx.recv().unwrap();
    }
    assert_eq!(sum, 435);
}

#[test]
fn poisoned_channel_reports_errors() {
    let (px, cx) = channel(4);
    px.send(5).unwrap();
    cx.poison();

    let e = px.send(7).unwrap_err();
    assert_eq!(e.0, 7);

    let e = cx.recv().unwrap_err();
    assert_eq!(e.message(), "Consumer::recv() found the channel poisoned.");

    let e = px.capacity().unwrap_err();
    assert_eq!(e.message(), "Producer::capacity() found the channel poisoned.");
    let e = cx.capacity().unwrap_err();
    assert_eq!(e.message(), "Consumer::capacity() found the channel poisoned.");
    let e = px.size().unwrap_err();
    assert_eq!(e.message(), "Producer::size() found the channel poisoned.");
    let e = cx.size().unwrap_err();
    assert_eq!(e.message(), "Consumer::size() found the channel poisoned.");
}

#[test]
fn poisoning_from_the_producer_side() {
    let (px, cx) = channel::<u32>(4);
    px.poison();
    assert!(px.send(1).is_err());
    assert!(cx.recv().is_err());
}

#[test]
fn standalone_handles_are_unlinked() {
    let px: Producer<i32> = Producer::new(10);
    let cx: Consumer<i32> = Consumer::new(10);
    assert_eq!(px.capacity().unwrap(), 15);
    assert_eq!(cx.capacity().unwrap(), 15);
    assert_eq!(px.size().unwrap(), 0);
    assert_eq!(cx.size().unwrap(), 0);
    // The producer's queue is its own: pushing there leaves the
    // standalone consumer's queue empty.
    px.send(3).unwrap();
    assert_eq!(px.size().unwrap(), 1);
    assert_eq!(cx.size().unwrap(), 0);
}
