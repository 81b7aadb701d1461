use ime_cursor::channel::{channel, worker_thread};
use ime_cursor::model::{ChannelError, Turn, Wake};

#[test]
fn test_delayed_send() {
    let delay = 100;
    let (tx, rx, mut shared) = channel(delay);

    let start = 0;

    tx.send(&mut shared, "event1", start).unwrap();
    assert_eq!(worker_thread(&mut shared, start), Turn::Sleep(100));

    // A second send within the delay replaces the first.
    tx.send(&mut shared, "event2", start + 50).unwrap();
    assert_eq!(worker_thread(&mut shared, start + 50), Turn::Sleep(100));

    // The first event's own due time passes without a delivery.
    assert_eq!(worker_thread(&mut shared, start + 100), Turn::Sleep(50));
    assert_eq!(rx.recv(&mut shared), Ok(None));
    assert_eq!(worker_thread(&mut shared, start + 149), Turn::Sleep(1));
    assert_eq!(rx.recv(&mut shared), Ok(None));

    // The scheduler wakes when its sleep ends, 150 ticks after the start.
    let woke = start + 150;
    assert_eq!(worker_thread(&mut shared, woke), Turn::Promoted);
    let result = rx.recv(&mut shared).unwrap();
    assert_eq!(result, Some("event2"));

    let elapsed = woke - start;
    assert!(elapsed >= 150);
    assert!(elapsed < 160);

    // "event1" is never seen.
    assert_eq!(worker_thread(&mut shared, woke), Turn::Park);
    assert_eq!(rx.try_recv(&mut shared), Err(ChannelError::Empty));
}

#[test]
fn test_immediate_send() {
    let delay = 100;
    let (tx, rx, mut shared) = channel(delay);

    let start = 0;

    tx.send_immediate(&mut shared, "immediate", start).unwrap();

    // No turn of the scheduler and no tick of the clock is needed.
    let result = rx.recv(&mut shared).unwrap();
    assert_eq!(result, Some("immediate"));

    let elapsed = start - start;
    assert!(elapsed < 50);
}

#[test]
fn test_multiple_events() {
    let delay = 50;
    let (tx, rx, mut shared) = channel(delay);
    let mut results: Vec<String> = Vec::new();
    let mut now = 0;

    // A burst: only the last one is kept.
    tx.send(&mut shared, "event1".to_string(), now).unwrap();
    assert_eq!(worker_thread(&mut shared, now), Turn::Sleep(50));
    now += 10;
    tx.send(&mut shared, "event2".to_string(), now).unwrap();
    assert_eq!(worker_thread(&mut shared, now), Turn::Sleep(50));
    now += 10;
    tx.send(&mut shared, "event3".to_string(), now).unwrap();
    assert_eq!(worker_thread(&mut shared, now), Turn::Sleep(50));

    // The burst settles.
    assert_eq!(worker_thread(&mut shared, now + 50), Turn::Promoted);
    assert_eq!(worker_thread(&mut shared, now + 50), Turn::Park);
    results.push(rx.recv(&mut shared).unwrap().unwrap());
    now += 200;

    tx.send(&mut shared, "event4".to_string(), now).unwrap();
    assert_eq!(worker_thread(&mut shared, now), Turn::Sleep(50));
    assert_eq!(worker_thread(&mut shared, now + 50), Turn::Promoted);
    results.push(rx.recv(&mut shared).unwrap().unwrap());
    now += 60;

    tx.send(&mut shared, "event5".to_string(), now).unwrap();
    assert_eq!(worker_thread(&mut shared, now), Turn::Sleep(50));
    assert_eq!(worker_thread(&mut shared, now + 50), Turn::Promoted);
    results.push(rx.recv(&mut shared).unwrap().unwrap());
    now += 60;

    // The sender goes away.
    assert_eq!(tx.release(&mut shared), Wake::Everyone);
    assert_eq!(worker_thread(&mut shared, now), Turn::Exit);

    assert_eq!(results, vec!["event3", "event4", "event5"]);
    assert_eq!(rx.recv(&mut shared), Err(ChannelError::ChannelClosed));
}

#[test]
fn fresh_channel_is_open_and_empty() {
    let (_tx, rx, mut shared) = channel::<u32>(25);
    assert!(shared.is_active());
    assert_eq!(shared.delay(), 25);
    assert_eq!(worker_thread(&mut shared, 0), Turn::Park);
    assert_eq!(rx.try_recv(&mut shared), Err(ChannelError::Empty));
    assert_eq!(rx.recv(&mut shared), Ok(None));
}

#[test]
fn send_is_due_after_the_delay() {
    let (tx, rx, mut shared) = channel(30);
    assert_eq!(tx.send(&mut shared, 7u8, 1000), Ok(Wake::Scheduler));
    // Due at 1030: the scheduler sleeps for what is left, to the tick.
    assert_eq!(worker_thread(&mut shared, 1000), Turn::Sleep(30));
    assert_eq!(worker_thread(&mut shared, 1001), Turn::Sleep(29));
    assert_eq!(worker_thread(&mut shared, 1029), Turn::Sleep(1));
    assert_eq!(rx.try_recv(&mut shared), Err(ChannelError::Empty));
    assert_eq!(worker_thread(&mut shared, 1030), Turn::Promoted);
    assert_eq!(rx.try_recv(&mut shared), Ok(7));
    assert_eq!(rx.try_recv(&mut shared), Err(ChannelError::Empty));
}

#[test]
fn late_turn_still_promotes() {
    let (tx, rx, mut shared) = channel(30);
    tx.send(&mut shared, 'x', 0).unwrap();
    assert_eq!(worker_thread(&mut shared, 5000), Turn::Promoted);
    assert_eq!(worker_thread(&mut shared, 5000), Turn::Park);
    assert_eq!(rx.recv(&mut shared), Ok(Some('x')));
}

#[test]
fn zero_delay_is_due_at_once() {
    let (tx, rx, mut shared) = channel(0);
    tx.send(&mut shared, 1u8, 42).unwrap();
    assert_eq!(worker_thread(&mut shared, 42), Turn::Promoted);
    assert_eq!(rx.recv(&mut shared), Ok(Some(1)));
}

#[test]
fn send_at_the_end_of_time() {
    let (tx, _rx, mut shared) = channel(10);
    tx.send(&mut shared, 1u8, u64::MAX - 10).unwrap();
    assert_eq!(worker_thread(&mut shared, u64::MAX - 1), Turn::Sleep(1));
    assert_eq!(worker_thread(&mut shared, u64::MAX), Turn::Promoted);
}

#[test]
fn overwrite_restarts_the_wait() {
    let (tx, rx, mut shared) = channel(100);
    tx.send(&mut shared, "old", 0).unwrap();
    assert_eq!(worker_thread(&mut shared, 90), Turn::Sleep(10));
    tx.send(&mut shared, "new", 95).unwrap();
    // The scheduler's old sleep ends at 100: the new event is not due.
    assert_eq!(worker_thread(&mut shared, 100), Turn::Sleep(95));
    assert_eq!(rx.try_recv(&mut shared), Err(ChannelError::Empty));
    assert_eq!(worker_thread(&mut shared, 195), Turn::Promoted);
    assert_eq!(rx.try_recv(&mut shared), Ok("new"));
    assert_eq!(worker_thread(&mut shared, 195), Turn::Park);
    assert_eq!(rx.try_recv(&mut shared), Err(ChannelError::Empty));
}

#[test]
fn burst_yields_its_last_payload_only() {
    // Sends less than the delay apart, with scheduler turns in between.
    let delay = 40;
    let (tx, rx, mut shared) = channel(delay);
    let mut now = 0;
    for i in 0..100u32 {
        tx.send(&mut shared, i, now).unwrap();
        assert_eq!(worker_thread(&mut shared, now), Turn::Sleep(delay));
        now += delay - 1;
        assert_eq!(worker_thread(&mut shared, now), Turn::Sleep(1));
        assert_eq!(rx.try_recv(&mut shared), Err(ChannelError::Empty));
    }
    assert_eq!(worker_thread(&mut shared, now + 1), Turn::Promoted);
    assert_eq!(rx.try_recv(&mut shared), Ok(99));
    assert_eq!(rx.try_recv(&mut shared), Err(ChannelError::Empty));
}

#[test]
fn sends_a_full_delay_apart_all_arrive() {
    let delay = 40;
    let (tx, rx, mut shared) = channel(delay);
    let mut got = Vec::new();
    for i in 0..5u64 {
        let now = i * delay;
        tx.send(&mut shared, i, now).unwrap();
        assert_eq!(worker_thread(&mut shared, now + delay), Turn::Promoted);
        got.push(rx.recv(&mut shared).unwrap().unwrap());
    }
    assert_eq!(got, vec![0, 1, 2, 3, 4]);
}

#[test]
fn immediate_send_discards_the_pending_event() {
    let (tx, rx, mut shared) = channel(100);
    tx.send(&mut shared, "pending", 0).unwrap();
    assert_eq!(tx.send_immediate(&mut shared, "now", 10), Ok(Wake::Receiver));
    assert_eq!(rx.recv(&mut shared), Ok(Some("now")));
    // The pending event is gone for good.
    assert_eq!(worker_thread(&mut shared, 100), Turn::Park);
    assert_eq!(worker_thread(&mut shared, 100_000), Turn::Park);
    assert_eq!(rx.try_recv(&mut shared), Err(ChannelError::Empty));
}

#[test]
fn ready_events_come_out_in_order() {
    let (tx, rx, mut shared) = channel(10);
    tx.send_immediate(&mut shared, 1, 0).unwrap();
    tx.send(&mut shared, 2, 0).unwrap();
    assert_eq!(worker_thread(&mut shared, 10), Turn::Promoted);
    tx.send_immediate(&mut shared, 3, 11).unwrap();
    tx.send(&mut shared, 4, 12).unwrap();
    assert_eq!(worker_thread(&mut shared, 22), Turn::Promoted);
    assert_eq!(rx.recv(&mut shared), Ok(Some(1)));
    assert_eq!(rx.try_recv(&mut shared), Ok(2));
    assert_eq!(rx.recv(&mut shared), Ok(Some(3)));
    assert_eq!(rx.try_recv(&mut shared), Ok(4));
    assert_eq!(rx.recv(&mut shared), Ok(None));
}

#[test]
fn closed_channel_refuses_sends() {
    let (tx, rx, mut shared) = channel(10);
    shared.close();
    assert!(!shared.is_active());
    assert_eq!(tx.send(&mut shared, 1, 0), Err(ChannelError::ChannelClosed));
    assert_eq!(tx.send_immediate(&mut shared, 2, 0), Err(ChannelError::ChannelClosed));
    assert_eq!(worker_thread(&mut shared, 1000), Turn::Exit);
    assert_eq!(rx.recv(&mut shared), Err(ChannelError::ChannelClosed));
    assert_eq!(rx.try_recv(&mut shared), Err(ChannelError::ChannelClosed));
}

#[test]
fn closing_twice_is_closing_once() {
    let (tx, rx, mut shared) = channel(10);
    tx.send_immediate(&mut shared, 'a', 0).unwrap();
    assert_eq!(shared.close(), Wake::Everyone);
    assert_eq!(shared.close(), Wake::Nobody);
    assert!(!shared.is_active());
    assert_eq!(shared.delay(), 10);
    assert_eq!(tx.send(&mut shared, 'b', 1), Err(ChannelError::ChannelClosed));
    // What was ready can still be read, once.
    assert_eq!(rx.recv(&mut shared), Ok(Some('a')));
    assert_eq!(rx.recv(&mut shared), Err(ChannelError::ChannelClosed));
    assert_eq!(rx.try_recv(&mut shared), Err(ChannelError::ChannelClosed));
}

#[test]
fn closing_discards_the_pending_event() {
    let (tx, rx, mut shared) = channel(10);
    tx.send(&mut shared, 'a', 0).unwrap();
    shared.close();
    // Due or not, it is never promoted.
    assert_eq!(worker_thread(&mut shared, 10), Turn::Exit);
    assert_eq!(worker_thread(&mut shared, 10), Turn::Exit);
    assert_eq!(rx.try_recv(&mut shared), Err(ChannelError::ChannelClosed));
}

#[test]
fn try_recv_drains_a_closed_channel() {
    let (tx, rx, mut shared) = channel(10);
    tx.send_immediate(&mut shared, 1, 0).unwrap();
    tx.send_immediate(&mut shared, 2, 0).unwrap();
    tx.release(&mut shared);
    assert!(!shared.is_active());
    assert_eq!(rx.try_recv(&mut shared), Ok(1));
    assert_eq!(rx.try_recv(&mut shared), Ok(2));
    assert_eq!(rx.try_recv(&mut shared), Err(ChannelError::ChannelClosed));
}

#[test]
fn releasing_the_receiver_closes_the_channel() {
    let (tx, rx, mut shared) = channel(10);
    let tx2 = tx.clone(&mut shared);
    assert_eq!(shared.senders(), 2);
    tx.send(&mut shared, 1, 0).unwrap();
    assert_eq!(rx.release(&mut shared), Wake::Everyone);
    assert!(!shared.is_active());
    assert_eq!(tx.send(&mut shared, 2, 5), Err(ChannelError::ChannelClosed));
    assert_eq!(tx2.send_immediate(&mut shared, 3, 5), Err(ChannelError::ChannelClosed));
    assert_eq!(worker_thread(&mut shared, 10), Turn::Exit);
}

#[test]
fn last_sender_closes_the_channel() {
    let (tx, rx, mut shared) = channel(10);
    assert_eq!(shared.senders(), 1);
    let tx2 = tx.clone(&mut shared);
    let tx3 = tx2.clone(&mut shared);
    assert_eq!(shared.senders(), 3);
    assert_eq!(tx.release(&mut shared), Wake::Nobody);
    assert_eq!(shared.senders(), 2);
    assert!(shared.is_active());
    assert_eq!(tx2.send(&mut shared, 5, 0), Ok(Wake::Scheduler));
    assert_eq!(tx2.release(&mut shared), Wake::Nobody);
    assert!(shared.is_active());
    assert_eq!(worker_thread(&mut shared, 10), Turn::Promoted);
    assert_eq!(tx3.release(&mut shared), Wake::Everyone);
    assert_eq!(shared.senders(), 0);
    assert!(!shared.is_active());
    assert_eq!(worker_thread(&mut shared, 10), Turn::Exit);
    assert_eq!(rx.recv(&mut shared), Ok(Some(5)));
    assert_eq!(rx.recv(&mut shared), Err(ChannelError::ChannelClosed));
}

#[test]
fn a_closed_channel_stays_closed() {
    let (tx, rx, mut shared) = channel::<u8>(10);
    shared.close();
    let tx2 = tx.clone(&mut shared);
    assert!(!shared.is_active());
    assert_eq!(tx2.send(&mut shared, 1, 0), Err(ChannelError::ChannelClosed));
    assert_eq!(tx2.release(&mut shared), Wake::Nobody);
    assert_eq!(tx.release(&mut shared), Wake::Nobody);
    assert_eq!(rx.release(&mut shared), Wake::Nobody);
    assert!(!shared.is_active());
}

#[test]
fn error_texts() {
    assert_eq!(ChannelError::ChannelClosed.message(), "Channel is closed");
    assert_eq!(ChannelError::Empty.message(), "Channel is empty");
}

#[test]
fn only_a_promotion_wakes_a_receiver() {
    assert_eq!(Turn::Promoted.wake(), Wake::Receiver);
    assert_eq!(Turn::Park.wake(), Wake::Nobody);
    assert_eq!(Turn::Sleep(3).wake(), Wake::Nobody);
    assert_eq!(Turn::Exit.wake(), Wake::Nobody);
}
