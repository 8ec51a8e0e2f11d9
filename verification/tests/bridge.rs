use clipboard_watch::bridge::{payload_into_caller, stamp_notifications, NotificationBridge};
use clipboard_watch::watcher::{drive, WatchEvent, WatchPhase};

#[test]
fn run_stamps_one_event_per_notification() {
    // Two changes happen while the session runs, one after shutdown: exactly
    // the first two reach the bridge, and they come out in order.
    let events = vec![
        WatchEvent::Changed,
        WatchEvent::WaitFailed,
        WatchEvent::Changed,
        WatchEvent::ShutdownRequested,
        WatchEvent::Changed,
    ];
    let actions = drive(WatchPhase::Running, &events);
    let mut bridge = NotificationBridge::new();
    stamp_notifications(&actions, &mut bridge);
    assert_eq!(bridge.produced_count(), 2);
    assert_eq!(bridge.next_delivery(), Some(0));
    assert_eq!(bridge.next_delivery(), Some(1));
    assert_eq!(bridge.next_delivery(), None);
}

#[test]
fn delivery_preserves_production_order() {
    let mut bridge = NotificationBridge::new();
    let first = bridge.notify_change();
    let second = bridge.notify_change();
    assert_eq!(first, 0);
    assert_eq!(second, 1);
    assert_eq!(bridge.next_delivery(), Some(0));
    assert_eq!(bridge.next_delivery(), Some(1));
    assert_eq!(bridge.next_delivery(), None);
}

#[test]
fn empty_bridge_delivers_nothing() {
    let mut bridge = NotificationBridge::new();
    assert_eq!(bridge.next_delivery(), None);
    assert_eq!(bridge.pending_count(), 0);
}

#[test]
fn producer_side_is_independent_of_consumer() {
    // The producer can keep enqueuing no matter how far behind the consumer
    // is: nothing is delivered until asked for, and then in order.
    let mut bridge = NotificationBridge::new();
    for expected in 0..100u64 {
        assert_eq!(bridge.notify_change(), expected);
    }
    assert_eq!(bridge.pending_count(), 100);
    for expected in 0..100u64 {
        assert_eq!(bridge.next_delivery(), Some(expected));
    }
    assert_eq!(bridge.next_delivery(), None);
}

#[test]
fn payload_is_bumped_on_the_way_in() {
    assert_eq!(payload_into_caller(0), 1);
    assert_eq!(payload_into_caller(9), 10);
}
