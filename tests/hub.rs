use bridge_relay::hub::DebugHub;

#[test]
fn broadcast_reaches_every_subscriber() {
    let mut hub = DebugHub::new();
    let mut a = hub.register();
    let mut b = hub.register();
    hub.broadcast("m1");
    assert_eq!(a.try_recv().unwrap(), "m1");
    assert_eq!(b.try_recv().unwrap(), "m1");
    assert_eq!(hub.subscriber_count(), 2);
}

#[test]
fn broadcast_drops_gone_subscriber_without_blocking() {
    let mut hub = DebugHub::new();
    let mut a = hub.register();
    let b = hub.register();
    drop(b);
    hub.broadcast("m1");
    hub.broadcast("m2");
    assert_eq!(hub.subscriber_count(), 1);
    assert_eq!(a.try_recv().unwrap(), "m1");
    assert_eq!(a.try_recv().unwrap(), "m2");
}

#[test]
fn prune_keeps_delivered_in_order() {
    let mut hub = DebugHub::new();
    let _a = hub.register();
    let _b = hub.register();
    let _c = hub.register();
    hub.prune(&vec![true, false, true]);
    assert_eq!(hub.subscriber_count(), 2);
}

#[test]
fn broadcast_with_no_subscribers_is_fine() {
    let mut hub = DebugHub::new();
    hub.broadcast("nobody");
    assert_eq!(hub.subscriber_count(), 0);
}
