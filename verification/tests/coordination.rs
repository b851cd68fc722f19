use crust::demux::BootstrapHandlerSlot;
use crust::drop_notify::DropState;

#[test]
fn notice_waits_until_the_notifier_is_dropped() {
    let mut s: DropState<&str> = DropState::new();
    assert!(!s.poll_notice("task a"));
    assert!(!s.poll_notice("task b"));
    assert_eq!(s.notify_drop(), Some("task b"));
    assert!(s.poll_notice("task c"));
    assert_eq!(s.notify_drop(), None);
}

#[test]
fn dropping_with_no_waiter_wakes_nobody() {
    let mut s: DropState<u8> = DropState::new();
    assert_eq!(s.notify_drop(), None);
    assert!(s.poll_notice(1));
}

#[test]
fn a_new_acceptor_replaces_the_old_one() {
    let mut slot: BootstrapHandlerSlot<&str> = BootstrapHandlerSlot::new();
    assert!(slot.current().is_none());
    let first = slot.install("first");
    assert_eq!(slot.current(), Some(&"first"));
    let second = slot.install("second");
    assert_ne!(first, second);
    assert_eq!(slot.current(), Some(&"second"));
    // The replaced acceptor goes away: the new one stays.
    slot.uninstall(first);
    assert_eq!(slot.current(), Some(&"second"));
    // The installed acceptor goes away: bootstrap accepting stops.
    slot.uninstall(second);
    assert!(slot.current().is_none());
}
