//! The global callback slot: arming, counted in-order delivery,
//! defensive no-op on an empty slot, and keep-first installation.

use rdev::{CallbackSlot, Event, EventLog, EventType, Key, Timestamp};

fn key_event(key: Key, millis: u64) -> Event {
    Event {
        event_type: EventType::KeyPress(key),
        time: Timestamp { millis },
        name: None,
    }
}

#[test]
fn new_slot_is_empty() {
    let slot: CallbackSlot<EventLog> = CallbackSlot::new();
    assert!(!slot.is_armed());
}

#[test]
fn install_arms_the_slot() {
    let mut slot = CallbackSlot::new();
    let rejected = slot.install(EventLog::new());
    assert!(rejected.is_none());
    assert!(slot.is_armed());
}

#[test]
fn invoke_n_times_delivers_n_events_in_order() {
    let mut slot = CallbackSlot::new();
    let rejected = slot.install(EventLog::new());
    assert!(rejected.is_none());

    slot.invoke(key_event(Key::KeyA, 1));
    slot.invoke(key_event(Key::KeyB, 2));
    slot.invoke(key_event(Key::KeyC, 3));

    let log = slot.clear().expect("armed slot must hand back its sink");
    assert_eq!(log.len(), 3);
    assert_eq!(log.events[0], key_event(Key::KeyA, 1));
    assert_eq!(log.events[1], key_event(Key::KeyB, 2));
    assert_eq!(log.events[2], key_event(Key::KeyC, 3));
}

#[test]
fn deliver_all_keeps_delivery_order() {
    let mut slot = CallbackSlot::new();
    let rejected = slot.install(EventLog::new());
    assert!(rejected.is_none());

    let batch = vec![
        key_event(Key::KeyX, 10),
        key_event(Key::KeyY, 11),
        key_event(Key::KeyZ, 12),
    ];
    slot.deliver_all(&batch);

    let log = slot.clear().unwrap();
    assert_eq!(log.events, batch);
}

#[test]
fn invoke_after_clear_is_a_no_op() {
    let mut slot = CallbackSlot::new();
    let rejected = slot.install(EventLog::new());
    assert!(rejected.is_none());
    slot.invoke(key_event(Key::KeyA, 1));

    let log = slot.clear().unwrap();
    assert_eq!(log.events.len(), 1);

    // However often invoke fires afterwards, nothing changes.
    slot.invoke(key_event(Key::KeyB, 2));
    slot.invoke(key_event(Key::KeyC, 3));
    slot.invoke(key_event(Key::KeyD, 4));
    assert!(!slot.is_armed());
    assert!(slot.clear().is_none());
}

#[test]
fn invoke_on_never_armed_slot_is_a_no_op() {
    let mut slot: CallbackSlot<EventLog> = CallbackSlot::new();
    slot.invoke(key_event(Key::KeyA, 1));
    assert!(!slot.is_armed());
    assert!(slot.clear().is_none());
}

#[test]
fn second_install_keeps_the_first_sink() {
    let mut slot = CallbackSlot::new();
    let rejected = slot.install(EventLog::new());
    assert!(rejected.is_none());
    slot.invoke(key_event(Key::KeyA, 1));

    // The offered sink comes back; the armed one keeps its log.
    let offered = slot.install(EventLog::new());
    let offered = offered.expect("armed slot must reject a second sink");
    assert_eq!(offered.events.len(), 0);

    slot.invoke(key_event(Key::KeyB, 2));
    let log = slot.clear().unwrap();
    assert_eq!(log.events.len(), 2);
}

#[test]
fn clear_twice_returns_nothing_the_second_time() {
    let mut slot = CallbackSlot::new();
    let rejected = slot.install(EventLog::new());
    assert!(rejected.is_none());
    assert!(slot.clear().is_some());
    assert!(slot.clear().is_none());
    assert!(!slot.is_armed());
}
