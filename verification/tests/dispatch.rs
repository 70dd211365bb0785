//! The full delivery path: raw records in, canonical events out
//! through the armed callback slot, in delivery order.

use rdev::dispatch::{dispatch, dispatch_all, dispatch_at};
use rdev::normalize::{RawRecord, KIND_KEY_PRESS};
use rdev::{CallbackSlot, EventLog, EventType, Key, KeyboardState, Timestamp};

fn key_press(code: u32) -> RawRecord {
    RawRecord { kind: KIND_KEY_PRESS, code, x: 0, y: 0, delta_x: 0, delta_y: 0 }
}

#[test]
fn three_key_presses_log_their_event_types_in_order() {
    // The callback appends each delivered event to its log; the codes
    // for 'a', the left shift key and 'b' arrive in that order.
    let mut kb = KeyboardState::new();
    let mut slot = CallbackSlot::new();
    let rejected = slot.install(EventLog::new());
    assert!(rejected.is_none());

    dispatch_at(key_press(65), &mut kb, &mut slot, Timestamp { millis: 1 });
    dispatch_at(key_press(160), &mut kb, &mut slot, Timestamp { millis: 2 });
    dispatch_at(key_press(66), &mut kb, &mut slot, Timestamp { millis: 3 });

    let log = slot.clear().expect("slot was armed");
    let types: Vec<EventType> = log.events.iter().map(|e| e.event_type).collect();
    assert_eq!(
        types,
        vec![
            EventType::KeyPress(Key::KeyA),
            EventType::KeyPress(Key::ShiftLeft),
            EventType::KeyPress(Key::KeyB),
        ]
    );
    // The alphabetic keys resolve to names; 'b' is typed with shift held.
    assert_eq!(log.events[0].name, Some("a".to_string()));
    assert_eq!(log.events[1].name, None);
    assert_eq!(log.events[2].name, Some("B".to_string()));
}

#[test]
fn unrecognized_record_is_dropped_silently() {
    let mut kb = KeyboardState::new();
    let mut slot = CallbackSlot::new();
    let rejected = slot.install(EventLog::new());
    assert!(rejected.is_none());

    let raw = RawRecord { kind: 77, code: 65, x: 0, y: 0, delta_x: 0, delta_y: 0 };
    dispatch_at(raw, &mut kb, &mut slot, Timestamp { millis: 1 });

    let log = slot.clear().unwrap();
    assert_eq!(log.events.len(), 0);
}

#[test]
fn dispatch_into_empty_slot_is_a_no_op() {
    let mut kb = KeyboardState::new();
    let mut slot: CallbackSlot<EventLog> = CallbackSlot::new();
    dispatch_at(key_press(65), &mut kb, &mut slot, Timestamp { millis: 1 });
    assert!(!slot.is_armed());
    // The keyboard state still advanced.
    assert!(slot.clear().is_none());
}

#[test]
fn stream_delivers_only_recognized_records_in_order() {
    let mut kb = KeyboardState::new();
    let mut slot = CallbackSlot::new();
    let rejected = slot.install(EventLog::new());
    assert!(rejected.is_none());

    let unrecognized = RawRecord { kind: 99, code: 0, x: 0, y: 0, delta_x: 0, delta_y: 0 };
    let raws = vec![
        key_press(72),
        unrecognized,
        key_press(73),
        unrecognized,
        key_press(33),
    ];
    dispatch_all(&raws, &mut kb, &mut slot, Timestamp { millis: 5 });

    let log = slot.clear().unwrap();
    assert_eq!(log.events.len(), 3);
    assert_eq!(log.events[0].event_type, EventType::KeyPress(Key::KeyH));
    assert_eq!(log.events[0].name, Some("h".to_string()));
    assert_eq!(log.events[1].event_type, EventType::KeyPress(Key::KeyI));
    assert_eq!(log.events[2].event_type, EventType::KeyPress(Key::Unknown(33)));
    assert_eq!(log.events[2].name, None);
    assert!(log.events.iter().all(|e| e.time == Timestamp { millis: 5 }));
}

#[test]
fn dispatch_stamps_events_with_the_clock() {
    let mut kb = KeyboardState::new();
    let mut slot = CallbackSlot::new();
    let rejected = slot.install(EventLog::new());
    assert!(rejected.is_none());

    dispatch(key_press(65), &mut kb, &mut slot);

    let log = slot.clear().unwrap();
    assert_eq!(log.events.len(), 1);
    assert_eq!(log.events[0].event_type, EventType::KeyPress(Key::KeyA));
    // The timestamp is read from the real clock at dispatch: a plausible
    // wall-clock value, not the zero a dropped field would leave.
    assert!(log.events[0].time.millis > 0);
}
