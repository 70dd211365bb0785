//! Registration flows: fail-fast errors naming the failed step, no
//! native resource left live after a failure, and idempotent teardown.

use rdev::registrar::{
    listen_hook_flow, listen_tap_flow, stop_hooks, stop_tap, HookCleanup, HookPhase,
    HookRegistrar, TapCleanup, TapPhase, TapRegistrar,
};
use rdev::{CallbackSlot, Event, EventLog, EventType, HookError, Key, ListenError, Timestamp};

#[test]
fn tap_flow_succeeds_when_every_step_does() {
    let mut slot = CallbackSlot::new();
    let (reg, result) = listen_tap_flow(&mut slot, EventLog::new(), true, true, true);
    assert_eq!(result, Ok(()));
    assert_eq!(reg.phase, TapPhase::Active);
    assert!(reg.tap_live && reg.source_live && reg.enabled);
    assert!(slot.is_armed());
}

#[test]
fn tap_flow_fails_when_tap_creation_fails() {
    let mut slot = CallbackSlot::new();
    let (reg, result) = listen_tap_flow(&mut slot, EventLog::new(), false, true, true);
    assert_eq!(result, Err(ListenError::EventTapError));
    assert_eq!(reg.phase, TapPhase::Failed);
    assert!(!reg.tap_live && !reg.source_live && !reg.enabled);
    assert!(!slot.is_armed());
}

#[test]
fn tap_flow_fails_when_source_creation_fails() {
    // Registration step two fails deterministically: the loop-source
    // error comes back and the mock resource flags show nothing armed.
    let mut slot = CallbackSlot::new();
    let (reg, result) = listen_tap_flow(&mut slot, EventLog::new(), true, false, true);
    assert_eq!(result, Err(ListenError::LoopSourceError));
    assert_eq!(reg.phase, TapPhase::Failed);
    assert!(!reg.enabled);
    assert!(!reg.tap_live && !reg.source_live);
    assert!(!slot.is_armed());
}

#[test]
fn tap_flow_fails_when_tap_reports_disabled() {
    let mut slot = CallbackSlot::new();
    let (reg, result) = listen_tap_flow(&mut slot, EventLog::new(), true, true, false);
    assert_eq!(result, Err(ListenError::EventTapDisabled));
    assert!(!reg.tap_live && !reg.source_live && !reg.enabled);
    assert!(!slot.is_armed());
}

#[test]
fn tap_machine_prescribes_cleanup_on_source_failure() {
    let mut reg = TapRegistrar::new();
    assert_eq!(reg.report(true), TapCleanup::Nothing);
    assert!(reg.tap_live);
    let cleanup = reg.report(false);
    assert_eq!(cleanup, TapCleanup::ReleaseTap);
    assert_eq!(reg.phase, TapPhase::Failed);
    assert_eq!(reg.error, Some(ListenError::LoopSourceError));
    assert!(!reg.tap_live);
}

#[test]
fn tap_machine_prescribes_full_release_on_disabled_tap() {
    let mut reg = TapRegistrar::new();
    let _ = reg.report(true);
    let _ = reg.report(true);
    let _ = reg.report(true);
    assert_eq!(reg.phase, TapPhase::Confirming);
    assert!(reg.enabled);
    let cleanup = reg.report(false);
    assert_eq!(cleanup, TapCleanup::DisableAndRelease);
    assert_eq!(reg.error, Some(ListenError::EventTapDisabled));
    assert!(!reg.tap_live && !reg.source_live && !reg.enabled);
}

#[test]
fn hook_flow_succeeds_when_both_hooks_install() {
    let mut slot = CallbackSlot::new();
    let (reg, result) = listen_hook_flow(&mut slot, EventLog::new(), Ok(()), Ok(()));
    assert_eq!(result, Ok(()));
    assert_eq!(reg.phase, HookPhase::Active);
    assert!(reg.key_hook_live && reg.mouse_hook_live);
    assert!(slot.is_armed());
}

#[test]
fn hook_flow_fails_with_key_hook_code() {
    let mut slot = CallbackSlot::new();
    let (reg, result) = listen_hook_flow(&mut slot, EventLog::new(), Err(1429), Ok(()));
    assert_eq!(result, Err(ListenError::KeyHookError(1429)));
    assert_eq!(reg.phase, HookPhase::Failed);
    assert!(!reg.key_hook_live && !reg.mouse_hook_live);
    assert!(!slot.is_armed());
}

#[test]
fn hook_flow_fails_with_mouse_hook_code_and_removes_key_hook() {
    let mut slot = CallbackSlot::new();
    let (reg, result) = listen_hook_flow(&mut slot, EventLog::new(), Ok(()), Err(87));
    assert_eq!(result, Err(ListenError::MouseHookError(87)));
    assert!(!reg.key_hook_live && !reg.mouse_hook_live);
    assert!(!slot.is_armed());
}

#[test]
fn hook_machine_prescribes_key_hook_removal_on_mouse_failure() {
    let mut reg = HookRegistrar::new();
    assert_eq!(reg.report(Ok(())), HookCleanup::Nothing);
    assert!(reg.key_hook_live);
    let cleanup = reg.report(Err(87));
    assert_eq!(cleanup, HookCleanup::RemoveKeyHook);
    assert_eq!(reg.error, Some(ListenError::MouseHookError(87)));
    assert!(!reg.key_hook_live);
}

#[test]
fn hook_error_maps_to_listen_error() {
    assert_eq!(ListenError::from(HookError::Key(3)), ListenError::KeyHookError(3));
    assert_eq!(ListenError::from(HookError::Mouse(4)), ListenError::MouseHookError(4));
}

#[test]
fn stop_tap_releases_everything_and_clears_the_slot() {
    let mut slot = CallbackSlot::new();
    let (mut reg, result) = listen_tap_flow(&mut slot, EventLog::new(), true, true, true);
    assert_eq!(result, Ok(()));
    slot.invoke(Event {
        event_type: EventType::KeyPress(Key::KeyA),
        time: Timestamp { millis: 0 },
        name: None,
    });

    let removed = stop_tap(&mut reg, &mut slot);
    assert_eq!(reg.phase, TapPhase::Stopped);
    assert!(!reg.tap_live && !reg.source_live && !reg.enabled);
    assert!(!slot.is_armed());
    assert_eq!(removed.unwrap().events.len(), 1);
}

#[test]
fn stop_tap_twice_is_a_no_op_the_second_time() {
    let mut slot = CallbackSlot::new();
    let (mut reg, result) = listen_tap_flow(&mut slot, EventLog::new(), true, true, true);
    assert_eq!(result, Ok(()));

    let first = stop_tap(&mut reg, &mut slot);
    assert!(first.is_some());

    let second = stop_tap(&mut reg, &mut slot);
    assert!(second.is_none());
    assert_eq!(reg.phase, TapPhase::Stopped);
    assert!(!slot.is_armed());

    // The emptied slot still swallows late in-flight events.
    slot.invoke(Event {
        event_type: EventType::KeyPress(Key::KeyB),
        time: Timestamp { millis: 1 },
        name: None,
    });
    assert!(!slot.is_armed());
}

#[test]
fn stop_hooks_twice_is_a_no_op_the_second_time() {
    let mut slot = CallbackSlot::new();
    let (mut reg, result) = listen_hook_flow(&mut slot, EventLog::new(), Ok(()), Ok(()));
    assert_eq!(result, Ok(()));

    assert!(stop_hooks(&mut reg, &mut slot).is_some());
    assert!(stop_hooks(&mut reg, &mut slot).is_none());
    assert_eq!(reg.phase, HookPhase::Stopped);
    assert!(!reg.key_hook_live && !reg.mouse_hook_live);
    assert!(!slot.is_armed());
}
