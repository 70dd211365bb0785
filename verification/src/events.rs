//! The canonical cross-platform event vocabulary: keys, buttons, event
//! types, timestamps, the delivered `Event` record, and the error
//! vocabulary of listener registration.

use vstd::prelude::*;

verus! {

/// A physical key, identified independently of the platform's raw codes.
///
/// Raw native key codes are mapped into this closed set by the decode
/// table; codes outside the table are carried as `Unknown`.
#[derive(Clone, Copy, PartialEq, Eq, Structural, Debug, Hash)]
pub enum Key {
    Alt,
    Backspace,
    CapsLock,
    ControlLeft,
    ControlRight,
    Escape,
    Return,
    ShiftLeft,
    ShiftRight,
    Space,
    Tab,
    KeyA,
    KeyB,
    KeyC,
    KeyD,
    KeyE,
    KeyF,
    KeyG,
    KeyH,
    KeyI,
    KeyJ,
    KeyK,
    KeyL,
    KeyM,
    KeyN,
    KeyO,
    KeyP,
    KeyQ,
    KeyR,
    KeyS,
    KeyT,
    KeyU,
    KeyV,
    KeyW,
    KeyX,
    KeyY,
    KeyZ,
    Num0,
    Num1,
    Num2,
    Num3,
    Num4,
    Num5,
    Num6,
    Num7,
    Num8,
    Num9,
    Unknown(u32),
}

/// A mouse button. Codes outside the known set are carried as `Unknown`.
#[derive(Clone, Copy, PartialEq, Eq, Structural, Debug, Hash)]
pub enum Button {
    Left,
    Right,
    Middle,
    Unknown(u8),
}

/// The canonical variant set every recognized native record decodes to.
///
/// Coordinates and wheel deltas are integral: pixel positions for
/// `MouseMove`, line steps for `Wheel`.
#[derive(Clone, Copy, PartialEq, Eq, Structural, Debug)]
pub enum EventType {
    KeyPress(Key),
    KeyRelease(Key),
    ButtonPress(Button),
    ButtonRelease(Button),
    MouseMove { x: i64, y: i64 },
    Wheel { delta_x: i64, delta_y: i64 },
}

/// A moment in time, as milliseconds since the Unix epoch.
///
/// Captured at normalization time, not taken from any native timestamp
/// field: it orders events by delivery, not by hardware arrival.
#[derive(Clone, Copy, PartialEq, Eq, Structural, Debug)]
pub struct Timestamp {
    pub millis: u64,
}

/// The delivered payload: what kind of input occurred, when it was
/// normalized, and — for key presses — the resolved display name of the
/// key, when the keyboard state could resolve one.
#[derive(PartialEq, Debug)]
pub struct Event {
    pub event_type: EventType,
    pub time: Timestamp,
    pub name: Option<String>,
}

impl Clone for Event {
    /// A clone is equal to the original, field for field.
    fn clone(&self) -> (res: Event)
        ensures
            res == self,
    {
        Event {
            event_type: self.event_type,
            time: self.time,
            name: match &self.name {
                Some(n) => Some(n.clone()),
                None => None,
            },
        }
    }
}

/// A failure while installing one of the two native hooks, with the
/// native error code of the call that failed.
#[derive(Clone, Copy, PartialEq, Eq, Structural, Debug)]
pub enum HookError {
    Mouse(u32),
    Key(u32),
}

/// Why `listen` failed. Each variant names exactly the registration
/// step that failed; hook variants carry the native error code.
#[derive(Clone, Copy, PartialEq, Eq, Structural, Debug)]
pub enum ListenError {
    /// The event tap could not be created.
    EventTapError,
    /// The run-loop source for the tap could not be created.
    LoopSourceError,
    /// The tap was created and enabled, but did not report itself enabled.
    EventTapDisabled,
    /// Installing the mouse hook failed with this native code.
    MouseHookError(u32),
    /// Installing the key hook failed with this native code.
    KeyHookError(u32),
}

impl From<HookError> for ListenError {
    /// Each hook failure maps to the listen error of the same hook,
    /// keeping the native code.
    fn from(error: HookError) -> (r: ListenError) {
        match error {
            HookError::Mouse(code) => ListenError::MouseHookError(code),
            HookError::Key(code) => ListenError::KeyHookError(code),
        }
    }
}

impl vstd::std_specs::convert::FromSpecImpl<HookError> for ListenError {
    open spec fn obeys_from_spec() -> bool {
        true
    }

    open spec fn from_spec(error: HookError) -> ListenError {
        match error {
            HookError::Mouse(code) => ListenError::MouseHookError(code),
            HookError::Key(code) => ListenError::KeyHookError(code),
        }
    }
}

} // verus!
