//! The event normalizer: from a raw native record to a canonical
//! [`Event`].
//!
//! A raw record carries the plain data a native callback hands over:
//! an event-kind code, a key or button code, and coordinate or wheel
//! payload. The platform binding translates its native kind codes to
//! the canonical kind constants here; the decode table then maps a
//! record to an [`EventType`], or to nothing when the kind is not
//! recognized — unrecognized records are silently dropped, never an
//! error.

use vstd::prelude::*;
use crate::events::{Button, Event, EventType, Key, Timestamp};
use crate::keyboard::{name_spec, opt_name_view, step_spec, KeyboardState};

verus! {

/// Kind code of a key-press record.
pub const KIND_KEY_PRESS: u32 = 1;

/// Kind code of a key-release record.
pub const KIND_KEY_RELEASE: u32 = 2;

/// Kind code of a mouse-button-press record.
pub const KIND_BUTTON_PRESS: u32 = 3;

/// Kind code of a mouse-button-release record.
pub const KIND_BUTTON_RELEASE: u32 = 4;

/// Kind code of a mouse-move record.
pub const KIND_MOUSE_MOVE: u32 = 5;

/// Kind code of a wheel record.
pub const KIND_WHEEL: u32 = 6;

/// A raw native input record, reduced to the plain values the decode
/// table reads: the kind of event, the native key or button code, and
/// the coordinate or wheel payload.
#[derive(Clone, Copy, PartialEq, Eq, Structural, Debug)]
pub struct RawRecord {
    pub kind: u32,
    pub code: u32,
    pub x: i64,
    pub y: i64,
    pub delta_x: i64,
    pub delta_y: i64,
}

/// The key a native virtual-key code decodes to. Codes follow the
/// virtual-key numbering (letters at 65..=90, digits at 48..=57);
/// anything else is carried as `Unknown`.
pub open spec fn key_of_code(code: u32) -> Key {
    if code == 8 {
        Key::Backspace
    } else if code == 9 {
        Key::Tab
    } else if code == 13 {
        Key::Return
    } else if code == 18 {
        Key::Alt
    } else if code == 20 {
        Key::CapsLock
    } else if code == 27 {
        Key::Escape
    } else if code == 32 {
        Key::Space
    } else if code == 160 {
        Key::ShiftLeft
    } else if code == 161 {
        Key::ShiftRight
    } else if code == 162 {
        Key::ControlLeft
    } else if code == 163 {
        Key::ControlRight
    } else if code == 48 {
        Key::Num0
    } else if code == 49 {
        Key::Num1
    } else if code == 50 {
        Key::Num2
    } else if code == 51 {
        Key::Num3
    } else if code == 52 {
        Key::Num4
    } else if code == 53 {
        Key::Num5
    } else if code == 54 {
        Key::Num6
    } else if code == 55 {
        Key::Num7
    } else if code == 56 {
        Key::Num8
    } else if code == 57 {
        Key::Num9
    } else if code == 65 {
        Key::KeyA
    } else if code == 66 {
        Key::KeyB
    } else if code == 67 {
        Key::KeyC
    } else if code == 68 {
        Key::KeyD
    } else if code == 69 {
        Key::KeyE
    } else if code == 70 {
        Key::KeyF
    } else if code == 71 {
        Key::KeyG
    } else if code == 72 {
        Key::KeyH
    } else if code == 73 {
        Key::KeyI
    } else if code == 74 {
        Key::KeyJ
    } else if code == 75 {
        Key::KeyK
    } else if code == 76 {
        Key::KeyL
    } else if code == 77 {
        Key::KeyM
    } else if code == 78 {
        Key::KeyN
    } else if code == 79 {
        Key::KeyO
    } else if code == 80 {
        Key::KeyP
    } else if code == 81 {
        Key::KeyQ
    } else if code == 82 {
        Key::KeyR
    } else if code == 83 {
        Key::KeyS
    } else if code == 84 {
        Key::KeyT
    } else if code == 85 {
        Key::KeyU
    } else if code == 86 {
        Key::KeyV
    } else if code == 87 {
        Key::KeyW
    } else if code == 88 {
        Key::KeyX
    } else if code == 89 {
        Key::KeyY
    } else if code == 90 {
        Key::KeyZ
    } else {
        Key::Unknown(code)
    }
}

/// The button a native button code decodes to.
pub open spec fn button_of_code(code: u32) -> Button {
    if code == 0 {
        Button::Left
    } else if code == 1 {
        Button::Right
    } else if code == 2 {
        Button::Middle
    } else if code <= 255 {
        Button::Unknown(code as u8)
    } else {
        Button::Unknown(255)
    }
}

/// The decode table: which canonical event, if any, a raw record maps
/// to. `None` exactly when the kind code is outside the table.
pub open spec fn decode_spec(raw: RawRecord) -> Option<EventType> {
    if raw.kind == KIND_KEY_PRESS {
        Some(EventType::KeyPress(key_of_code(raw.code)))
    } else if raw.kind == KIND_KEY_RELEASE {
        Some(EventType::KeyRelease(key_of_code(raw.code)))
    } else if raw.kind == KIND_BUTTON_PRESS {
        Some(EventType::ButtonPress(button_of_code(raw.code)))
    } else if raw.kind == KIND_BUTTON_RELEASE {
        Some(EventType::ButtonRelease(button_of_code(raw.code)))
    } else if raw.kind == KIND_MOUSE_MOVE {
        Some(EventType::MouseMove { x: raw.x, y: raw.y })
    } else if raw.kind == KIND_WHEEL {
        Some(EventType::Wheel { delta_x: raw.delta_x, delta_y: raw.delta_y })
    } else {
        None
    }
}

/// The modifier state a record leaves behind: key events advance the
/// state, everything else leaves it untouched.
pub open spec fn state_after_spec(state: KeyboardState, raw: RawRecord) -> KeyboardState {
    match decode_spec(raw) {
        Some(event_type) => step_spec(state, event_type),
        None => state,
    }
}

/// The name a normalized record carries: resolved for key presses only,
/// in the modifier context that includes the press itself; `None` for
/// every other event kind.
pub open spec fn name_after_spec(state: KeyboardState, raw: RawRecord) -> Option<Seq<char>> {
    match decode_spec(raw) {
        Some(EventType::KeyPress(key)) => name_spec(
            key,
            step_spec(state, EventType::KeyPress(key)).upper_active(),
        ),
        _ => None,
    }
}

/// Decode a raw record against the table.
pub fn decode(raw: RawRecord) -> (r: Option<EventType>)
    ensures
        r == decode_spec(raw),
{
    if raw.kind == KIND_KEY_PRESS {
        Some(EventType::KeyPress(key_from_code(raw.code)))
    } else if raw.kind == KIND_KEY_RELEASE {
        Some(EventType::KeyRelease(key_from_code(raw.code)))
    } else if raw.kind == KIND_BUTTON_PRESS {
        Some(EventType::ButtonPress(button_from_code(raw.code)))
    } else if raw.kind == KIND_BUTTON_RELEASE {
        Some(EventType::ButtonRelease(button_from_code(raw.code)))
    } else if raw.kind == KIND_MOUSE_MOVE {
        Some(EventType::MouseMove { x: raw.x, y: raw.y })
    } else if raw.kind == KIND_WHEEL {
        Some(EventType::Wheel { delta_x: raw.delta_x, delta_y: raw.delta_y })
    } else {
        None
    }
}

/// Decode a native virtual-key code.
pub fn key_from_code(code: u32) -> (key: Key)
    ensures
        key == key_of_code(code),
{
    if code == 8 {
        Key::Backspace
    } else if code == 9 {
        Key::Tab
    } else if code == 13 {
        Key::Return
    } else if code == 18 {
        Key::Alt
    } else if code == 20 {
        Key::CapsLock
    } else if code == 27 {
        Key::Escape
    } else if code == 32 {
        Key::Space
    } else if code == 160 {
        Key::ShiftLeft
    } else if code == 161 {
        Key::ShiftRight
    } else if code == 162 {
        Key::ControlLeft
    } else if code == 163 {
        Key::ControlRight
    } else if 48 <= code && code <= 57 {
        key_from_digit(code)
    } else if 65 <= code && code <= 90 {
        key_from_letter(code)
    } else {
        Key::Unknown(code)
    }
}

/// Decode a digit virtual-key code (48..=57).
fn key_from_digit(code: u32) -> (key: Key)
    requires
        48 <= code <= 57,
    ensures
        key == key_of_code(code),
{
    if code == 48 {
        Key::Num0
    } else if code == 49 {
        Key::Num1
    } else if code == 50 {
        Key::Num2
    } else if code == 51 {
        Key::Num3
    } else if code == 52 {
        Key::Num4
    } else if code == 53 {
        Key::Num5
    } else if code == 54 {
        Key::Num6
    } else if code == 55 {
        Key::Num7
    } else if code == 56 {
        Key::Num8
    } else {
        Key::Num9
    }
}

/// Decode a letter virtual-key code (65..=90).
fn key_from_letter(code: u32) -> (key: Key)
    requires
        65 <= code <= 90,
    ensures
        key == key_of_code(code),
{
    if code == 65 {
        Key::KeyA
    } else if code == 66 {
        Key::KeyB
    } else if code == 67 {
        Key::KeyC
    } else if code == 68 {
        Key::KeyD
    } else if code == 69 {
        Key::KeyE
    } else if code == 70 {
        Key::KeyF
    } else if code == 71 {
        Key::KeyG
    } else if code == 72 {
        Key::KeyH
    } else if code == 73 {
        Key::KeyI
    } else if code == 74 {
        Key::KeyJ
    } else if code == 75 {
        Key::KeyK
    } else if code == 76 {
        Key::KeyL
    } else if code == 77 {
        Key::KeyM
    } else if code == 78 {
        Key::KeyN
    } else if code == 79 {
        Key::KeyO
    } else if code == 80 {
        Key::KeyP
    } else if code == 81 {
        Key::KeyQ
    } else if code == 82 {
        Key::KeyR
    } else if code == 83 {
        Key::KeyS
    } else if code == 84 {
        Key::KeyT
    } else if code == 85 {
        Key::KeyU
    } else if code == 86 {
        Key::KeyV
    } else if code == 87 {
        Key::KeyW
    } else if code == 88 {
        Key::KeyX
    } else if code == 89 {
        Key::KeyY
    } else {
        Key::KeyZ
    }
}

/// Decode a native button code.
pub fn button_from_code(code: u32) -> (button: Button)
    ensures
        button == button_of_code(code),
{
    if code == 0 {
        Button::Left
    } else if code == 1 {
        Button::Right
    } else if code == 2 {
        Button::Middle
    } else if code <= 255 {
        Button::Unknown(code as u8)
    } else {
        Button::Unknown(255)
    }
}

/// Normalize one raw record: decode it, advance the modifier state for
/// key events, and — for key presses — resolve the display name.
///
/// Returns `Some` exactly when the decode table recognizes the record,
/// with the decoded event type, the given timestamp, and the resolved
/// name; returns `None`, with the state untouched, otherwise. Name
/// resolution never fails the normalization: an unresolvable key gives
/// an event whose name is `None`.
pub fn normalize(raw: RawRecord, state: &mut KeyboardState, now: Timestamp) -> (r: Option<Event>)
    ensures
        *final(state) == state_after_spec(*old(state), raw),
        match decode_spec(raw) {
            Some(event_type) => match r {
                Some(event) => {
                    &&& event.event_type == event_type
                    &&& event.time == now
                    &&& opt_name_view(event.name) == name_after_spec(*old(state), raw)
                },
                None => false,
            },
            None => r is None,
        },
{
    match decode(raw) {
        Some(event_type) => {
            state.update(event_type);
            let name: Option<String> = match event_type {
                EventType::KeyPress(key) => state.get_name(key),
                _ => None,
            };
            Some(Event { event_type, time: now, name })
        }
        None => None,
    }
}

} // verus!
