//! The shared keyboard state: the modifier context needed to resolve a
//! key to an optional display name.
//!
//! The state tracks the two shift keys and the caps-lock toggle. Name
//! resolution covers the layout-independent part of a keyboard: letters
//! (case following shift and caps lock), digits and space. Shifted
//! digits and everything else resolve to `None`, never to an error:
//! resolution failures are absorbed by design.

use vstd::prelude::*;
use vstd::string::StringExecFns;
use crate::events::{EventType, Key};

verus! {

/// What a key resolves to under a given letter case: the name's
/// characters, or nothing when the key has no layout-independent name.
pub open spec fn name_spec(key: Key, upper: bool) -> Option<Seq<char>> {
    match key {
        Key::KeyA => Some(if upper { "A"@ } else { "a"@ }),
        Key::KeyB => Some(if upper { "B"@ } else { "b"@ }),
        Key::KeyC => Some(if upper { "C"@ } else { "c"@ }),
        Key::KeyD => Some(if upper { "D"@ } else { "d"@ }),
        Key::KeyE => Some(if upper { "E"@ } else { "e"@ }),
        Key::KeyF => Some(if upper { "F"@ } else { "f"@ }),
        Key::KeyG => Some(if upper { "G"@ } else { "g"@ }),
        Key::KeyH => Some(if upper { "H"@ } else { "h"@ }),
        Key::KeyI => Some(if upper { "I"@ } else { "i"@ }),
        Key::KeyJ => Some(if upper { "J"@ } else { "j"@ }),
        Key::KeyK => Some(if upper { "K"@ } else { "k"@ }),
        Key::KeyL => Some(if upper { "L"@ } else { "l"@ }),
        Key::KeyM => Some(if upper { "M"@ } else { "m"@ }),
        Key::KeyN => Some(if upper { "N"@ } else { "n"@ }),
        Key::KeyO => Some(if upper { "O"@ } else { "o"@ }),
        Key::KeyP => Some(if upper { "P"@ } else { "p"@ }),
        Key::KeyQ => Some(if upper { "Q"@ } else { "q"@ }),
        Key::KeyR => Some(if upper { "R"@ } else { "r"@ }),
        Key::KeyS => Some(if upper { "S"@ } else { "s"@ }),
        Key::KeyT => Some(if upper { "T"@ } else { "t"@ }),
        Key::KeyU => Some(if upper { "U"@ } else { "u"@ }),
        Key::KeyV => Some(if upper { "V"@ } else { "v"@ }),
        Key::KeyW => Some(if upper { "W"@ } else { "w"@ }),
        Key::KeyX => Some(if upper { "X"@ } else { "x"@ }),
        Key::KeyY => Some(if upper { "Y"@ } else { "y"@ }),
        Key::KeyZ => Some(if upper { "Z"@ } else { "z"@ }),
        Key::Num0 => if upper { None } else { Some("0"@) },
        Key::Num1 => if upper { None } else { Some("1"@) },
        Key::Num2 => if upper { None } else { Some("2"@) },
        Key::Num3 => if upper { None } else { Some("3"@) },
        Key::Num4 => if upper { None } else { Some("4"@) },
        Key::Num5 => if upper { None } else { Some("5"@) },
        Key::Num6 => if upper { None } else { Some("6"@) },
        Key::Num7 => if upper { None } else { Some("7"@) },
        Key::Num8 => if upper { None } else { Some("8"@) },
        Key::Num9 => if upper { None } else { Some("9"@) },
        Key::Space => Some(" "@),
        _ => None,
    }
}

/// The characters of an optional string, for relating an executable
/// `Option<String>` result to `name_spec`.
pub open spec fn opt_name_view(o: Option<String>) -> Option<Seq<char>> {
    match o {
        Some(s) => Some(s@),
        None => None,
    }
}

/// Modifier context tracked across key events: which shift keys are
/// held and whether caps lock is on.
#[derive(Clone, Copy, PartialEq, Eq, Structural, Debug)]
pub struct KeyboardState {
    pub shift_left: bool,
    pub shift_right: bool,
    pub caps_lock: bool,
}

/// The state that a key event leaves the modifier context in: presses
/// and releases of the shift keys track their held state, a caps-lock
/// press toggles the lock, and every other event leaves the context
/// unchanged.
pub open spec fn step_spec(state: KeyboardState, event_type: EventType) -> KeyboardState {
    match event_type {
        EventType::KeyPress(Key::ShiftLeft) => KeyboardState { shift_left: true, ..state },
        EventType::KeyRelease(Key::ShiftLeft) => KeyboardState { shift_left: false, ..state },
        EventType::KeyPress(Key::ShiftRight) => KeyboardState { shift_right: true, ..state },
        EventType::KeyRelease(Key::ShiftRight) => KeyboardState { shift_right: false, ..state },
        EventType::KeyPress(Key::CapsLock) => (KeyboardState {
            caps_lock: !state.caps_lock,
            ..state
        }),
        _ => state,
    }
}

impl KeyboardState {
    /// Whether some shift key is currently held.
    pub open spec fn shift_active(self) -> bool {
        self.shift_left || self.shift_right
    }

    /// Whether a letter typed now comes out upper case: exactly one of
    /// shift and caps lock is in effect.
    pub open spec fn upper_active(self) -> bool {
        self.shift_active() != self.caps_lock
    }

    /// The initial state: no shift held, caps lock off.
    pub fn new() -> (state: KeyboardState)
        ensures
            state == (KeyboardState { shift_left: false, shift_right: false, caps_lock: false }),
    {
        KeyboardState { shift_left: false, shift_right: false, caps_lock: false }
    }

    /// Advance the modifier context by one decoded event.
    pub fn update(&mut self, event_type: EventType)
        ensures
            *final(self) == step_spec(*old(self), event_type),
    {
        match event_type {
            EventType::KeyPress(Key::ShiftLeft) => {
                self.shift_left = true;
            }
            EventType::KeyRelease(Key::ShiftLeft) => {
                self.shift_left = false;
            }
            EventType::KeyPress(Key::ShiftRight) => {
                self.shift_right = true;
            }
            EventType::KeyRelease(Key::ShiftRight) => {
                self.shift_right = false;
            }
            EventType::KeyPress(Key::CapsLock) => {
                self.caps_lock = !self.caps_lock;
            }
            _ => {}
        }
    }

    /// Resolve a key to its display name in the current modifier
    /// context. Keys without a layout-independent name resolve to
    /// `None`; resolution never fails otherwise.
    pub fn get_name(&self, key: Key) -> (r: Option<String>)
        ensures
            opt_name_view(r) == name_spec(key, self.upper_active()),
    {
        resolve_name(key, (self.shift_left || self.shift_right) != self.caps_lock)
    }
}

/// Resolve a key under an explicit letter case.
pub fn resolve_name(key: Key, upper: bool) -> (r: Option<String>)
    ensures
        opt_name_view(r) == name_spec(key, upper),
{
    match key {
        Key::KeyA => Some(if upper { String::from_str("A") } else { String::from_str("a") }),
        Key::KeyB => Some(if upper { String::from_str("B") } else { String::from_str("b") }),
        Key::KeyC => Some(if upper { String::from_str("C") } else { String::from_str("c") }),
        Key::KeyD => Some(if upper { String::from_str("D") } else { String::from_str("d") }),
        Key::KeyE => Some(if upper { String::from_str("E") } else { String::from_str("e") }),
        Key::KeyF => Some(if upper { String::from_str("F") } else { String::from_str("f") }),
        Key::KeyG => Some(if upper { String::from_str("G") } else { String::from_str("g") }),
        Key::KeyH => Some(if upper { String::from_str("H") } else { String::from_str("h") }),
        Key::KeyI => Some(if upper { String::from_str("I") } else { String::from_str("i") }),
        Key::KeyJ => Some(if upper { String::from_str("J") } else { String::from_str("j") }),
        Key::KeyK => Some(if upper { String::from_str("K") } else { String::from_str("k") }),
        Key::KeyL => Some(if upper { String::from_str("L") } else { String::from_str("l") }),
        Key::KeyM => Some(if upper { String::from_str("M") } else { String::from_str("m") }),
        Key::KeyN => Some(if upper { String::from_str("N") } else { String::from_str("n") }),
        Key::KeyO => Some(if upper { String::from_str("O") } else { String::from_str("o") }),
        Key::KeyP => Some(if upper { String::from_str("P") } else { String::from_str("p") }),
        Key::KeyQ => Some(if upper { String::from_str("Q") } else { String::from_str("q") }),
        Key::KeyR => Some(if upper { String::from_str("R") } else { String::from_str("r") }),
        Key::KeyS => Some(if upper { String::from_str("S") } else { String::from_str("s") }),
        Key::KeyT => Some(if upper { String::from_str("T") } else { String::from_str("t") }),
        Key::KeyU => Some(if upper { String::from_str("U") } else { String::from_str("u") }),
        Key::KeyV => Some(if upper { String::from_str("V") } else { String::from_str("v") }),
        Key::KeyW => Some(if upper { String::from_str("W") } else { String::from_str("w") }),
        Key::KeyX => Some(if upper { String::from_str("X") } else { String::from_str("x") }),
        Key::KeyY => Some(if upper { String::from_str("Y") } else { String::from_str("y") }),
        Key::KeyZ => Some(if upper { String::from_str("Z") } else { String::from_str("z") }),
        Key::Num0 => if upper { None } else { Some(String::from_str("0")) },
        Key::Num1 => if upper { None } else { Some(String::from_str("1")) },
        Key::Num2 => if upper { None } else { Some(String::from_str("2")) },
        Key::Num3 => if upper { None } else { Some(String::from_str("3")) },
        Key::Num4 => if upper { None } else { Some(String::from_str("4")) },
        Key::Num5 => if upper { None } else { Some(String::from_str("5")) },
        Key::Num6 => if upper { None } else { Some(String::from_str("6")) },
        Key::Num7 => if upper { None } else { Some(String::from_str("7")) },
        Key::Num8 => if upper { None } else { Some(String::from_str("8")) },
        Key::Num9 => if upper { None } else { Some(String::from_str("9")) },
        Key::Space => Some(String::from_str(" ")),
        _ => None,
    }
}

} // verus!
