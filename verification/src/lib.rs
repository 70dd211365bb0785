//! Process-wide listeners for global keyboard and mouse input.
//!
//! The library normalizes raw native input records into a canonical
//! [`Event`], tracks the keyboard modifier state needed to resolve key
//! names, manages the single global callback slot that native hooks
//! deliver into, and drives the step-by-step registration and teardown
//! of the platform hooks. The platform bindings themselves (event taps,
//! hook chains, run loops) sit outside this crate and report each
//! step's outcome back to the registration state machines here.

pub mod dispatch;
pub mod events;
pub mod keyboard;
pub mod normalize;
pub mod registrar;
pub mod slot;

pub use events::{Button, Event, EventType, HookError, Key, ListenError, Timestamp};
pub use keyboard::KeyboardState;
pub use normalize::RawRecord;
pub use slot::{CallbackSlot, EventLog, EventSink};
