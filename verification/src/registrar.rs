//! The listener registrar: the decision logic of registration and
//! teardown, as state machines over the outcomes of the native calls.
//!
//! The platform binding performs each native step (create a tap, set a
//! hook, ...) and reports its outcome; the machines here decide the
//! next step, fail fast with the error variant naming the failed step,
//! and prescribe the cleanup that keeps a failed registration from
//! leaving any native resource active. Two flows exist, matching the
//! two native mechanisms: an event-tap flow (create tap, create
//! run-loop source, arm, confirm enabled, then pump the run loop) and
//! a hook-pair flow (install the key hook, then the mouse hook).
//!
//! The callback is installed into the slot *before* any native step
//! arms a hook, so no event can arrive while the slot is still empty.

use vstd::prelude::*;
use crate::events::{HookError, ListenError};
use crate::slot::{CallbackSlot, EventSink};

verus! {

/// Where the event-tap flow stands.
#[derive(Clone, Copy, PartialEq, Eq, Structural, Debug)]
pub enum TapPhase {
    /// Next native step: create the event tap.
    CreatingTap,
    /// Next native step: create the run-loop source for the tap.
    CreatingSource,
    /// Next native step: add the source to the run loop and enable the tap.
    Arming,
    /// Next native step: ask the tap whether it is enabled.
    Confirming,
    /// Registration succeeded; the run loop may be pumped.
    Active,
    /// Registration failed; the error names the failed step.
    Failed,
    /// The listener was stopped and its resources released.
    Stopped,
}

/// The cleanup a failed or stopping step prescribes; the platform
/// binding must perform it before anything else.
#[derive(Clone, Copy, PartialEq, Eq, Structural, Debug)]
pub enum TapCleanup {
    /// Nothing was left to release.
    Nothing,
    /// Invalidate the tap.
    ReleaseTap,
    /// Disable the tap, remove the source from the run loop, and
    /// invalidate the tap.
    DisableAndRelease,
}

/// The event-tap registration machine. The resource flags mirror which
/// native resources are live after the prescribed cleanup is done.
#[derive(Clone, Copy, PartialEq, Eq, Structural, Debug)]
pub struct TapRegistrar {
    pub phase: TapPhase,
    pub error: Option<ListenError>,
    pub tap_live: bool,
    pub source_live: bool,
    pub enabled: bool,
}

/// The state one reported outcome moves the tap machine to. A failed
/// step moves to `Failed` with the error naming that step, and with
/// every resource flag cleared — the machine prescribes the matching
/// cleanup. The arming step's native calls return nothing, so its
/// report always advances. Terminal states ignore further reports.
pub open spec fn tap_step_spec(s: TapRegistrar, ok: bool) -> TapRegistrar {
    match s.phase {
        TapPhase::CreatingTap => if ok {
            TapRegistrar { phase: TapPhase::CreatingSource, tap_live: true, ..s }
        } else {
            TapRegistrar { phase: TapPhase::Failed, error: Some(ListenError::EventTapError), ..s }
        },
        TapPhase::CreatingSource => if ok {
            TapRegistrar { phase: TapPhase::Arming, source_live: true, ..s }
        } else {
            TapRegistrar {
                phase: TapPhase::Failed,
                error: Some(ListenError::LoopSourceError),
                tap_live: false,
                ..s
            }
        },
        TapPhase::Arming => TapRegistrar { phase: TapPhase::Confirming, enabled: true, ..s },
        TapPhase::Confirming => if ok {
            TapRegistrar { phase: TapPhase::Active, ..s }
        } else {
            TapRegistrar {
                phase: TapPhase::Failed,
                error: Some(ListenError::EventTapDisabled),
                tap_live: false,
                source_live: false,
                enabled: false,
                ..s
            }
        },
        _ => s,
    }
}

/// The cleanup one reported outcome prescribes.
pub open spec fn tap_cleanup_spec(s: TapRegistrar, ok: bool) -> TapCleanup {
    match s.phase {
        TapPhase::CreatingSource => if ok {
            TapCleanup::Nothing
        } else {
            TapCleanup::ReleaseTap
        },
        TapPhase::Confirming => if ok {
            TapCleanup::Nothing
        } else {
            TapCleanup::DisableAndRelease
        },
        _ => TapCleanup::Nothing,
    }
}

impl TapRegistrar {
    /// No native resource is live.
    pub open spec fn nothing_live(self) -> bool {
        !self.tap_live && !self.source_live && !self.enabled
    }

    /// The machine has reached a terminal state.
    pub open spec fn terminal(self) -> bool {
        self.phase == TapPhase::Active || self.phase == TapPhase::Failed || self.phase
            == TapPhase::Stopped
    }

    /// A fresh machine, about to request the event tap.
    pub fn new() -> (reg: TapRegistrar)
        ensures
            reg == (TapRegistrar {
                phase: TapPhase::CreatingTap,
                error: None,
                tap_live: false,
                source_live: false,
                enabled: false,
            }),
    {
        TapRegistrar {
            phase: TapPhase::CreatingTap,
            error: None,
            tap_live: false,
            source_live: false,
            enabled: false,
        }
    }

    /// Report the outcome of the current native step; the returned
    /// cleanup must be performed at once.
    pub fn report(&mut self, ok: bool) -> (cleanup: TapCleanup)
        ensures
            *final(self) == tap_step_spec(*old(self), ok),
            cleanup == tap_cleanup_spec(*old(self), ok),
    {
        match self.phase {
            TapPhase::CreatingTap => {
                if ok {
                    self.phase = TapPhase::CreatingSource;
                    self.tap_live = true;
                } else {
                    self.phase = TapPhase::Failed;
                    self.error = Some(ListenError::EventTapError);
                }
                TapCleanup::Nothing
            }
            TapPhase::CreatingSource => {
                if ok {
                    self.phase = TapPhase::Arming;
                    self.source_live = true;
                    TapCleanup::Nothing
                } else {
                    self.phase = TapPhase::Failed;
                    self.error = Some(ListenError::LoopSourceError);
                    self.tap_live = false;
                    TapCleanup::ReleaseTap
                }
            }
            TapPhase::Arming => {
                self.phase = TapPhase::Confirming;
                self.enabled = true;
                TapCleanup::Nothing
            }
            TapPhase::Confirming => {
                if ok {
                    self.phase = TapPhase::Active;
                    TapCleanup::Nothing
                } else {
                    self.phase = TapPhase::Failed;
                    self.error = Some(ListenError::EventTapDisabled);
                    self.tap_live = false;
                    self.source_live = false;
                    self.enabled = false;
                    TapCleanup::DisableAndRelease
                }
            }
            _ => TapCleanup::Nothing,
        }
    }
}

/// Where the hook-pair flow stands.
#[derive(Clone, Copy, PartialEq, Eq, Structural, Debug)]
pub enum HookPhase {
    /// Next native step: install the key hook.
    SettingKeyHook,
    /// Next native step: install the mouse hook.
    SettingMouseHook,
    /// Registration succeeded; both hooks are live.
    Active,
    /// Registration failed; the error names the failed hook.
    Failed,
    /// The listener was stopped and its hooks removed.
    Stopped,
}

/// The cleanup a failed hook step prescribes.
#[derive(Clone, Copy, PartialEq, Eq, Structural, Debug)]
pub enum HookCleanup {
    /// Nothing was left to remove.
    Nothing,
    /// Remove the already-installed key hook.
    RemoveKeyHook,
}

/// The hook-pair registration machine.
#[derive(Clone, Copy, PartialEq, Eq, Structural, Debug)]
pub struct HookRegistrar {
    pub phase: HookPhase,
    pub error: Option<ListenError>,
    pub key_hook_live: bool,
    pub mouse_hook_live: bool,
}

/// The state one reported hook outcome moves the machine to: a failed
/// install carries the native code into the error of the failed hook,
/// and a mouse-hook failure also gives up the key hook already set.
pub open spec fn hook_step_spec(s: HookRegistrar, outcome: Result<(), u32>) -> HookRegistrar {
    match s.phase {
        HookPhase::SettingKeyHook => match outcome {
            Ok(()) => HookRegistrar { phase: HookPhase::SettingMouseHook, key_hook_live: true, ..s },
            Err(code) => HookRegistrar {
                phase: HookPhase::Failed,
                error: Some(ListenError::KeyHookError(code)),
                ..s
            },
        },
        HookPhase::SettingMouseHook => match outcome {
            Ok(()) => HookRegistrar { phase: HookPhase::Active, mouse_hook_live: true, ..s },
            Err(code) => HookRegistrar {
                phase: HookPhase::Failed,
                error: Some(ListenError::MouseHookError(code)),
                key_hook_live: false,
                ..s
            },
        },
        _ => s,
    }
}

/// The cleanup one reported hook outcome prescribes.
pub open spec fn hook_cleanup_spec(s: HookRegistrar, outcome: Result<(), u32>) -> HookCleanup {
    match s.phase {
        HookPhase::SettingMouseHook => match outcome {
            Ok(()) => HookCleanup::Nothing,
            Err(_) => HookCleanup::RemoveKeyHook,
        },
        _ => HookCleanup::Nothing,
    }
}

impl HookRegistrar {
    /// No native hook is live.
    pub open spec fn nothing_live(self) -> bool {
        !self.key_hook_live && !self.mouse_hook_live
    }

    /// The machine has reached a terminal state.
    pub open spec fn terminal(self) -> bool {
        self.phase == HookPhase::Active || self.phase == HookPhase::Failed || self.phase
            == HookPhase::Stopped
    }

    /// A fresh machine, about to install the key hook.
    pub fn new() -> (reg: HookRegistrar)
        ensures
            reg == (HookRegistrar {
                phase: HookPhase::SettingKeyHook,
                error: None,
                key_hook_live: false,
                mouse_hook_live: false,
            }),
    {
        HookRegistrar {
            phase: HookPhase::SettingKeyHook,
            error: None,
            key_hook_live: false,
            mouse_hook_live: false,
        }
    }

    /// Report the outcome of the current hook install — `Err` carries
    /// the native error code; the returned cleanup must be performed
    /// at once.
    pub fn report(&mut self, outcome: Result<(), u32>) -> (cleanup: HookCleanup)
        ensures
            *final(self) == hook_step_spec(*old(self), outcome),
            cleanup == hook_cleanup_spec(*old(self), outcome),
    {
        match self.phase {
            HookPhase::SettingKeyHook => {
                match outcome {
                    Ok(()) => {
                        self.phase = HookPhase::SettingMouseHook;
                        self.key_hook_live = true;
                    }
                    Err(code) => {
                        self.phase = HookPhase::Failed;
                        self.error = Some(ListenError::from(HookError::Key(code)));
                    }
                }
                HookCleanup::Nothing
            }
            HookPhase::SettingMouseHook => match outcome {
                Ok(()) => {
                    self.phase = HookPhase::Active;
                    self.mouse_hook_live = true;
                    HookCleanup::Nothing
                }
                Err(code) => {
                    self.phase = HookPhase::Failed;
                    self.error = Some(ListenError::from(HookError::Mouse(code)));
                    self.key_hook_live = false;
                    HookCleanup::RemoveKeyHook
                }
            },
            _ => HookCleanup::Nothing,
        }
    }
}

/// Run the event-tap registration to completion, given the outcome of
/// each native step: install the sink first, then create the tap,
/// create the run-loop source, arm, and confirm — failing fast at the
/// first step that fails, with the error naming that step, and with no
/// native resource left live and the slot emptied again. On success
/// the machine is active and the slot armed with the given sink.
pub fn listen_tap_flow<S: EventSink>(
    slot: &mut CallbackSlot<S>,
    sink: S,
    tap_ok: bool,
    source_ok: bool,
    confirmed: bool,
) -> (res: (TapRegistrar, Result<(), ListenError>))
    requires
        !old(slot).armed(),
    ensures
        res.0.terminal(),
        final(slot).invocation_count() == old(slot).invocation_count(),
        match res.1 {
            Ok(()) => {
                &&& tap_ok && source_ok && confirmed
                &&& res.0.phase == TapPhase::Active
                &&& res.0.error is None
                &&& res.0.tap_live && res.0.source_live && res.0.enabled
                &&& final(slot).armed()
                &&& final(slot).sink_log() == sink.delivered()
            },
            Err(e) => {
                &&& res.0.phase == TapPhase::Failed
                &&& res.0.error == Some(e)
                &&& res.0.nothing_live()
                &&& !final(slot).armed()
                &&& e == (if !tap_ok {
                    ListenError::EventTapError
                } else if !source_ok {
                    ListenError::LoopSourceError
                } else {
                    ListenError::EventTapDisabled
                })
                &&& !(tap_ok && source_ok && confirmed)
            },
        },
{
    let _ = slot.install(sink);
    let mut reg = TapRegistrar::new();
    let _ = reg.report(tap_ok);
    if reg.phase == TapPhase::Failed {
        let _ = slot.clear();
        let err = ListenError::EventTapError;
        return (reg, Err(err));
    }
    let _ = reg.report(source_ok);
    if reg.phase == TapPhase::Failed {
        let _ = slot.clear();
        let err = ListenError::LoopSourceError;
        return (reg, Err(err));
    }
    let _ = reg.report(true);
    let _ = reg.report(confirmed);
    if reg.phase == TapPhase::Failed {
        let _ = slot.clear();
        let err = ListenError::EventTapDisabled;
        return (reg, Err(err));
    }
    (reg, Ok(()))
}

/// Run the hook-pair registration to completion, given each install's
/// outcome: install the sink first, then the key hook, then the mouse
/// hook — failing fast with the error of the first hook that fails,
/// carrying its native code, with the other hook removed again and the
/// slot emptied. On success both hooks are live and the slot armed.
pub fn listen_hook_flow<S: EventSink>(
    slot: &mut CallbackSlot<S>,
    sink: S,
    key_outcome: Result<(), u32>,
    mouse_outcome: Result<(), u32>,
) -> (res: (HookRegistrar, Result<(), ListenError>))
    requires
        !old(slot).armed(),
    ensures
        res.0.terminal(),
        final(slot).invocation_count() == old(slot).invocation_count(),
        match res.1 {
            Ok(()) => {
                &&& key_outcome is Ok && mouse_outcome is Ok
                &&& res.0.phase == HookPhase::Active
                &&& res.0.error is None
                &&& res.0.key_hook_live && res.0.mouse_hook_live
                &&& final(slot).armed()
                &&& final(slot).sink_log() == sink.delivered()
            },
            Err(e) => {
                &&& res.0.phase == HookPhase::Failed
                &&& res.0.error == Some(e)
                &&& res.0.nothing_live()
                &&& !final(slot).armed()
                &&& e == (match key_outcome {
                    Err(code) => ListenError::KeyHookError(code),
                    Ok(()) => match mouse_outcome {
                        Err(code) => ListenError::MouseHookError(code),
                        Ok(()) => arbitrary(),
                    },
                })
                &&& !(key_outcome is Ok && mouse_outcome is Ok)
            },
        },
{
    let _ = slot.install(sink);
    let mut reg = HookRegistrar::new();
    let _ = reg.report(key_outcome);
    if reg.phase == HookPhase::Failed {
        let _ = slot.clear();
        match key_outcome {
            Err(code) => {
                return (reg, Err(ListenError::KeyHookError(code)));
            }
            Ok(()) => {
                return unreached();
            }
        }
    }
    let _ = reg.report(mouse_outcome);
    if reg.phase == HookPhase::Failed {
        let _ = slot.clear();
        match mouse_outcome {
            Err(code) => {
                return (reg, Err(ListenError::MouseHookError(code)));
            }
            Ok(()) => {
                return unreached();
            }
        }
    }
    (reg, Ok(()))
}

/// Stop an event-tap listener: release every native resource, then
/// empty the callback slot, in that order, so no event can reach an
/// emptied slot once native delivery is confirmed stopped. Idempotent:
/// stopping an already-stopped listener changes nothing and hands back
/// no sink.
pub fn stop_tap<S: EventSink>(reg: &mut TapRegistrar, slot: &mut CallbackSlot<S>) -> (removed:
    Option<S>)
    ensures
        final(reg).phase == TapPhase::Stopped,
        final(reg).nothing_live(),
        final(reg).error == old(reg).error,
        !final(slot).armed(),
        final(slot).invocation_count() == old(slot).invocation_count(),
        old(reg).phase == TapPhase::Stopped && old(reg).nothing_live() && !old(slot).armed()
            ==> {
            &&& *final(reg) == *old(reg)
            &&& *final(slot) == *old(slot)
            &&& removed is None
        },
        match removed {
            Some(sink) => old(slot).armed() && sink.delivered() == old(slot).sink_log(),
            None => !old(slot).armed(),
        },
{
    reg.phase = TapPhase::Stopped;
    reg.tap_live = false;
    reg.source_live = false;
    reg.enabled = false;
    slot.clear()
}

/// Stop a hook-pair listener: remove both hooks, then empty the
/// callback slot, in that order. Removal failures are swallowed —
/// teardown is best-effort. Idempotent: stopping twice changes nothing
/// the second time and hands back no sink.
pub fn stop_hooks<S: EventSink>(reg: &mut HookRegistrar, slot: &mut CallbackSlot<S>) -> (removed:
    Option<S>)
    ensures
        final(reg).phase == HookPhase::Stopped,
        final(reg).nothing_live(),
        final(reg).error == old(reg).error,
        !final(slot).armed(),
        final(slot).invocation_count() == old(slot).invocation_count(),
        old(reg).phase == HookPhase::Stopped && old(reg).nothing_live() && !old(slot).armed()
            ==> {
            &&& *final(reg) == *old(reg)
            &&& *final(slot) == *old(slot)
            &&& removed is None
        },
        match removed {
            Some(sink) => old(slot).armed() && sink.delivered() == old(slot).sink_log(),
            None => !old(slot).armed(),
        },
{
    reg.phase = HookPhase::Stopped;
    reg.key_hook_live = false;
    reg.mouse_hook_live = false;
    slot.clear()
}

} // verus!
