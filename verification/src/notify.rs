//! Notification sink adapter.
//!
//! External code implements one stable set of callbacks covering every
//! desktop lifecycle event ever observed.  Each build's concrete
//! notification interface differs: some carry monitor-array arguments,
//! one has a per-monitor flag with no stable counterpart, early builds
//! lack most methods.  The adapter translates a concrete callback into
//! the stable one, dropping arguments the stable contract does not
//! model and answering concrete methods without a stable counterpart
//! with a neutral success and no action.  Whatever arrives, the status
//! returned to the shell is success: an error must never cross the
//! foreign call boundary, where it would destabilise the shell's
//! dispatch loop.
//!
//! Desktops travel here as their 128-bit identifiers and views as the
//! window handle read off the view when the callback fired; both are
//! extracted at the foreign boundary before translation runs.

use crate::hresult::S_OK;
use crate::registry::BuildVersion;
use vstd::prelude::*;

verus! {

/// A concrete notification callback as some build's interface delivers
/// it, arguments included.
#[derive(Clone, Debug, PartialEq, Eq)]
pub enum ConcreteNotification {
    Created { desktop: u128 },
    CreatedWithMonitors { monitors: usize, desktop: u128 },
    DestroyBegin { destroyed: u128, fallback: u128 },
    DestroyBeginWithMonitors { monitors: usize, destroyed: u128, fallback: u128 },
    DestroyFailed { destroyed: u128, fallback: u128 },
    DestroyFailedWithMonitors { monitors: usize, destroyed: u128, fallback: u128 },
    Destroyed { destroyed: u128, fallback: u128 },
    DestroyedWithMonitors { monitors: usize, destroyed: u128, fallback: u128 },
    IsPerMonitorChanged { is_per_monitor: i32 },
    Moved { desktop: u128, old_index: i64, new_index: i64 },
    MovedWithMonitors { monitors: usize, desktop: u128, old_index: i64, new_index: i64 },
    NameChanged { desktop: u128, name: String },
    ViewChanged { view_window: u64 },
    CurrentChanged { old_desktop: u128, new_desktop: u128 },
    CurrentChangedWithMonitors { monitors: usize, old_desktop: u128, new_desktop: u128 },
    WallpaperChanged { desktop: u128, name: String },
    Switched { desktop: u128 },
    RemoteConnected { desktop: u128 },
}

/// A callback of the stable, version-independent sink contract.
#[derive(Clone, Debug, PartialEq, Eq)]
pub enum StableNotification {
    Created { desktop: u128 },
    DestroyBegin { destroyed: u128, fallback: u128 },
    DestroyFailed { destroyed: u128, fallback: u128 },
    Destroyed { destroyed: u128, fallback: u128 },
    Moved { desktop: u128, old_index: i64, new_index: i64 },
    NameChanged { desktop: u128, name: String },
    ViewChanged { view_window: u64 },
    CurrentChanged { old_desktop: u128, new_desktop: u128 },
    WallpaperChanged { desktop: u128, name: String },
    Switched { desktop: u128 },
    RemoteConnected { desktop: u128 },
}

/// The three notification interface generations: the early one without
/// monitor arguments, the one that carries them, and the late one that
/// dropped them again.
pub open spec fn spec_ntf_generation(b: BuildVersion) -> int {
    match b {
        BuildVersion::Build22000 => 1,
        BuildVersion::Build22621_2215 => 2,
        BuildVersion::Build22631_2428 => 2,
        BuildVersion::Build26100 => 2,
        _ => 0,
    }
}

/// Whether build `b`'s concrete notification interface can deliver the
/// callback `c` at all.  Receiving anything else would mean the sink
/// was registered against the wrong shape — a programming error, not a
/// condition to recover from.
pub open spec fn spec_notification_occurs_on(b: BuildVersion, c: ConcreteNotification) -> bool {
    let g = spec_ntf_generation(b);
    match c {
        ConcreteNotification::Created { .. } => g == 0 || g == 2,
        ConcreteNotification::CreatedWithMonitors { .. } => g == 1,
        ConcreteNotification::DestroyBegin { .. } => g == 0 || g == 2,
        ConcreteNotification::DestroyBeginWithMonitors { .. } => g == 1,
        ConcreteNotification::DestroyFailed { .. } => g == 0 || g == 2,
        ConcreteNotification::DestroyFailedWithMonitors { .. } => g == 1,
        ConcreteNotification::Destroyed { .. } => g == 0 || g == 2,
        ConcreteNotification::DestroyedWithMonitors { .. } => g == 1,
        ConcreteNotification::IsPerMonitorChanged { .. } => g == 1,
        ConcreteNotification::Moved { .. } => g == 2,
        ConcreteNotification::MovedWithMonitors { .. } => g == 1,
        ConcreteNotification::NameChanged { .. } => g == 1 || g == 2,
        ConcreteNotification::ViewChanged { .. } => true,
        ConcreteNotification::CurrentChanged { .. } => g == 0 || g == 2,
        ConcreteNotification::CurrentChangedWithMonitors { .. } => g == 1,
        ConcreteNotification::WallpaperChanged { .. } => g == 1 || g == 2,
        ConcreteNotification::Switched { .. } => g == 1 || g == 2,
        ConcreteNotification::RemoteConnected { .. } => g == 1 || g == 2,
    }
}

/// The stable callback a concrete callback stands for: the same event
/// with any monitor arguments dropped, or nothing for a concrete
/// method the stable contract does not model.
pub open spec fn spec_adapted(c: ConcreteNotification) -> Option<StableNotification> {
    match c {
        ConcreteNotification::Created { desktop } => Some(StableNotification::Created { desktop }),
        ConcreteNotification::CreatedWithMonitors { monitors: _, desktop } => Some(
            StableNotification::Created { desktop },
        ),
        ConcreteNotification::DestroyBegin { destroyed, fallback } => Some(
            StableNotification::DestroyBegin { destroyed, fallback },
        ),
        ConcreteNotification::DestroyBeginWithMonitors { monitors: _, destroyed, fallback } => Some(
            StableNotification::DestroyBegin { destroyed, fallback },
        ),
        ConcreteNotification::DestroyFailed { destroyed, fallback } => Some(
            StableNotification::DestroyFailed { destroyed, fallback },
        ),
        ConcreteNotification::DestroyFailedWithMonitors {
            monitors: _,
            destroyed,
            fallback,
        } => Some(StableNotification::DestroyFailed { destroyed, fallback }),
        ConcreteNotification::Destroyed { destroyed, fallback } => Some(
            StableNotification::Destroyed { destroyed, fallback },
        ),
        ConcreteNotification::DestroyedWithMonitors { monitors: _, destroyed, fallback } => Some(
            StableNotification::Destroyed { destroyed, fallback },
        ),
        ConcreteNotification::IsPerMonitorChanged { .. } => None,
        ConcreteNotification::Moved { desktop, old_index, new_index } => Some(
            StableNotification::Moved { desktop, old_index, new_index },
        ),
        ConcreteNotification::MovedWithMonitors {
            monitors: _,
            desktop,
            old_index,
            new_index,
        } => Some(StableNotification::Moved { desktop, old_index, new_index }),
        ConcreteNotification::NameChanged { desktop, name } => Some(
            StableNotification::NameChanged { desktop, name },
        ),
        ConcreteNotification::ViewChanged { view_window } => Some(
            StableNotification::ViewChanged { view_window },
        ),
        ConcreteNotification::CurrentChanged { old_desktop, new_desktop } => Some(
            StableNotification::CurrentChanged { old_desktop, new_desktop },
        ),
        ConcreteNotification::CurrentChangedWithMonitors {
            monitors: _,
            old_desktop,
            new_desktop,
        } => Some(StableNotification::CurrentChanged { old_desktop, new_desktop }),
        ConcreteNotification::WallpaperChanged { desktop, name } => Some(
            StableNotification::WallpaperChanged { desktop, name },
        ),
        ConcreteNotification::Switched { desktop } => Some(
            StableNotification::Switched { desktop },
        ),
        ConcreteNotification::RemoteConnected { desktop } => Some(
            StableNotification::RemoteConnected { desktop },
        ),
    }
}

/// Translates one concrete callback of build `b`'s notification
/// interface.  The returned status is always success — it is what the
/// adapter answers to the shell — and the translated stable callback,
/// if the stable contract models this event, is delivered alongside.
pub fn adapt_notification(b: BuildVersion, c: ConcreteNotification) -> (r: (
    i32,
    Option<StableNotification>,
))
    requires
        spec_notification_occurs_on(b, c),
    ensures
        r.0 == S_OK,
        r.1 == spec_adapted(c),
{
    let out = match c {
        ConcreteNotification::Created { desktop } => Some(StableNotification::Created { desktop }),
        ConcreteNotification::CreatedWithMonitors { monitors: _, desktop } => Some(
            StableNotification::Created { desktop },
        ),
        ConcreteNotification::DestroyBegin { destroyed, fallback } => Some(
            StableNotification::DestroyBegin { destroyed, fallback },
        ),
        ConcreteNotification::DestroyBeginWithMonitors { monitors: _, destroyed, fallback } => Some(
            StableNotification::DestroyBegin { destroyed, fallback },
        ),
        ConcreteNotification::DestroyFailed { destroyed, fallback } => Some(
            StableNotification::DestroyFailed { destroyed, fallback },
        ),
        ConcreteNotification::DestroyFailedWithMonitors {
            monitors: _,
            destroyed,
            fallback,
        } => Some(StableNotification::DestroyFailed { destroyed, fallback }),
        ConcreteNotification::Destroyed { destroyed, fallback } => Some(
            StableNotification::Destroyed { destroyed, fallback },
        ),
        ConcreteNotification::DestroyedWithMonitors { monitors: _, destroyed, fallback } => Some(
            StableNotification::Destroyed { destroyed, fallback },
        ),
        ConcreteNotification::IsPerMonitorChanged { is_per_monitor: _ } => None,
        ConcreteNotification::Moved { desktop, old_index, new_index } => Some(
            StableNotification::Moved { desktop, old_index, new_index },
        ),
        ConcreteNotification::MovedWithMonitors {
            monitors: _,
            desktop,
            old_index,
            new_index,
        } => Some(StableNotification::Moved { desktop, old_index, new_index }),
        ConcreteNotification::NameChanged { desktop, name } => Some(
            StableNotification::NameChanged { desktop, name },
        ),
        ConcreteNotification::ViewChanged { view_window } => Some(
            StableNotification::ViewChanged { view_window },
        ),
        ConcreteNotification::CurrentChanged { old_desktop, new_desktop } => Some(
            StableNotification::CurrentChanged { old_desktop, new_desktop },
        ),
        ConcreteNotification::CurrentChangedWithMonitors {
            monitors: _,
            old_desktop,
            new_desktop,
        } => Some(StableNotification::CurrentChanged { old_desktop, new_desktop }),
        ConcreteNotification::WallpaperChanged { desktop, name } => Some(
            StableNotification::WallpaperChanged { desktop, name },
        ),
        ConcreteNotification::Switched { desktop } => Some(
            StableNotification::Switched { desktop },
        ),
        ConcreteNotification::RemoteConnected { desktop } => Some(
            StableNotification::RemoteConnected { desktop },
        ),
    };
    (S_OK, out)
}

/// A desktop lifecycle event as handed to the listener's consumer.
#[derive(Clone, Debug, PartialEq, Eq)]
pub enum DesktopEvent {
    DesktopChanged { old_desktop: u128, new_desktop: u128 },
    DesktopWallpaperChanged { desktop: u128, name: String },
    DesktopCreated { desktop: u128 },
    DesktopDestroyed { destroyed: u128, fallback: u128 },
    DesktopMoved { desktop: u128, old_index: i64, new_index: i64 },
    DesktopNameChanged { desktop: u128, name: String },
    WindowChanged { window: u64 },
}

/// The consumer event a stable callback gives rise to.  Begin, failed
/// and switch callbacks, and the remote-connect callback, inform no
/// consumer event and map to nothing.
pub open spec fn spec_event_of(s: StableNotification) -> Option<DesktopEvent> {
    match s {
        StableNotification::Created { desktop } => Some(DesktopEvent::DesktopCreated { desktop }),
        StableNotification::DestroyBegin { .. } => None,
        StableNotification::DestroyFailed { .. } => None,
        StableNotification::Destroyed { destroyed, fallback } => Some(
            DesktopEvent::DesktopDestroyed { destroyed, fallback },
        ),
        StableNotification::Moved { desktop, old_index, new_index } => Some(
            DesktopEvent::DesktopMoved { desktop, old_index, new_index },
        ),
        StableNotification::NameChanged { desktop, name } => Some(
            DesktopEvent::DesktopNameChanged { desktop, name },
        ),
        StableNotification::ViewChanged { view_window } => Some(
            DesktopEvent::WindowChanged { window: view_window },
        ),
        StableNotification::CurrentChanged { old_desktop, new_desktop } => Some(
            DesktopEvent::DesktopChanged { old_desktop, new_desktop },
        ),
        StableNotification::WallpaperChanged { desktop, name } => Some(
            DesktopEvent::DesktopWallpaperChanged { desktop, name },
        ),
        StableNotification::Switched { .. } => None,
        StableNotification::RemoteConnected { .. } => None,
    }
}

/// Maps one stable callback to the consumer event it announces.
pub fn notification_to_event(s: StableNotification) -> (r: Option<DesktopEvent>)
    ensures
        r == spec_event_of(s),
{
    match s {
        StableNotification::Created { desktop } => Some(DesktopEvent::DesktopCreated { desktop }),
        StableNotification::DestroyBegin { destroyed: _, fallback: _ } => None,
        StableNotification::DestroyFailed { destroyed: _, fallback: _ } => None,
        StableNotification::Destroyed { destroyed, fallback } => Some(
            DesktopEvent::DesktopDestroyed { destroyed, fallback },
        ),
        StableNotification::Moved { desktop, old_index, new_index } => Some(
            DesktopEvent::DesktopMoved { desktop, old_index, new_index },
        ),
        StableNotification::NameChanged { desktop, name } => Some(
            DesktopEvent::DesktopNameChanged { desktop, name },
        ),
        StableNotification::ViewChanged { view_window } => Some(
            DesktopEvent::WindowChanged { window: view_window },
        ),
        StableNotification::CurrentChanged { old_desktop, new_desktop } => Some(
            DesktopEvent::DesktopChanged { old_desktop, new_desktop },
        ),
        StableNotification::WallpaperChanged { desktop, name } => Some(
            DesktopEvent::DesktopWallpaperChanged { desktop, name },
        ),
        StableNotification::Switched { desktop: _ } => None,
        StableNotification::RemoteConnected { desktop: _ } => None,
    }
}

/// The whole adapter boundary for one incoming concrete callback:
/// translate, then derive the consumer event.  The status answered to
/// the shell is success whatever arrived; a callback the stable
/// contract does not model performs no action at all.
pub fn handle_concrete_notification(b: BuildVersion, c: ConcreteNotification) -> (r: (
    i32,
    Option<DesktopEvent>,
))
    requires
        spec_notification_occurs_on(b, c),
    ensures
        r.0 == S_OK,
        spec_adapted(c) matches Some(s) ==> r.1 == spec_event_of(s),
        spec_adapted(c) is None ==> r.1 is None,
{
    let (code, adapted) = adapt_notification(b, c);
    let event = match adapted {
        Some(s) => notification_to_event(s),
        None => None,
    };
    (code, event)
}

} // verus!
