//! Registration lifecycle of the notification sink.
//!
//! The listener thread owns at most one registration with the shell's
//! notification service: a cookie obtained from `register` and required
//! by `unregister`.  Its loop alternates waiting, periodic liveness
//! checks and teardown.  The decisions of that loop — never two live
//! registrations for the same listener, unregister strictly before
//! re-register, unregister with exactly the cookie held — are this
//! transition function; the loop around it performs the foreign calls
//! and feeds their outcomes back as events.

use vstd::prelude::*;

verus! {

/// Where the single registration stands.
#[derive(Clone, Copy, Debug, PartialEq, Eq, Structural)]
pub enum ListenerState {
    /// No registration and none in flight.
    Unregistered,
    /// A register call has been issued; its outcome is awaited.
    Registering,
    /// Registered under this cookie.
    Registered { cookie: u32 },
    /// An unregister call for this cookie has been issued; when
    /// `quitting`, the loop stops once it completes.
    Unregistering { cookie: u32, quitting: bool },
}

/// What the loop observed since the last decision.
#[derive(Clone, Copy, Debug, PartialEq, Eq, Structural)]
pub enum ListenerEvent {
    /// The periodic timer fired and the connection looks healthy.
    LivenessCheck,
    /// The shell connection looks dead, or the last registration
    /// attempt is known to have failed.
    ConnectionLost,
    /// The register call returned this cookie.
    RegisterSucceeded { cookie: u32 },
    /// The register call failed.
    RegisterFailed,
    /// The unregister call completed (its outcome no longer matters:
    /// the cookie is spent either way).
    UnregisterCompleted,
    /// The owner asked the listener to stop.
    QuitRequested,
}

/// What the loop must do next.
#[derive(Clone, Copy, Debug, PartialEq, Eq, Structural)]
pub enum ListenerAction {
    /// Nothing; wait for the next event.
    Wait,
    /// Call the shell's register with a fresh sink.
    BeginRegister,
    /// Call the shell's unregister with exactly this cookie.
    BeginUnregister { cookie: u32 },
    /// Leave the loop.
    Stop,
}

/// The loop's transition function.
pub open spec fn spec_listener_step(s: ListenerState, e: ListenerEvent) -> (
    ListenerState,
    ListenerAction,
) {
    match s {
        ListenerState::Unregistered => match e {
            ListenerEvent::LivenessCheck => (ListenerState::Registering, ListenerAction::BeginRegister),
            ListenerEvent::ConnectionLost => (ListenerState::Registering, ListenerAction::BeginRegister),
            ListenerEvent::QuitRequested => (ListenerState::Unregistered, ListenerAction::Stop),
            _ => (ListenerState::Unregistered, ListenerAction::Wait),
        },
        ListenerState::Registering => match e {
            ListenerEvent::RegisterSucceeded { cookie } => (
                ListenerState::Registered { cookie },
                ListenerAction::Wait,
            ),
            ListenerEvent::RegisterFailed => (ListenerState::Unregistered, ListenerAction::Wait),
            ListenerEvent::QuitRequested => (ListenerState::Unregistered, ListenerAction::Stop),
            _ => (ListenerState::Registering, ListenerAction::Wait),
        },
        ListenerState::Registered { cookie } => match e {
            ListenerEvent::ConnectionLost => (
                ListenerState::Unregistering { cookie, quitting: false },
                ListenerAction::BeginUnregister { cookie },
            ),
            ListenerEvent::QuitRequested => (
                ListenerState::Unregistering { cookie, quitting: true },
                ListenerAction::BeginUnregister { cookie },
            ),
            _ => (ListenerState::Registered { cookie }, ListenerAction::Wait),
        },
        ListenerState::Unregistering { cookie, quitting } => match e {
            ListenerEvent::UnregisterCompleted => {
                if quitting {
                    (ListenerState::Unregistered, ListenerAction::Stop)
                } else {
                    (ListenerState::Unregistered, ListenerAction::Wait)
                }
            },
            ListenerEvent::QuitRequested => (
                ListenerState::Unregistering { cookie, quitting: true },
                ListenerAction::Wait,
            ),
            _ => (ListenerState::Unregistering { cookie, quitting }, ListenerAction::Wait),
        },
    }
}

/// Whether a state still holds a cookie the shell knows about.
pub open spec fn spec_holds_cookie(s: ListenerState) -> bool {
    s is Registered || s is Unregistering
}

/// Decides the loop's next step from its state and the event observed.
pub fn listener_step(s: ListenerState, e: ListenerEvent) -> (r: (ListenerState, ListenerAction))
    ensures
        r == spec_listener_step(s, e),
{
    match s {
        ListenerState::Unregistered => match e {
            ListenerEvent::LivenessCheck => (
                ListenerState::Registering,
                ListenerAction::BeginRegister,
            ),
            ListenerEvent::ConnectionLost => (
                ListenerState::Registering,
                ListenerAction::BeginRegister,
            ),
            ListenerEvent::QuitRequested => (ListenerState::Unregistered, ListenerAction::Stop),
            _ => (ListenerState::Unregistered, ListenerAction::Wait),
        },
        ListenerState::Registering => match e {
            ListenerEvent::RegisterSucceeded { cookie } => (
                ListenerState::Registered { cookie },
                ListenerAction::Wait,
            ),
            ListenerEvent::RegisterFailed => (ListenerState::Unregistered, ListenerAction::Wait),
            ListenerEvent::QuitRequested => (ListenerState::Unregistered, ListenerAction::Stop),
            _ => (ListenerState::Registering, ListenerAction::Wait),
        },
        ListenerState::Registered { cookie } => match e {
            ListenerEvent::ConnectionLost => (
                ListenerState::Unregistering { cookie, quitting: false },
                ListenerAction::BeginUnregister { cookie },
            ),
            ListenerEvent::QuitRequested => (
                ListenerState::Unregistering { cookie, quitting: true },
                ListenerAction::BeginUnregister { cookie },
            ),
            _ => (ListenerState::Registered { cookie }, ListenerAction::Wait),
        },
        ListenerState::Unregistering { cookie, quitting } => match e {
            ListenerEvent::UnregisterCompleted => {
                if quitting {
                    (ListenerState::Unregistered, ListenerAction::Stop)
                } else {
                    (ListenerState::Unregistered, ListenerAction::Wait)
                }
            },
            ListenerEvent::QuitRequested => (
                ListenerState::Unregistering { cookie, quitting: true },
                ListenerAction::Wait,
            ),
            _ => (ListenerState::Unregistering { cookie, quitting }, ListenerAction::Wait),
        },
    }
}

/// A fresh registration is only ever begun from a state that holds no
/// cookie, and a teardown is only ever begun with exactly the cookie
/// held: the old registration is fully dropped before a new one is
/// attempted, and the shell never sees two live registrations for this
/// listener or a foreign cookie.
pub proof fn lemma_drop_before_create(s: ListenerState, e: ListenerEvent)
    ensures
        spec_listener_step(s, e).1 is BeginRegister ==> !spec_holds_cookie(s)
            && spec_listener_step(s, e).0 is Registering,
        spec_listener_step(s, e).1 matches ListenerAction::BeginUnregister { cookie } ==> s
            == (ListenerState::Registered { cookie }),
{
}

/// Register, unregister, register again: after a completed teardown the
/// machine accepts a fresh registration with any cookie the shell
/// hands out — a new one or the old value reused — and never answers
/// with a still-registered failure.
pub proof fn lemma_reregistration_accepted(c1: u32, c2: u32)
    ensures
        ({
            let (s1, a1) = spec_listener_step(
                ListenerState::Unregistered,
                ListenerEvent::LivenessCheck,
            );
            let (s2, a2) = spec_listener_step(
                s1,
                ListenerEvent::RegisterSucceeded { cookie: c1 },
            );
            let (s3, a3) = spec_listener_step(s2, ListenerEvent::ConnectionLost);
            let (s4, a4) = spec_listener_step(s3, ListenerEvent::UnregisterCompleted);
            let (s5, a5) = spec_listener_step(s4, ListenerEvent::LivenessCheck);
            let (s6, a6) = spec_listener_step(
                s5,
                ListenerEvent::RegisterSucceeded { cookie: c2 },
            );
            &&& a1 is BeginRegister
            &&& s2 == (ListenerState::Registered { cookie: c1 })
            &&& a3 == (ListenerAction::BeginUnregister { cookie: c1 })
            &&& s4 is Unregistered
            &&& a5 is BeginRegister
            &&& s6 == (ListenerState::Registered { cookie: c2 })
        }),
{
}

} // verus!
