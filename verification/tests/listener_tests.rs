use winvd::listener::{listener_step, ListenerAction, ListenerEvent, ListenerState};

#[test]
fn register_unregister_register_yields_fresh_registration() {
    // Register, unregister, register again: the second registration is
    // accepted and carries whatever cookie the shell hands out.
    let (s, a) = listener_step(ListenerState::Unregistered, ListenerEvent::LivenessCheck);
    assert_eq!(a, ListenerAction::BeginRegister);
    let (s, a) = listener_step(s, ListenerEvent::RegisterSucceeded { cookie: 17 });
    assert_eq!(s, ListenerState::Registered { cookie: 17 });
    assert_eq!(a, ListenerAction::Wait);
    let (s, a) = listener_step(s, ListenerEvent::ConnectionLost);
    assert_eq!(a, ListenerAction::BeginUnregister { cookie: 17 });
    let (s, a) = listener_step(s, ListenerEvent::UnregisterCompleted);
    assert_eq!(s, ListenerState::Unregistered);
    assert_eq!(a, ListenerAction::Wait);
    let (s, a) = listener_step(s, ListenerEvent::LivenessCheck);
    assert_eq!(a, ListenerAction::BeginRegister);
    let (s, _) = listener_step(s, ListenerEvent::RegisterSucceeded { cookie: 23 });
    assert_eq!(s, ListenerState::Registered { cookie: 23 });
}

#[test]
fn reused_cookie_is_also_accepted() {
    let (s, _) = listener_step(ListenerState::Unregistered, ListenerEvent::LivenessCheck);
    let (s, _) = listener_step(s, ListenerEvent::RegisterSucceeded { cookie: 5 });
    let (s, _) = listener_step(s, ListenerEvent::ConnectionLost);
    let (s, _) = listener_step(s, ListenerEvent::UnregisterCompleted);
    let (s, _) = listener_step(s, ListenerEvent::LivenessCheck);
    let (s, _) = listener_step(s, ListenerEvent::RegisterSucceeded { cookie: 5 });
    assert_eq!(s, ListenerState::Registered { cookie: 5 });
}

#[test]
fn unregister_uses_exactly_the_held_cookie() {
    let (_, a) = listener_step(
        ListenerState::Registered { cookie: 99 },
        ListenerEvent::ConnectionLost,
    );
    assert_eq!(a, ListenerAction::BeginUnregister { cookie: 99 });
    let (_, a) = listener_step(
        ListenerState::Registered { cookie: 4 },
        ListenerEvent::QuitRequested,
    );
    assert_eq!(a, ListenerAction::BeginUnregister { cookie: 4 });
}

#[test]
fn healthy_registration_is_left_alone() {
    let (s, a) = listener_step(
        ListenerState::Registered { cookie: 7 },
        ListenerEvent::LivenessCheck,
    );
    assert_eq!(s, ListenerState::Registered { cookie: 7 });
    assert_eq!(a, ListenerAction::Wait);
}

#[test]
fn failed_registration_retries_on_next_tick() {
    let (s, a) = listener_step(ListenerState::Registering, ListenerEvent::RegisterFailed);
    assert_eq!(s, ListenerState::Unregistered);
    assert_eq!(a, ListenerAction::Wait);
    let (_, a) = listener_step(s, ListenerEvent::LivenessCheck);
    assert_eq!(a, ListenerAction::BeginRegister);
}

#[test]
fn quit_tears_down_before_stopping() {
    let (s, a) = listener_step(
        ListenerState::Registered { cookie: 11 },
        ListenerEvent::QuitRequested,
    );
    assert_eq!(a, ListenerAction::BeginUnregister { cookie: 11 });
    let (s, a) = listener_step(s, ListenerEvent::UnregisterCompleted);
    assert_eq!(s, ListenerState::Unregistered);
    assert_eq!(a, ListenerAction::Stop);
}

#[test]
fn quit_without_registration_stops_at_once() {
    let (s, a) = listener_step(ListenerState::Unregistered, ListenerEvent::QuitRequested);
    assert_eq!(s, ListenerState::Unregistered);
    assert_eq!(a, ListenerAction::Stop);
}

#[test]
fn no_second_registration_while_one_is_held() {
    // While registered or tearing down, no event provokes a fresh
    // register call.
    let held = [
        ListenerState::Registered { cookie: 1 },
        ListenerState::Unregistering { cookie: 1, quitting: false },
        ListenerState::Unregistering { cookie: 1, quitting: true },
    ];
    let events = [
        ListenerEvent::LivenessCheck,
        ListenerEvent::ConnectionLost,
        ListenerEvent::RegisterSucceeded { cookie: 2 },
        ListenerEvent::RegisterFailed,
        ListenerEvent::QuitRequested,
    ];
    for s in held {
        for e in events {
            let (_, a) = listener_step(s, e);
            assert_ne!(a, ListenerAction::BeginRegister);
        }
    }
}
