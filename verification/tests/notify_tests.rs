use winvd::hresult::{check_hresult, ComError, E_FAIL, E_NOTIMPL, RPC_E_DISCONNECTED, RPC_S_SERVER_UNAVAILABLE, S_OK};
use winvd::notify::{
    adapt_notification, handle_concrete_notification, notification_to_event,
    ConcreteNotification, DesktopEvent, StableNotification,
};
use winvd::registry::BuildVersion;

#[test]
fn extra_concrete_methods_answer_neutral_success() {
    // The monitor-era notification interface has methods beyond the
    // stable contract; invoking them must not panic and must yield a
    // success status with no action.
    let r = adapt_notification(
        BuildVersion::Build22000,
        ConcreteNotification::IsPerMonitorChanged { is_per_monitor: 1 },
    );
    assert_eq!(r, (S_OK, None));
    let r = handle_concrete_notification(
        BuildVersion::Build22000,
        ConcreteNotification::IsPerMonitorChanged { is_per_monitor: 0 },
    );
    assert_eq!(r, (S_OK, None));
}

#[test]
fn monitor_arguments_are_accepted_but_dropped() {
    let r = adapt_notification(
        BuildVersion::Build22000,
        ConcreteNotification::CreatedWithMonitors { monitors: 7, desktop: 42 },
    );
    assert_eq!(r, (S_OK, Some(StableNotification::Created { desktop: 42 })));
    let r = adapt_notification(
        BuildVersion::Build22000,
        ConcreteNotification::MovedWithMonitors {
            monitors: 7,
            desktop: 42,
            old_index: 0,
            new_index: 2,
        },
    );
    assert_eq!(
        r,
        (S_OK, Some(StableNotification::Moved { desktop: 42, old_index: 0, new_index: 2 }))
    );
}

#[test]
fn plain_callbacks_translate_one_to_one() {
    let r = adapt_notification(
        BuildVersion::Build19045,
        ConcreteNotification::CurrentChanged { old_desktop: 1, new_desktop: 2 },
    );
    assert_eq!(
        r,
        (S_OK, Some(StableNotification::CurrentChanged { old_desktop: 1, new_desktop: 2 }))
    );
    let r = adapt_notification(
        BuildVersion::Build26100,
        ConcreteNotification::NameChanged { desktop: 9, name: String::from("mail") },
    );
    assert_eq!(
        r,
        (S_OK, Some(StableNotification::NameChanged { desktop: 9, name: String::from("mail") }))
    );
}

#[test]
fn stable_callbacks_map_to_consumer_events() {
    assert_eq!(
        notification_to_event(StableNotification::Created { desktop: 3 }),
        Some(DesktopEvent::DesktopCreated { desktop: 3 })
    );
    assert_eq!(
        notification_to_event(StableNotification::Destroyed { destroyed: 3, fallback: 1 }),
        Some(DesktopEvent::DesktopDestroyed { destroyed: 3, fallback: 1 })
    );
    assert_eq!(
        notification_to_event(StableNotification::Moved { desktop: 3, old_index: 1, new_index: 0 }),
        Some(DesktopEvent::DesktopMoved { desktop: 3, old_index: 1, new_index: 0 })
    );
    assert_eq!(
        notification_to_event(StableNotification::ViewChanged { view_window: 77 }),
        Some(DesktopEvent::WindowChanged { window: 77 })
    );
    assert_eq!(
        notification_to_event(StableNotification::CurrentChanged { old_desktop: 1, new_desktop: 2 }),
        Some(DesktopEvent::DesktopChanged { old_desktop: 1, new_desktop: 2 })
    );
    assert_eq!(
        notification_to_event(StableNotification::WallpaperChanged {
            desktop: 2,
            name: String::from("sea.jpg"),
        }),
        Some(DesktopEvent::DesktopWallpaperChanged { desktop: 2, name: String::from("sea.jpg") })
    );
}

#[test]
fn begin_failed_switch_and_remote_inform_nothing() {
    assert_eq!(
        notification_to_event(StableNotification::DestroyBegin { destroyed: 3, fallback: 1 }),
        None
    );
    assert_eq!(
        notification_to_event(StableNotification::DestroyFailed { destroyed: 3, fallback: 1 }),
        None
    );
    assert_eq!(notification_to_event(StableNotification::Switched { desktop: 3 }), None);
    assert_eq!(
        notification_to_event(StableNotification::RemoteConnected { desktop: 3 }),
        None
    );
}

#[test]
fn whole_boundary_always_returns_success() {
    let cases = vec![
        (BuildVersion::Build10240, ConcreteNotification::Created { desktop: 1 }),
        (
            BuildVersion::Build10240,
            ConcreteNotification::DestroyBegin { destroyed: 1, fallback: 2 },
        ),
        (BuildVersion::Build22000, ConcreteNotification::IsPerMonitorChanged { is_per_monitor: 1 }),
        (BuildVersion::Build22000, ConcreteNotification::Switched { desktop: 1 }),
        (BuildVersion::Build26100, ConcreteNotification::RemoteConnected { desktop: 1 }),
        (BuildVersion::Build26100, ConcreteNotification::ViewChanged { view_window: 9 }),
    ];
    for (b, c) in cases {
        let (code, _event) = handle_concrete_notification(b, c);
        assert_eq!(code, S_OK);
    }
}

#[test]
fn status_codes_classify_into_typed_errors() {
    assert_eq!(check_hresult(S_OK), Ok(()));
    assert_eq!(check_hresult(1), Ok(()));
    assert_eq!(check_hresult(E_NOTIMPL), Err(ComError::NotSupportedOnVersion));
    assert_eq!(check_hresult(RPC_S_SERVER_UNAVAILABLE), Err(ComError::ConnectionDown));
    assert_eq!(check_hresult(RPC_E_DISCONNECTED), Err(ComError::ConnectionDown));
    assert_eq!(check_hresult(E_FAIL), Err(ComError::Rejected { code: E_FAIL }));
}
