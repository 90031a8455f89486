use winvd::dispatch::{
    forward_args, method_slot, prepare_call, resolve_method, ArgValue, MethodResolution,
};
use winvd::hresult::E_NOTIMPL;
use winvd::registry::BuildVersion;
use winvd::tables::{LogicalInterface, MethodId};

#[test]
fn slot_is_position_plus_root_methods() {
    // First declared method sits right after the three root slots.
    assert_eq!(
        method_slot(LogicalInterface::VirtualDesktop, BuildVersion::Build10240, MethodId::IsViewVisible),
        Some(3)
    );
    assert_eq!(
        method_slot(LogicalInterface::VirtualDesktop, BuildVersion::Build10240, MethodId::GetId),
        Some(4)
    );
    // get_name: fourth entry on the monitor-carrying desktop shape,
    // third entry once get_monitor was dropped again.
    assert_eq!(
        method_slot(LogicalInterface::VirtualDesktop, BuildVersion::Build22000, MethodId::GetName),
        Some(6)
    );
    assert_eq!(
        method_slot(
            LogicalInterface::VirtualDesktop,
            BuildVersion::Build22621_2215,
            MethodId::GetName
        ),
        Some(5)
    );
}

#[test]
fn missing_method_has_no_slot() {
    assert_eq!(
        method_slot(LogicalInterface::VirtualDesktop, BuildVersion::Build10240, MethodId::GetName),
        None
    );
    assert_eq!(
        method_slot(
            LogicalInterface::VirtualDesktopManagerInternal,
            BuildVersion::Build10240,
            MethodId::SetName
        ),
        None
    );
}

#[test]
fn optional_method_not_implemented_on_old_build() {
    // Reading or setting a desktop name on the earliest build resolves
    // to the not-implemented answer, not a crash.
    assert_eq!(
        resolve_method(LogicalInterface::VirtualDesktop, BuildVersion::Build10240, MethodId::GetName),
        MethodResolution::NotImplemented
    );
    assert_eq!(
        resolve_method(
            LogicalInterface::VirtualDesktopManagerInternal,
            BuildVersion::Build10240,
            MethodId::SetName
        ),
        MethodResolution::NotImplemented
    );
}

#[test]
fn optional_method_direct_on_new_build() {
    // head (7 entries) + [CreateDesktop, MoveDesktop, RemoveDesktop,
    // FindDesktop, GetDesktopSwitchIncludeExcludeViews, SetName] puts
    // set_name at table index 12, vtable slot 15.
    assert_eq!(
        resolve_method(
            LogicalInterface::VirtualDesktopManagerInternal,
            BuildVersion::Build22621_2215,
            MethodId::SetName
        ),
        MethodResolution::Direct { slot: 15 }
    );
    // The inserted switch-and-move method shifts it by one slot.
    assert_eq!(
        resolve_method(
            LogicalInterface::VirtualDesktopManagerInternal,
            BuildVersion::Build26100,
            MethodId::SetName
        ),
        MethodResolution::Direct { slot: 16 }
    );
}

#[test]
fn monitor_variants_are_defaulted() {
    assert_eq!(
        resolve_method(
            LogicalInterface::VirtualDesktopManagerInternal,
            BuildVersion::Build22000,
            MethodId::GetDesktopCount
        ),
        MethodResolution::MonitorDefaulted { slot: 3, monitor_arg_index: 0 }
    );
    assert_eq!(
        resolve_method(
            LogicalInterface::VirtualDesktopManagerInternal,
            BuildVersion::Build22000,
            MethodId::SwitchDesktop
        ),
        MethodResolution::MonitorDefaulted { slot: 10, monitor_arg_index: 0 }
    );
    // The move operation takes the monitor after the desktop argument.
    assert_eq!(
        resolve_method(
            LogicalInterface::VirtualDesktopManagerInternal,
            BuildVersion::Build22000,
            MethodId::MoveDesktop
        ),
        MethodResolution::MonitorDefaulted { slot: 12, monitor_arg_index: 1 }
    );
    // Builds without the monitor variants resolve the plain method.
    assert_eq!(
        resolve_method(
            LogicalInterface::VirtualDesktopManagerInternal,
            BuildVersion::Build10240,
            MethodId::GetDesktopCount
        ),
        MethodResolution::Direct { slot: 3 }
    );
}

#[test]
fn forwarding_keeps_arguments_intact() {
    let direct = resolve_method(
        LogicalInterface::VirtualDesktopManagerInternal,
        BuildVersion::Build22621_2215,
        MethodId::SetName,
    );
    let args = vec![ArgValue::Handle(4), ArgValue::Text(String::from("work"))];
    assert_eq!(forward_args(&direct, args.clone()), args);
}

#[test]
fn forwarding_inserts_default_monitor() {
    let defaulted = resolve_method(
        LogicalInterface::VirtualDesktopManagerInternal,
        BuildVersion::Build22000,
        MethodId::MoveDesktop,
    );
    let args = vec![ArgValue::Handle(4), ArgValue::Uint(2)];
    assert_eq!(
        forward_args(&defaulted, args),
        vec![ArgValue::Handle(4), ArgValue::Monitor(0), ArgValue::Uint(2)]
    );

    let count = resolve_method(
        LogicalInterface::VirtualDesktopManagerInternal,
        BuildVersion::Build22000,
        MethodId::GetDesktopCount,
    );
    assert_eq!(
        forward_args(&count, vec![]),
        vec![ArgValue::Monitor(0)]
    );
}

/// A little stand-in shell with one desktop per entry, answering the
/// vtable slots of one fixed build the way the real object would.
struct MockShell {
    build: BuildVersion,
    names: Vec<String>,
}

impl MockShell {
    fn call(&mut self, slot: usize, args: &[ArgValue]) -> Result<Option<String>, ()> {
        // Slot numbers of the build this mock implements.
        let set_name = match resolve_method(
            LogicalInterface::VirtualDesktopManagerInternal,
            self.build,
            MethodId::SetName,
        ) {
            MethodResolution::Direct { slot } => slot,
            _ => return Err(()),
        };
        let get_name = match resolve_method(
            LogicalInterface::VirtualDesktop,
            self.build,
            MethodId::GetName,
        ) {
            MethodResolution::Direct { slot } => slot,
            _ => return Err(()),
        };
        if slot == set_name {
            match args {
                [ArgValue::Handle(d), ArgValue::Text(name)] => {
                    self.names[*d] = name.clone();
                    Ok(None)
                }
                _ => Err(()),
            }
        } else if slot == get_name {
            match args {
                [ArgValue::Handle(d)] => Ok(Some(self.names[*d].clone())),
                _ => Err(()),
            }
        } else {
            Err(())
        }
    }
}

#[test]
fn set_name_read_back_round_trip() {
    // On a build that has both methods, forwarding a set followed by a
    // get returns exactly the name that was set.
    let build = BuildVersion::Build22621_2215;
    let mut shell = MockShell { build, names: vec![String::new(), String::new()] };

    let set = resolve_method(
        LogicalInterface::VirtualDesktopManagerInternal,
        build,
        MethodId::SetName,
    );
    let slot = match set {
        MethodResolution::Direct { slot } => slot,
        _ => panic!("set_name must resolve directly on this build"),
    };
    let args = forward_args(
        &set,
        vec![ArgValue::Handle(1), ArgValue::Text(String::from("mail"))],
    );
    shell.call(slot, &args).unwrap();

    let get = resolve_method(LogicalInterface::VirtualDesktop, build, MethodId::GetName);
    let slot = match get {
        MethodResolution::Direct { slot } => slot,
        _ => panic!("get_name must resolve directly on this build"),
    };
    let args = forward_args(&get, vec![ArgValue::Handle(1)]);
    let name = shell.call(slot, &args).unwrap();
    assert_eq!(name.as_deref(), Some("mail"));
    // The untouched desktop keeps its name.
    let args = forward_args(&get, vec![ArgValue::Handle(0)]);
    assert_eq!(shell.call(slot, &args).unwrap().as_deref(), Some(""));
}

#[test]
fn prepare_call_serves_one_call_site_across_builds() {
    let args = vec![ArgValue::Handle(3), ArgValue::Text(String::from("games"))];
    // Oldest build: no way to set a name.
    assert_eq!(
        prepare_call(
            LogicalInterface::VirtualDesktopManagerInternal,
            BuildVersion::Build10240,
            MethodId::SetName,
            args.clone(),
        ),
        Err(E_NOTIMPL)
    );
    // Monitor-era build: the variant is called with a defaulted monitor.
    assert_eq!(
        prepare_call(
            LogicalInterface::VirtualDesktopManagerInternal,
            BuildVersion::Build22000,
            MethodId::GetDesktopCount,
            vec![],
        ),
        Ok((3, vec![ArgValue::Monitor(0)]))
    );
    // Late build: the method is called directly, arguments untouched.
    assert_eq!(
        prepare_call(
            LogicalInterface::VirtualDesktopManagerInternal,
            BuildVersion::Build22621_2215,
            MethodId::SetName,
            args.clone(),
        ),
        Ok((15, args))
    );
}
