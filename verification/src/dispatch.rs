//! Versioned dispatch: from a version-independent method name to the
//! vtable slot of the active build's concrete shape, with the argument
//! forwarding rule.
//!
//! A caller names a method without knowing which concrete table is
//! active.  Resolution looks the name up in the active definition: a
//! slot if the shape declares it, the monitor-taking variant with a
//! defaulted monitor handle where a shape replaced the plain method by
//! such a variant, and "not implemented" where the shape has neither —
//! the caller then receives the standard not-implemented status instead
//! of a crash, through a single call site valid on every build.

use crate::hresult::E_NOTIMPL;
use crate::registry::BuildVersion;
use crate::tables::{
    spec_method_table, method_table, LogicalInterface, MethodId, IUNKNOWN_METHOD_COUNT,
};
use vstd::prelude::*;

verus! {

/// The monitor-taking variant that some builds declare in place of a
/// plain desktop-manager method.
pub open spec fn spec_monitor_variant(m: MethodId) -> Option<MethodId> {
    match m {
        MethodId::GetDesktopCount => Some(MethodId::GetDesktopCountM),
        MethodId::GetCurrentDesktop => Some(MethodId::GetCurrentDesktopM),
        MethodId::GetDesktops => Some(MethodId::GetDesktopsM),
        MethodId::SwitchDesktop => Some(MethodId::SwitchDesktopM),
        MethodId::CreateDesktop => Some(MethodId::CreateDesktopM),
        MethodId::MoveDesktop => Some(MethodId::MoveDesktopM),
        _ => None,
    }
}

pub fn monitor_variant(m: MethodId) -> (r: Option<MethodId>)
    ensures
        r == spec_monitor_variant(m),
{
    match m {
        MethodId::GetDesktopCount => Some(MethodId::GetDesktopCountM),
        MethodId::GetCurrentDesktop => Some(MethodId::GetCurrentDesktopM),
        MethodId::GetDesktops => Some(MethodId::GetDesktopsM),
        MethodId::SwitchDesktop => Some(MethodId::SwitchDesktopM),
        MethodId::CreateDesktop => Some(MethodId::CreateDesktopM),
        MethodId::MoveDesktop => Some(MethodId::MoveDesktopM),
        _ => None,
    }
}

/// Position at which the monitor-taking variants expect the defaulted
/// monitor handle: first argument everywhere, except after the desktop
/// argument of the move operation.
pub open spec fn spec_monitor_insert_position(mv: MethodId) -> int {
    if mv == MethodId::MoveDesktopM {
        1
    } else {
        0
    }
}

/// The table slot holding the first declaration of method `m` in the
/// table of `(iface, b)`, counted from the start of the vtable (so
/// offset by the universal root interface's three slots), or `None`
/// when the shape does not declare `m`.
pub fn method_slot(iface: LogicalInterface, b: BuildVersion, m: MethodId) -> (r: Option<usize>)
    ensures
        r matches Some(slot) ==> {
            &&& IUNKNOWN_METHOD_COUNT <= slot
            &&& slot - IUNKNOWN_METHOD_COUNT < spec_method_table(iface, b).len()
            &&& spec_method_table(iface, b)[slot - IUNKNOWN_METHOD_COUNT].id == m
            &&& forall|j: int|
                0 <= j < slot - IUNKNOWN_METHOD_COUNT ==> (#[trigger] spec_method_table(
                    iface,
                    b,
                )[j]).id != m
        },
        r is None ==> forall|j: int|
            0 <= j < spec_method_table(iface, b).len() ==> (#[trigger] spec_method_table(
                iface,
                b,
            )[j]).id != m,
{
    let table = method_table(iface, b);
    proof {
        crate::tables::lemma_method_table_len(iface, b);
    }
    let mut i: usize = 0;
    while i < table.len()
        invariant
            table@ == spec_method_table(iface, b),
            table@.len() <= 64,
            i <= table.len(),
            forall|j: int| 0 <= j < i ==> (#[trigger] table@[j]).id != m,
        decreases table.len() - i,
    {
        if table[i].id == m {
            return Some(i + IUNKNOWN_METHOD_COUNT);
        }
        i = i + 1;
    }
    None
}

/// How a version-independent method call reaches the active concrete
/// shape.
#[derive(Clone, Copy, Debug, PartialEq, Eq, Structural)]
pub enum MethodResolution {
    /// The shape does not declare the method (nor a variant of it): the
    /// call must return the not-implemented status.
    NotImplemented,
    /// The shape declares the method at this vtable slot; arguments
    /// pass through unchanged.
    Direct { slot: usize },
    /// The shape declares only the monitor-taking variant, at this
    /// vtable slot; a default monitor handle is inserted at
    /// `monitor_arg_index`.
    MonitorDefaulted { slot: usize, monitor_arg_index: usize },
}

/// Resolves a version-independent method name against the definition
/// active for build `b`.
pub fn resolve_method(iface: LogicalInterface, b: BuildVersion, m: MethodId) -> (r:
    MethodResolution)
    ensures
        r matches MethodResolution::Direct { slot } ==> {
            &&& IUNKNOWN_METHOD_COUNT <= slot
            &&& slot - IUNKNOWN_METHOD_COUNT < spec_method_table(iface, b).len()
            &&& spec_method_table(iface, b)[slot - IUNKNOWN_METHOD_COUNT].id == m
            &&& forall|j: int|
                0 <= j < slot - IUNKNOWN_METHOD_COUNT ==> (#[trigger] spec_method_table(
                    iface,
                    b,
                )[j]).id != m
        },
        r matches MethodResolution::MonitorDefaulted { slot, monitor_arg_index } ==> {
            &&& spec_monitor_variant(m) matches Some(mv)
            &&& IUNKNOWN_METHOD_COUNT <= slot
            &&& slot - IUNKNOWN_METHOD_COUNT < spec_method_table(iface, b).len()
            &&& spec_method_table(iface, b)[slot - IUNKNOWN_METHOD_COUNT].id
                == spec_monitor_variant(m)->0
            &&& monitor_arg_index == spec_monitor_insert_position(spec_monitor_variant(m)->0)
            &&& forall|j: int|
                0 <= j < spec_method_table(iface, b).len() ==> (#[trigger] spec_method_table(
                    iface,
                    b,
                )[j]).id != m
        },
        r is NotImplemented ==> {
            &&& forall|j: int|
                0 <= j < spec_method_table(iface, b).len() ==> (#[trigger] spec_method_table(
                    iface,
                    b,
                )[j]).id != m
            &&& spec_monitor_variant(m) matches Some(mv) ==> forall|j: int|
                0 <= j < spec_method_table(iface, b).len() ==> (#[trigger] spec_method_table(
                    iface,
                    b,
                )[j]).id != mv
        },
        (exists|j: int|
            0 <= j < spec_method_table(iface, b).len() && (#[trigger] spec_method_table(
                iface,
                b,
            )[j]).id == m) ==> r is Direct,
{
    match method_slot(iface, b, m) {
        Some(slot) => MethodResolution::Direct { slot },
        None => match monitor_variant(m) {
            None => MethodResolution::NotImplemented,
            Some(mv) => match method_slot(iface, b, mv) {
                Some(slot) => {
                    let monitor_arg_index: usize = if mv == MethodId::MoveDesktopM {
                        1
                    } else {
                        0
                    };
                    MethodResolution::MonitorDefaulted { slot, monitor_arg_index }
                },
                None => MethodResolution::NotImplemented,
            },
        },
    }
}

/// A version-independent argument value, as the dispatch layer sees it.
/// Interface-typed arguments travel as handles; primitive arguments
/// pass through unchanged.
#[derive(Clone, Debug, PartialEq, Eq)]
pub enum ArgValue {
    Int(i64),
    Uint(u32),
    Guid(u128),
    Text(String),
    Handle(usize),
    Monitor(i64),
}

/// Forwards the version-independent arguments of a call to the shape
/// chosen by `resolution`.  Arguments pass through unchanged — bit for
/// bit, in order — except that a shape reached through a monitor-taking
/// variant receives a zero monitor handle, which that shape requires
/// but ignores, at the variant's documented position.
pub fn forward_args(resolution: &MethodResolution, args: Vec<ArgValue>) -> (r: Vec<ArgValue>)
    requires
        resolution matches MethodResolution::MonitorDefaulted { monitor_arg_index, .. }
            ==> monitor_arg_index <= args.len(),
    ensures
        !(resolution matches MethodResolution::MonitorDefaulted { .. }) ==> r@ == args@,
        resolution matches MethodResolution::MonitorDefaulted { slot, monitor_arg_index } ==> r@
            == args@.insert(monitor_arg_index as int, ArgValue::Monitor(0)),
{
    match resolution {
        MethodResolution::MonitorDefaulted { slot: _, monitor_arg_index } => {
            let mut out = args;
            out.insert(*monitor_arg_index, ArgValue::Monitor(0));
            out
        },
        _ => args,
    }
}

/// One call site for every build: resolves the method against the
/// active definition and forwards the arguments, yielding the vtable
/// slot to invoke and the argument list to pass, or the standard
/// not-implemented status where the active shape has no way to serve
/// the method.
pub fn prepare_call(
    iface: LogicalInterface,
    b: BuildVersion,
    m: MethodId,
    args: Vec<ArgValue>,
) -> (r: Result<(usize, Vec<ArgValue>), i32>)
    requires
        spec_monitor_variant(m) matches Some(mv) ==> spec_monitor_insert_position(mv)
            <= args@.len(),
    ensures
        r matches Err(code) ==> {
            &&& code == E_NOTIMPL
            &&& forall|j: int|
                0 <= j < spec_method_table(iface, b).len() ==> (#[trigger] spec_method_table(
                    iface,
                    b,
                )[j]).id != m
        },
        r matches Ok(call) ==> {
            &&& IUNKNOWN_METHOD_COUNT <= call.0
            &&& call.0 - IUNKNOWN_METHOD_COUNT < spec_method_table(iface, b).len()
            &&& {
                let entry = spec_method_table(iface, b)[call.0 - IUNKNOWN_METHOD_COUNT].id;
                ||| (entry == m && call.1@ == args@)
                ||| (spec_monitor_variant(m) matches Some(mv) && entry == mv && call.1@
                    == args@.insert(spec_monitor_insert_position(mv), ArgValue::Monitor(0)))
            }
        },
{
    let resolution = resolve_method(iface, b, m);
    match resolution {
        MethodResolution::NotImplemented => Err(E_NOTIMPL),
        MethodResolution::Direct { slot } => {
            let out = forward_args(&resolution, args);
            Ok((slot, out))
        },
        MethodResolution::MonitorDefaulted { slot, monitor_arg_index: _ } => {
            let out = forward_args(&resolution, args);
            Ok((slot, out))
        },
    }
}

} // verus!
