//! Version-erased interface handles.
//!
//! Each type below stands for a reference to a foreign object that
//! implements one logical interface.  The handle records the build
//! version it was created under; reinterpreting it as the concrete
//! shape of any other build is undefined behaviour in the foreign
//! object model, so resolution demands — as a precondition, since this
//! is a programming error and not a recoverable condition — that the
//! handle's version equals the active one.

use crate::handle::ComOwned;
use crate::registry::BuildVersion;
use crate::tables::{spec_iid, iid, LogicalInterface};
use vstd::prelude::*;

verus! {

/// Class identifier of the shell's service provider.
#[allow(non_upper_case_globals)]
pub const CLSID_ImmersiveShell: u128 = 0xC2F03A33_21F5_47FA_B4BB_156362A2F239;

/// Class identifier under which the notification service is looked up.
#[allow(non_upper_case_globals)]
pub const CLSID_IVirtualNotificationService: u128 = 0xA501FDEC_4A09_464C_AE4E_1B9C21B84918;

/// Class identifier under which the internal desktop manager is looked
/// up.
#[allow(non_upper_case_globals)]
pub const CLSID_VirtualDesktopManagerInternal: u128 = 0xC5E0CDCA_7B6E_41B2_9FC4_D93975CC467B;

/// Class identifier under which the pinned-apps service is looked up.
#[allow(non_upper_case_globals)]
pub const CLSID_VirtualDesktopPinnedApps: u128 = 0xB5A399E7_1C87_46B8_88E9_FC5747B171BD;

/// A rectangle in screen coordinates, laid out as the foreign calls
/// expect it.
#[derive(Clone, Copy, Debug, PartialEq, Eq, Structural)]
pub struct RECT {
    pub left: i32,
    pub top: i32,
    pub right: i32,
    pub bottom: i32,
}

/// A width/height pair, laid out as the foreign calls expect it.
#[derive(Clone, Copy, Debug, PartialEq, Eq, Structural)]
pub struct SIZE {
    pub cx: i32,
    pub cy: i32,
}

/// The service and interface identifiers with which one logical
/// interface is obtained from the shell's service provider, or `None`
/// for interfaces that are not service-acquired (they arrive through
/// out parameters of other calls).
pub open spec fn spec_query_service_request(iface: LogicalInterface, b: BuildVersion) -> Option<
    (u128, u128),
> {
    match iface {
        LogicalInterface::ApplicationViewCollection => Some(
            (spec_iid(iface, b), spec_iid(iface, b)),
        ),
        LogicalInterface::VirtualDesktopNotificationService => Some(
            (CLSID_IVirtualNotificationService, spec_iid(iface, b)),
        ),
        LogicalInterface::VirtualDesktopManagerInternal => Some(
            (CLSID_VirtualDesktopManagerInternal, spec_iid(iface, b)),
        ),
        LogicalInterface::VirtualDesktopPinnedApps => Some(
            (CLSID_VirtualDesktopPinnedApps, spec_iid(iface, b)),
        ),
        _ => None,
    }
}

/// The (service identifier, interface identifier) pair to hand to the
/// shell's service provider to obtain `iface` on build `b`.
pub fn query_service_request(iface: LogicalInterface, b: BuildVersion) -> (r: Option<
    (u128, u128),
>)
    ensures
        r == spec_query_service_request(iface, b),
{
    match iface {
        LogicalInterface::ApplicationViewCollection => {
            let i = iid(iface, b);
            Some((i, i))
        },
        LogicalInterface::VirtualDesktopNotificationService => Some(
            (CLSID_IVirtualNotificationService, iid(iface, b)),
        ),
        LogicalInterface::VirtualDesktopManagerInternal => Some(
            (CLSID_VirtualDesktopManagerInternal, iid(iface, b)),
        ),
        LogicalInterface::VirtualDesktopPinnedApps => Some(
            (CLSID_VirtualDesktopPinnedApps, iid(iface, b)),
        ),
        _ => None,
    }
}

/// Version-erased handle to an application view.
pub struct IApplicationView {
    com: ComOwned,
    build: BuildVersion,
}

impl IApplicationView {
    pub closed spec fn spec_build(&self) -> BuildVersion {
        self.build
    }

    pub closed spec fn spec_object(&self) -> int {
        self.com.spec_index()
    }

    /// Wraps a pointer obtained while `active` was the resolved build
    /// version.
    pub fn from_raw(com: ComOwned, active: BuildVersion) -> (r: Self)
        ensures
            r.spec_build() == active,
            r.spec_object() == com.spec_index(),
    {
        IApplicationView { com, build: active }
    }

    /// The pointer, reinterpreted as the concrete shape of `active`.
    /// The handle must have been created under the same build version:
    /// the shapes of different builds are not compatible.
    pub fn resolve(&self, active: BuildVersion) -> (r: usize)
        requires
            self.spec_build() == active,
        ensures
            r == self.spec_object(),
    {
        self.com.index()
    }

    /// The interface identifier of the concrete shape on `active`.
    pub fn iid_for(active: BuildVersion) -> (r: u128)
        ensures
            r == spec_iid(LogicalInterface::ApplicationView, active),
    {
        iid(LogicalInterface::ApplicationView, active)
    }

    /// Gives up the handle, returning the owned reference for release.
    pub fn into_owned(self) -> (r: ComOwned)
        ensures
            r.spec_index() == self.spec_object(),
    {
        self.com
    }
}

/// Version-erased handle to a virtual desktop.
pub struct IVirtualDesktop {
    com: ComOwned,
    build: BuildVersion,
}

impl IVirtualDesktop {
    pub closed spec fn spec_build(&self) -> BuildVersion {
        self.build
    }

    pub closed spec fn spec_object(&self) -> int {
        self.com.spec_index()
    }

    pub fn from_raw(com: ComOwned, active: BuildVersion) -> (r: Self)
        ensures
            r.spec_build() == active,
            r.spec_object() == com.spec_index(),
    {
        IVirtualDesktop { com, build: active }
    }

    pub fn resolve(&self, active: BuildVersion) -> (r: usize)
        requires
            self.spec_build() == active,
        ensures
            r == self.spec_object(),
    {
        self.com.index()
    }

    pub fn iid_for(active: BuildVersion) -> (r: u128)
        ensures
            r == spec_iid(LogicalInterface::VirtualDesktop, active),
    {
        iid(LogicalInterface::VirtualDesktop, active)
    }

    pub fn into_owned(self) -> (r: ComOwned)
        ensures
            r.spec_index() == self.spec_object(),
    {
        self.com
    }
}

/// Version-erased handle to the application view collection.
pub struct IApplicationViewCollection {
    com: ComOwned,
    build: BuildVersion,
}

impl IApplicationViewCollection {
    pub closed spec fn spec_build(&self) -> BuildVersion {
        self.build
    }

    pub closed spec fn spec_object(&self) -> int {
        self.com.spec_index()
    }

    pub fn from_raw(com: ComOwned, active: BuildVersion) -> (r: Self)
        ensures
            r.spec_build() == active,
            r.spec_object() == com.spec_index(),
    {
        IApplicationViewCollection { com, build: active }
    }

    pub fn resolve(&self, active: BuildVersion) -> (r: usize)
        requires
            self.spec_build() == active,
        ensures
            r == self.spec_object(),
    {
        self.com.index()
    }

    pub fn iid_for(active: BuildVersion) -> (r: u128)
        ensures
            r == spec_iid(LogicalInterface::ApplicationViewCollection, active),
    {
        iid(LogicalInterface::ApplicationViewCollection, active)
    }

    pub fn into_owned(self) -> (r: ComOwned)
        ensures
            r.spec_index() == self.spec_object(),
    {
        self.com
    }
}

/// Version-erased handle to a notification sink passed to the shell.
pub struct IVirtualDesktopNotification {
    com: ComOwned,
    build: BuildVersion,
}

impl IVirtualDesktopNotification {
    pub closed spec fn spec_build(&self) -> BuildVersion {
        self.build
    }

    pub closed spec fn spec_object(&self) -> int {
        self.com.spec_index()
    }

    pub fn from_raw(com: ComOwned, active: BuildVersion) -> (r: Self)
        ensures
            r.spec_build() == active,
            r.spec_object() == com.spec_index(),
    {
        IVirtualDesktopNotification { com, build: active }
    }

    pub fn resolve(&self, active: BuildVersion) -> (r: usize)
        requires
            self.spec_build() == active,
        ensures
            r == self.spec_object(),
    {
        self.com.index()
    }

    pub fn iid_for(active: BuildVersion) -> (r: u128)
        ensures
            r == spec_iid(LogicalInterface::VirtualDesktopNotification, active),
    {
        iid(LogicalInterface::VirtualDesktopNotification, active)
    }

    pub fn into_owned(self) -> (r: ComOwned)
        ensures
            r.spec_index() == self.spec_object(),
    {
        self.com
    }
}

/// Version-erased handle to the shell's notification service.
pub struct IVirtualDesktopNotificationService {
    com: ComOwned,
    build: BuildVersion,
}

impl IVirtualDesktopNotificationService {
    pub closed spec fn spec_build(&self) -> BuildVersion {
        self.build
    }

    pub closed spec fn spec_object(&self) -> int {
        self.com.spec_index()
    }

    pub fn from_raw(com: ComOwned, active: BuildVersion) -> (r: Self)
        ensures
            r.spec_build() == active,
            r.spec_object() == com.spec_index(),
    {
        IVirtualDesktopNotificationService { com, build: active }
    }

    pub fn resolve(&self, active: BuildVersion) -> (r: usize)
        requires
            self.spec_build() == active,
        ensures
            r == self.spec_object(),
    {
        self.com.index()
    }

    pub fn iid_for(active: BuildVersion) -> (r: u128)
        ensures
            r == spec_iid(LogicalInterface::VirtualDesktopNotificationService, active),
    {
        iid(LogicalInterface::VirtualDesktopNotificationService, active)
    }

    pub fn into_owned(self) -> (r: ComOwned)
        ensures
            r.spec_index() == self.spec_object(),
    {
        self.com
    }
}

/// Version-erased handle to the internal desktop manager.
pub struct IVirtualDesktopManagerInternal {
    com: ComOwned,
    build: BuildVersion,
}

impl IVirtualDesktopManagerInternal {
    pub closed spec fn spec_build(&self) -> BuildVersion {
        self.build
    }

    pub closed spec fn spec_object(&self) -> int {
        self.com.spec_index()
    }

    pub fn from_raw(com: ComOwned, active: BuildVersion) -> (r: Self)
        ensures
            r.spec_build() == active,
            r.spec_object() == com.spec_index(),
    {
        IVirtualDesktopManagerInternal { com, build: active }
    }

    pub fn resolve(&self, active: BuildVersion) -> (r: usize)
        requires
            self.spec_build() == active,
        ensures
            r == self.spec_object(),
    {
        self.com.index()
    }

    pub fn iid_for(active: BuildVersion) -> (r: u128)
        ensures
            r == spec_iid(LogicalInterface::VirtualDesktopManagerInternal, active),
    {
        iid(LogicalInterface::VirtualDesktopManagerInternal, active)
    }

    pub fn into_owned(self) -> (r: ComOwned)
        ensures
            r.spec_index() == self.spec_object(),
    {
        self.com
    }
}

/// Version-erased handle to the pinned-apps service.
pub struct IVirtualDesktopPinnedApps {
    com: ComOwned,
    build: BuildVersion,
}

impl IVirtualDesktopPinnedApps {
    pub closed spec fn spec_build(&self) -> BuildVersion {
        self.build
    }

    pub closed spec fn spec_object(&self) -> int {
        self.com.spec_index()
    }

    pub fn from_raw(com: ComOwned, active: BuildVersion) -> (r: Self)
        ensures
            r.spec_build() == active,
            r.spec_object() == com.spec_index(),
    {
        IVirtualDesktopPinnedApps { com, build: active }
    }

    pub fn resolve(&self, active: BuildVersion) -> (r: usize)
        requires
            self.spec_build() == active,
        ensures
            r == self.spec_object(),
    {
        self.com.index()
    }

    pub fn iid_for(active: BuildVersion) -> (r: u128)
        ensures
            r == spec_iid(LogicalInterface::VirtualDesktopPinnedApps, active),
    {
        iid(LogicalInterface::VirtualDesktopPinnedApps, active)
    }

    pub fn into_owned(self) -> (r: ComOwned)
        ensures
            r.spec_index() == self.spec_object(),
    {
        self.com
    }
}

} // verus!
