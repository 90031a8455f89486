//! Declarative per-build interface definitions.
//!
//! For each logical interface and each declared build version there is an
//! interface identifier and an ordered list of method descriptors.  Slot
//! order is positional: one insertion or removal shifts every later slot,
//! so two definitions are never assumed binary-compatible merely because
//! most methods look alike.  Definitions that did not change between
//! builds are reused, not redeclared: each table below is composed from
//! shared blocks, and a build maps to one of a small number of shapes.
//!
//! The structural fact that makes identifier reuse sound is proved here:
//! wherever two builds share an identifier for a logical interface, the
//! method-table prefix on which their descriptor names agree carries
//! identical positional signatures.

use crate::registry::BuildVersion;
use vstd::prelude::*;

verus! {

/// The logical (version-independent) interfaces of the Virtual Desktop
/// surface.
#[derive(Clone, Copy, Debug, PartialEq, Eq, Structural)]
pub enum LogicalInterface {
    ApplicationView,
    ApplicationViewCollection,
    VirtualDesktop,
    VirtualDesktopNotification,
    VirtualDesktopNotificationService,
    VirtualDesktopPinnedApps,
    VirtualDesktopManagerInternal,
}

/// Version-independent method names, covering every method observed in
/// any build's definition of any logical interface.  The `UnknownN`
/// names stand for vtable slots whose semantics are unverified; they are
/// recorded as opaque placeholders only.
#[derive(Clone, Copy, Debug, PartialEq, Eq, Structural)]
pub enum MethodId {
    // IInspectable prefix of the application view interface.
    GetIids,
    GetRuntimeClassName,
    GetTrustLevel,
    // Application view.
    SetFocus,
    SwitchTo,
    TryInvokeBack,
    GetThumbnailWindow,
    GetMonitor,
    GetVisibility,
    SetCloak,
    GetPosition,
    SetPosition,
    InsertAfterWindow,
    GetExtendedFramePosition,
    GetAppUserModelId,
    SetAppUserModelId,
    IsEqualByAppUserModelId,
    GetViewState,
    SetViewState,
    GetNeediness,
    GetLastActivationTimestamp,
    SetLastActivationTimestamp,
    GetVirtualDesktopId,
    SetVirtualDesktopId,
    GetShowInSwitchers,
    SetShowInSwitchers,
    GetScaleFactor,
    CanReceiveInput,
    GetCompatibilityPolicyType,
    SetCompatibilityPolicyType,
    GetPositionPriority,
    SetPositionPriority,
    GetSizeConstraints,
    GetSizeConstraintsForDpi,
    SetSizeConstraintsForDpi,
    QuerySizeConstraintsFromApp,
    OnMinSizePreferencesUpdated,
    ApplyOperation,
    IsTray,
    IsInHighZorderBand,
    IsSplashScreenPresented,
    Flash,
    GetRootSwitchableOwner,
    EnumerateOwnershipTree,
    GetEnterpriseId,
    IsMirrored,
    Unknown1,
    Unknown2,
    Unknown3,
    Unknown4,
    Unknown5,
    Unknown6,
    Unknown7,
    Unknown8,
    Unknown9,
    Unknown10,
    Unknown11,
    Unknown12,
    // Application view collection.
    GetViews,
    GetViewsByZorder,
    GetViewsByAppUserModelId,
    GetViewForHwnd,
    GetViewForApplication,
    GetViewForAppUserModelId,
    GetViewInFocus,
    TryGetLastActiveVisibleView,
    RefreshCollection,
    RegisterForApplicationViewChanges,
    RegisterForApplicationViewPositionChanges,
    UnregisterForApplicationViewChanges,
    // Virtual desktop.
    IsViewVisible,
    GetId,
    GetName,
    GetWallpaper,
    IsRemote,
    // Desktop manager, version-independent names.
    GetDesktopCount,
    MoveViewToDesktop,
    CanMoveViewBetweenDesktops,
    GetCurrentDesktop,
    GetDesktops,
    GetAdjacentDesktop,
    SwitchDesktop,
    CreateDesktop,
    MoveDesktop,
    RemoveDesktop,
    FindDesktop,
    GetDesktopSwitchIncludeExcludeViews,
    SetName,
    SetWallpaper,
    UpdateWallpaperForAll,
    CopyDesktopState,
    CreateRemoteDesktop,
    SwitchRemoteDesktop,
    SwitchDesktopWithAnimation,
    GetLastActiveDesktop,
    WaitForAnimationToComplete,
    SwitchDesktopAndMoveForegroundView,
    // Desktop manager, variants that take an explicit monitor argument.
    GetDesktopCountM,
    GetCurrentDesktopM,
    GetAllCurrentDesktops,
    GetDesktopsM,
    SwitchDesktopM,
    CreateDesktopM,
    MoveDesktopM,
    GetDesktopIsPerMonitor,
    SetDesktopIsPerMonitor,
    // Notification sink.
    VirtualDesktopCreated,
    VirtualDesktopDestroyBegin,
    VirtualDesktopDestroyFailed,
    VirtualDesktopDestroyed,
    VirtualDesktopIsPerMonitorChanged,
    VirtualDesktopMoved,
    VirtualDesktopNameChanged,
    ViewVirtualDesktopChanged,
    CurrentVirtualDesktopChanged,
    VirtualDesktopWallpaperChanged,
    VirtualDesktopSwitched,
    RemoteVirtualDesktopConnected,
    // Notification service.
    Register,
    Unregister,
    // Pinned apps.
    IsAppPinned,
    PinApp,
    UnpinApp,
    IsViewPinned,
    PinView,
    UnpinView,
}

/// Parameter kinds of the foreign methods, as they appear positionally
/// in the calling convention.  `In` parameters are borrowed for the call;
/// `Out` parameters transfer ownership of what they return.
#[derive(Clone, Copy, Debug, PartialEq, Eq, Structural)]
pub enum ParamType {
    NoParam,
    Int,
    IntOut,
    Uint,
    UintOut,
    UintConstPtr,
    UintPtrMut,
    I64,
    Ulonglong,
    UlonglongOut,
    Hwnd,
    HwndOut,
    Hmonitor,
    HmonitorOut,
    GuidConstPtr,
    GuidOut,
    GuidArrayOut,
    Hstring,
    HstringOut,
    Pcwstr,
    PwstrOut,
    LpVoid,
    MonitorPtr,
    MonitorPtrOut,
    SizeConstPtr,
    SizeOut,
    RectOut,
    ViewIn,
    ViewOut,
    ViewOptionOut,
    DesktopIn,
    DesktopOptionOut,
    ObjectArrayIn,
    ObjectArrayOut,
    ObjectArrayOptionOut,
    NativeBoolOut,
}

/// One method descriptor: the version-independent name and up to four
/// positional parameters (unused positions hold `NoParam`).  Every
/// method returns the foreign status code.
#[derive(Clone, Copy, Debug, PartialEq, Eq, Structural)]
pub struct MethodDesc {
    pub id: MethodId,
    pub p1: ParamType,
    pub p2: ParamType,
    pub p3: ParamType,
    pub p4: ParamType,
}

/// Vtable slots occupied by the universal root interface (reference
/// increment, reference decrement, interface query) before any declared
/// method.
pub const IUNKNOWN_METHOD_COUNT: usize = 3;

pub open spec fn m0(id: MethodId) -> MethodDesc {
    MethodDesc {
        id,
        p1: ParamType::NoParam,
        p2: ParamType::NoParam,
        p3: ParamType::NoParam,
        p4: ParamType::NoParam,
    }
}

pub open spec fn m1(id: MethodId, p1: ParamType) -> MethodDesc {
    MethodDesc { id, p1, p2: ParamType::NoParam, p3: ParamType::NoParam, p4: ParamType::NoParam }
}

pub open spec fn m2(id: MethodId, p1: ParamType, p2: ParamType) -> MethodDesc {
    MethodDesc { id, p1, p2, p3: ParamType::NoParam, p4: ParamType::NoParam }
}

pub open spec fn m3(id: MethodId, p1: ParamType, p2: ParamType, p3: ParamType) -> MethodDesc {
    MethodDesc { id, p1, p2, p3, p4: ParamType::NoParam }
}

pub open spec fn m4(
    id: MethodId,
    p1: ParamType,
    p2: ParamType,
    p3: ParamType,
    p4: ParamType,
) -> MethodDesc {
    MethodDesc { id, p1, p2, p3, p4 }
}

/// Interface identifier for one logical interface on one build.  Some
/// identifiers are shared across consecutive builds; others changed even
/// though the method list did not.
pub open spec fn spec_iid(iface: LogicalInterface, b: BuildVersion) -> u128 {
    match iface {
        LogicalInterface::ApplicationView => match b {
            BuildVersion::Build10240 => 0x9AC0B5C8_1484_4C5B_9533_4134A0F97CEAu128,
            BuildVersion::Build17134 => 0x871F602A_2B58_42B4_8C4B_6C43D642C06Fu128,
            BuildVersion::Build17663 => 0x871F602A_2B58_42B4_8C4B_6C43D642C06Fu128,
            _ => 0x372E1D3B_38D3_42E4_A15B_8AB2B178F513u128,
        },
        LogicalInterface::ApplicationViewCollection => match b {
            BuildVersion::Build10240 => 0x2C08ADF0_A386_4B35_9250_0FE183476FCCu128,
            BuildVersion::Build17134 => 0x2C08ADF0_A386_4B35_9250_0FE183476FCCu128,
            _ => 0x1841C6D7_4F9D_42C0_AF41_8747538F10E5u128,
        },
        LogicalInterface::VirtualDesktop => match b {
            BuildVersion::Build22000 => 0x536D3495_B208_4CC9_AE26_DE8111275BF8u128,
            BuildVersion::Build22621_2215 => 0x3F07F4BE_B107_441A_AF0F_39D82529072Cu128,
            BuildVersion::Build22631_2428 => 0x3F07F4BE_B107_441A_AF0F_39D82529072Cu128,
            BuildVersion::Build26100 => 0x3F07F4BE_B107_441A_AF0F_39D82529072Cu128,
            _ => 0xFF72FFDD_BE7E_43FC_9C03_AD81681E88E4u128,
        },
        LogicalInterface::VirtualDesktopNotification => match b {
            BuildVersion::Build22000 => 0xCD403E52_DEED_4C13_B437_B98380F2B1E8u128,
            BuildVersion::Build22621_2215 => 0xB287FA1C_7771_471A_A2DF_9B6B21F0D675u128,
            BuildVersion::Build22631_2428 => 0xB287FA1C_7771_471A_A2DF_9B6B21F0D675u128,
            BuildVersion::Build26100 => 0xB9E5E94D_233E_49AB_AF5C_2B4541C3AADEu128,
            _ => 0xC179334C_4295_40D3_BEA1_C654D965605Au128,
        },
        LogicalInterface::VirtualDesktopNotificationService => {
            0x0CD45E71_D927_4F15_8B0A_8FEF525337BFu128
        },
        LogicalInterface::VirtualDesktopPinnedApps => {
            0x4CE81583_1E4C_4632_A621_07A53543148Fu128
        },
        LogicalInterface::VirtualDesktopManagerInternal => match b {
            BuildVersion::Build22000 => 0xB2F925B9_5A0F_4D2E_9F4D_2B1507593C10u128,
            BuildVersion::Build22621_2215 => 0xA3175F2D_239C_4BD2_8AA0_EEBA8B0B138Eu128,
            BuildVersion::Build22631_2428 => 0xA3175F2D_239C_4BD2_8AA0_EEBA8B0B138Eu128,
            BuildVersion::Build26100 => 0x53F5CA0B_158F_4124_900C_057158060B27u128,
            _ => 0xF31574D6_B682_4CDC_BD56_1827860ABEC6u128,
        },
    }
}

pub fn iid(iface: LogicalInterface, b: BuildVersion) -> (r: u128)
    ensures
        r == spec_iid(iface, b),
{
    match iface {
        LogicalInterface::ApplicationView => match b {
            BuildVersion::Build10240 => 0x9AC0B5C8_1484_4C5B_9533_4134A0F97CEAu128,
            BuildVersion::Build17134 => 0x871F602A_2B58_42B4_8C4B_6C43D642C06Fu128,
            BuildVersion::Build17663 => 0x871F602A_2B58_42B4_8C4B_6C43D642C06Fu128,
            _ => 0x372E1D3B_38D3_42E4_A15B_8AB2B178F513u128,
        },
        LogicalInterface::ApplicationViewCollection => match b {
            BuildVersion::Build10240 => 0x2C08ADF0_A386_4B35_9250_0FE183476FCCu128,
            BuildVersion::Build17134 => 0x2C08ADF0_A386_4B35_9250_0FE183476FCCu128,
            _ => 0x1841C6D7_4F9D_42C0_AF41_8747538F10E5u128,
        },
        LogicalInterface::VirtualDesktop => match b {
            BuildVersion::Build22000 => 0x536D3495_B208_4CC9_AE26_DE8111275BF8u128,
            BuildVersion::Build22621_2215 => 0x3F07F4BE_B107_441A_AF0F_39D82529072Cu128,
            BuildVersion::Build22631_2428 => 0x3F07F4BE_B107_441A_AF0F_39D82529072Cu128,
            BuildVersion::Build26100 => 0x3F07F4BE_B107_441A_AF0F_39D82529072Cu128,
            _ => 0xFF72FFDD_BE7E_43FC_9C03_AD81681E88E4u128,
        },
        LogicalInterface::VirtualDesktopNotification => match b {
            BuildVersion::Build22000 => 0xCD403E52_DEED_4C13_B437_B98380F2B1E8u128,
            BuildVersion::Build22621_2215 => 0xB287FA1C_7771_471A_A2DF_9B6B21F0D675u128,
            BuildVersion::Build22631_2428 => 0xB287FA1C_7771_471A_A2DF_9B6B21F0D675u128,
            BuildVersion::Build26100 => 0xB9E5E94D_233E_49AB_AF5C_2B4541C3AADEu128,
            _ => 0xC179334C_4295_40D3_BEA1_C654D965605Au128,
        },
        LogicalInterface::VirtualDesktopNotificationService => {
            0x0CD45E71_D927_4F15_8B0A_8FEF525337BFu128
        },
        LogicalInterface::VirtualDesktopPinnedApps => {
            0x4CE81583_1E4C_4632_A621_07A53543148Fu128
        },
        LogicalInterface::VirtualDesktopManagerInternal => match b {
            BuildVersion::Build22000 => 0xB2F925B9_5A0F_4D2E_9F4D_2B1507593C10u128,
            BuildVersion::Build22621_2215 => 0xA3175F2D_239C_4BD2_8AA0_EEBA8B0B138Eu128,
            BuildVersion::Build22631_2428 => 0xA3175F2D_239C_4BD2_8AA0_EEBA8B0B138Eu128,
            BuildVersion::Build26100 => 0x53F5CA0B_158F_4124_900C_057158060B27u128,
            _ => 0xF31574D6_B682_4CDC_BD56_1827860ABEC6u128,
        },
    }
}

// ---------------------------------------------------------------------
// Shared table blocks.  A block is declared once and reused by every
// shape that contains it unchanged.
// ---------------------------------------------------------------------

/// Application view: the long run of methods shared by every build,
/// up to and including `SetCompatibilityPolicyType` (30 entries).
pub open spec fn av_block_head() -> Seq<MethodDesc> {
    seq![
        m2(MethodId::GetIids, ParamType::UintOut, ParamType::GuidArrayOut),
        m1(MethodId::GetRuntimeClassName, ParamType::HstringOut),
        m1(MethodId::GetTrustLevel, ParamType::LpVoid),
        m0(MethodId::SetFocus),
        m0(MethodId::SwitchTo),
        m1(MethodId::TryInvokeBack, ParamType::Uint),
        m1(MethodId::GetThumbnailWindow, ParamType::HwndOut),
        m1(MethodId::GetMonitor, ParamType::MonitorPtrOut),
        m1(MethodId::GetVisibility, ParamType::LpVoid),
        m2(MethodId::SetCloak, ParamType::Uint, ParamType::Int),
        m2(MethodId::GetPosition, ParamType::GuidConstPtr, ParamType::LpVoid),
        m1(MethodId::SetPosition, ParamType::UintPtrMut),
        m1(MethodId::InsertAfterWindow, ParamType::Hwnd),
        m1(MethodId::GetExtendedFramePosition, ParamType::RectOut),
        m1(MethodId::GetAppUserModelId, ParamType::PwstrOut),
        m1(MethodId::SetAppUserModelId, ParamType::Pcwstr),
        m2(MethodId::IsEqualByAppUserModelId, ParamType::Pcwstr, ParamType::IntOut),
        m1(MethodId::GetViewState, ParamType::UintOut),
        m1(MethodId::SetViewState, ParamType::Uint),
        m1(MethodId::GetNeediness, ParamType::IntOut),
        m1(MethodId::GetLastActivationTimestamp, ParamType::UlonglongOut),
        m1(MethodId::SetLastActivationTimestamp, ParamType::Ulonglong),
        m1(MethodId::GetVirtualDesktopId, ParamType::GuidOut),
        m1(MethodId::SetVirtualDesktopId, ParamType::GuidConstPtr),
        m1(MethodId::GetShowInSwitchers, ParamType::IntOut),
        m1(MethodId::SetShowInSwitchers, ParamType::Int),
        m1(MethodId::GetScaleFactor, ParamType::IntOut),
        m1(MethodId::CanReceiveInput, ParamType::IntOut),
        m1(MethodId::GetCompatibilityPolicyType, ParamType::UintOut),
        m1(MethodId::SetCompatibilityPolicyType, ParamType::Uint),
    ]
}

/// Application view: the position-priority pair present only in the
/// earliest shape.
pub open spec fn av_block_priority() -> Seq<MethodDesc> {
    seq![
        m1(MethodId::GetPositionPriority, ParamType::LpVoid),
        m1(MethodId::SetPositionPriority, ParamType::LpVoid),
    ]
}

/// Application view: the size-constraint group, shared by every shape.
pub open spec fn av_block_size() -> Seq<MethodDesc> {
    seq![
        m3(MethodId::GetSizeConstraints, ParamType::MonitorPtr, ParamType::SizeOut,
            ParamType::SizeOut),
        m3(MethodId::GetSizeConstraintsForDpi, ParamType::Uint, ParamType::SizeOut,
            ParamType::SizeOut),
        m3(MethodId::SetSizeConstraintsForDpi, ParamType::UintConstPtr, ParamType::SizeConstPtr,
            ParamType::SizeConstPtr),
    ]
}

/// Application view: the trailing run shared by every shape, including
/// the placeholder slots whose semantics are unverified (22 entries).
pub open spec fn av_block_tail() -> Seq<MethodDesc> {
    seq![
        m1(MethodId::OnMinSizePreferencesUpdated, ParamType::Hwnd),
        m1(MethodId::ApplyOperation, ParamType::UintPtrMut),
        m1(MethodId::IsTray, ParamType::IntOut),
        m1(MethodId::IsInHighZorderBand, ParamType::IntOut),
        m1(MethodId::IsSplashScreenPresented, ParamType::IntOut),
        m0(MethodId::Flash),
        m1(MethodId::GetRootSwitchableOwner, ParamType::ViewOut),
        m1(MethodId::EnumerateOwnershipTree, ParamType::ObjectArrayOut),
        m1(MethodId::GetEnterpriseId, ParamType::PwstrOut),
        m1(MethodId::IsMirrored, ParamType::IntOut),
        m1(MethodId::Unknown1, ParamType::IntOut),
        m1(MethodId::Unknown2, ParamType::IntOut),
        m1(MethodId::Unknown3, ParamType::IntOut),
        m1(MethodId::Unknown4, ParamType::Int),
        m1(MethodId::Unknown5, ParamType::IntOut),
        m1(MethodId::Unknown6, ParamType::Int),
        m0(MethodId::Unknown7),
        m1(MethodId::Unknown8, ParamType::IntOut),
        m1(MethodId::Unknown9, ParamType::Int),
        m2(MethodId::Unknown10, ParamType::Int, ParamType::Int),
        m1(MethodId::Unknown11, ParamType::Int),
        m1(MethodId::Unknown12, ParamType::SizeOut),
    ]
}

/// Application view shape of the earliest builds, later reused by the
/// first Windows 11 builds (58 entries).
pub open spec fn av_table_a() -> Seq<MethodDesc> {
    av_block_head() + av_block_priority() + av_block_size() + seq![
        m0(MethodId::QuerySizeConstraintsFromApp),
    ] + av_block_tail()
}

/// Application view shape with the position-priority pair and the size
/// query removed (55 entries).
pub open spec fn av_table_b() -> Seq<MethodDesc> {
    av_block_head() + av_block_size() + av_block_tail()
}

/// Application view collection: the lookup methods shared by every
/// shape (7 entries).
pub open spec fn col_block_head() -> Seq<MethodDesc> {
    seq![
        m1(MethodId::GetViews, ParamType::ObjectArrayOut),
        m1(MethodId::GetViewsByZorder, ParamType::ObjectArrayOut),
        m2(MethodId::GetViewsByAppUserModelId, ParamType::Pcwstr, ParamType::ObjectArrayOut),
        m2(MethodId::GetViewForHwnd, ParamType::Hwnd, ParamType::ViewOptionOut),
        m2(MethodId::GetViewForApplication, ParamType::Uint, ParamType::ViewOut),
        m2(MethodId::GetViewForAppUserModelId, ParamType::Pcwstr, ParamType::ViewOut),
        m1(MethodId::GetViewInFocus, ParamType::ViewOut),
    ]
}

/// Collection shape with the registration pair for position changes and
/// without the last-active-view query (11 entries).
pub open spec fn col_table_a() -> Seq<MethodDesc> {
    col_block_head() + seq![
        m0(MethodId::RefreshCollection),
        m2(MethodId::RegisterForApplicationViewChanges, ParamType::Uint, ParamType::UintOut),
        m2(MethodId::RegisterForApplicationViewPositionChanges, ParamType::Uint,
            ParamType::UintOut),
        m1(MethodId::UnregisterForApplicationViewChanges, ParamType::Uint),
    ]
}

/// Collection shape that gained the last-active-view query and lost the
/// position-change registration (11 entries).
pub open spec fn col_table_b() -> Seq<MethodDesc> {
    col_block_head() + seq![
        m1(MethodId::TryGetLastActiveVisibleView, ParamType::ViewOut),
        m0(MethodId::RefreshCollection),
        m2(MethodId::RegisterForApplicationViewChanges, ParamType::Uint, ParamType::UintOut),
        m1(MethodId::UnregisterForApplicationViewChanges, ParamType::Uint),
    ]
}

/// Virtual desktop: visibility test and identifier, shared by every
/// shape (2 entries).
pub open spec fn desk_block_head() -> Seq<MethodDesc> {
    seq![
        m2(MethodId::IsViewVisible, ParamType::ViewIn, ParamType::UintOut),
        m1(MethodId::GetId, ParamType::GuidOut),
    ]
}

/// Virtual desktop shape of the Windows 10 builds (2 entries): name and
/// wallpaper queries do not exist yet.
pub open spec fn desk_table_a() -> Seq<MethodDesc> {
    desk_block_head()
}

/// Virtual desktop shape that added monitor, name and wallpaper queries
/// (5 entries).
pub open spec fn desk_table_b() -> Seq<MethodDesc> {
    desk_block_head() + seq![
        m1(MethodId::GetMonitor, ParamType::HmonitorOut),
        m1(MethodId::GetName, ParamType::HstringOut),
        m1(MethodId::GetWallpaper, ParamType::HstringOut),
    ]
}

/// Virtual desktop shape that dropped the monitor query and added the
/// remote-session test (5 entries).
pub open spec fn desk_table_c() -> Seq<MethodDesc> {
    desk_block_head() + seq![
        m1(MethodId::GetName, ParamType::HstringOut),
        m1(MethodId::GetWallpaper, ParamType::HstringOut),
        m1(MethodId::IsRemote, ParamType::IntOut),
    ]
}

/// Desktop manager shape of the Windows 10 builds (10 entries).
pub open spec fn mgr_table_a() -> Seq<MethodDesc> {
    seq![
        m1(MethodId::GetDesktopCount, ParamType::UintOut),
        m2(MethodId::MoveViewToDesktop, ParamType::ViewIn, ParamType::DesktopIn),
        m2(MethodId::CanMoveViewBetweenDesktops, ParamType::ViewIn, ParamType::IntOut),
        m1(MethodId::GetCurrentDesktop, ParamType::DesktopOptionOut),
        m1(MethodId::GetDesktops, ParamType::ObjectArrayOptionOut),
        m3(MethodId::GetAdjacentDesktop, ParamType::DesktopIn, ParamType::Uint,
            ParamType::DesktopOptionOut),
        m1(MethodId::SwitchDesktop, ParamType::DesktopIn),
        m1(MethodId::CreateDesktop, ParamType::DesktopOptionOut),
        m2(MethodId::RemoveDesktop, ParamType::DesktopIn, ParamType::DesktopIn),
        m2(MethodId::FindDesktop, ParamType::GuidConstPtr, ParamType::DesktopOptionOut),
    ]
}

/// Desktop manager shape that took explicit monitor arguments on most
/// desktop operations (19 entries).
pub open spec fn mgr_table_b() -> Seq<MethodDesc> {
    seq![
        m2(MethodId::GetDesktopCountM, ParamType::Hmonitor, ParamType::UintOut),
        m2(MethodId::MoveViewToDesktop, ParamType::ViewIn, ParamType::DesktopIn),
        m2(MethodId::CanMoveViewBetweenDesktops, ParamType::ViewIn, ParamType::IntOut),
        m2(MethodId::GetCurrentDesktopM, ParamType::Hmonitor, ParamType::DesktopOptionOut),
        m1(MethodId::GetAllCurrentDesktops, ParamType::ObjectArrayOptionOut),
        m2(MethodId::GetDesktopsM, ParamType::Hmonitor, ParamType::ObjectArrayOptionOut),
        m3(MethodId::GetAdjacentDesktop, ParamType::DesktopIn, ParamType::Uint,
            ParamType::DesktopOptionOut),
        m2(MethodId::SwitchDesktopM, ParamType::Hmonitor, ParamType::DesktopIn),
        m2(MethodId::CreateDesktopM, ParamType::Hmonitor, ParamType::DesktopOptionOut),
        m3(MethodId::MoveDesktopM, ParamType::DesktopIn, ParamType::Hmonitor, ParamType::Uint),
        m2(MethodId::RemoveDesktop, ParamType::DesktopIn, ParamType::DesktopIn),
        m2(MethodId::FindDesktop, ParamType::GuidConstPtr, ParamType::DesktopOptionOut),
        m3(MethodId::GetDesktopSwitchIncludeExcludeViews, ParamType::DesktopIn,
            ParamType::ObjectArrayOut, ParamType::ObjectArrayOut),
        m2(MethodId::SetName, ParamType::DesktopIn, ParamType::Hstring),
        m2(MethodId::SetWallpaper, ParamType::DesktopIn, ParamType::Hstring),
        m1(MethodId::UpdateWallpaperForAll, ParamType::Hstring),
        m2(MethodId::CopyDesktopState, ParamType::ViewIn, ParamType::ViewIn),
        m1(MethodId::GetDesktopIsPerMonitor, ParamType::IntOut),
        m1(MethodId::SetDesktopIsPerMonitor, ParamType::Int),
    ]
}

/// Desktop manager: the leading run shared by the shapes that dropped
/// the monitor arguments again (7 entries).
pub open spec fn mgr_block_head() -> Seq<MethodDesc> {
    seq![
        m1(MethodId::GetDesktopCount, ParamType::UintOut),
        m2(MethodId::MoveViewToDesktop, ParamType::ViewIn, ParamType::DesktopIn),
        m2(MethodId::CanMoveViewBetweenDesktops, ParamType::ViewIn, ParamType::IntOut),
        m1(MethodId::GetCurrentDesktop, ParamType::DesktopOptionOut),
        m1(MethodId::GetDesktops, ParamType::ObjectArrayOptionOut),
        m3(MethodId::GetAdjacentDesktop, ParamType::DesktopIn, ParamType::Uint,
            ParamType::DesktopOptionOut),
        m1(MethodId::SwitchDesktop, ParamType::DesktopIn),
    ]
}

/// Desktop manager: the trailing run shared by the monitor-free shapes,
/// including the remote-desktop and animation additions (14 entries).
pub open spec fn mgr_block_tail() -> Seq<MethodDesc> {
    seq![
        m1(MethodId::CreateDesktop, ParamType::DesktopOptionOut),
        m2(MethodId::MoveDesktop, ParamType::DesktopIn, ParamType::Uint),
        m2(MethodId::RemoveDesktop, ParamType::DesktopIn, ParamType::DesktopIn),
        m2(MethodId::FindDesktop, ParamType::GuidConstPtr, ParamType::DesktopOptionOut),
        m3(MethodId::GetDesktopSwitchIncludeExcludeViews, ParamType::DesktopIn,
            ParamType::ObjectArrayOut, ParamType::ObjectArrayOut),
        m2(MethodId::SetName, ParamType::DesktopIn, ParamType::Hstring),
        m2(MethodId::SetWallpaper, ParamType::DesktopIn, ParamType::Hstring),
        m1(MethodId::UpdateWallpaperForAll, ParamType::Hstring),
        m2(MethodId::CopyDesktopState, ParamType::ViewIn, ParamType::ViewIn),
        m2(MethodId::CreateRemoteDesktop, ParamType::Hstring, ParamType::DesktopOptionOut),
        m1(MethodId::SwitchRemoteDesktop, ParamType::DesktopIn),
        m1(MethodId::SwitchDesktopWithAnimation, ParamType::DesktopIn),
        m1(MethodId::GetLastActiveDesktop, ParamType::DesktopOptionOut),
        m0(MethodId::WaitForAnimationToComplete),
    ]
}

/// Desktop manager shape that dropped the monitor arguments (21
/// entries).
pub open spec fn mgr_table_c() -> Seq<MethodDesc> {
    mgr_block_head() + mgr_block_tail()
}

/// Desktop manager shape that inserted the switch-and-move-view method
/// after the plain switch (22 entries).
pub open spec fn mgr_table_d() -> Seq<MethodDesc> {
    mgr_block_head() + seq![
        m1(MethodId::SwitchDesktopAndMoveForegroundView, ParamType::DesktopIn),
    ] + mgr_block_tail()
}

/// Notification shape of the Windows 10 builds (6 entries).
pub open spec fn ntf_table_a() -> Seq<MethodDesc> {
    seq![
        m1(MethodId::VirtualDesktopCreated, ParamType::DesktopIn),
        m2(MethodId::VirtualDesktopDestroyBegin, ParamType::DesktopIn, ParamType::DesktopIn),
        m2(MethodId::VirtualDesktopDestroyFailed, ParamType::DesktopIn, ParamType::DesktopIn),
        m2(MethodId::VirtualDesktopDestroyed, ParamType::DesktopIn, ParamType::DesktopIn),
        m1(MethodId::ViewVirtualDesktopChanged, ParamType::ViewIn),
        m2(MethodId::CurrentVirtualDesktopChanged, ParamType::DesktopIn, ParamType::DesktopIn),
    ]
}

/// Notification shape that carried monitor arrays and the per-monitor
/// flag (12 entries).
pub open spec fn ntf_table_b() -> Seq<MethodDesc> {
    seq![
        m2(MethodId::VirtualDesktopCreated, ParamType::ObjectArrayIn, ParamType::DesktopIn),
        m3(MethodId::VirtualDesktopDestroyBegin, ParamType::ObjectArrayIn, ParamType::DesktopIn,
            ParamType::DesktopIn),
        m3(MethodId::VirtualDesktopDestroyFailed, ParamType::ObjectArrayIn, ParamType::DesktopIn,
            ParamType::DesktopIn),
        m3(MethodId::VirtualDesktopDestroyed, ParamType::ObjectArrayIn, ParamType::DesktopIn,
            ParamType::DesktopIn),
        m1(MethodId::VirtualDesktopIsPerMonitorChanged, ParamType::Int),
        m4(MethodId::VirtualDesktopMoved, ParamType::ObjectArrayIn, ParamType::DesktopIn,
            ParamType::I64, ParamType::I64),
        m2(MethodId::VirtualDesktopNameChanged, ParamType::DesktopIn, ParamType::Hstring),
        m1(MethodId::ViewVirtualDesktopChanged, ParamType::ViewIn),
        m3(MethodId::CurrentVirtualDesktopChanged, ParamType::ObjectArrayIn, ParamType::DesktopIn,
            ParamType::DesktopIn),
        m2(MethodId::VirtualDesktopWallpaperChanged, ParamType::DesktopIn, ParamType::Hstring),
        m1(MethodId::VirtualDesktopSwitched, ParamType::DesktopIn),
        m1(MethodId::RemoteVirtualDesktopConnected, ParamType::DesktopIn),
    ]
}

/// Notification shape that dropped the monitor arguments again (11
/// entries, one per stable callback).
pub open spec fn ntf_table_c() -> Seq<MethodDesc> {
    seq![
        m1(MethodId::VirtualDesktopCreated, ParamType::DesktopIn),
        m2(MethodId::VirtualDesktopDestroyBegin, ParamType::DesktopIn, ParamType::DesktopIn),
        m2(MethodId::VirtualDesktopDestroyFailed, ParamType::DesktopIn, ParamType::DesktopIn),
        m2(MethodId::VirtualDesktopDestroyed, ParamType::DesktopIn, ParamType::DesktopIn),
        m3(MethodId::VirtualDesktopMoved, ParamType::DesktopIn, ParamType::I64, ParamType::I64),
        m2(MethodId::VirtualDesktopNameChanged, ParamType::DesktopIn, ParamType::Hstring),
        m1(MethodId::ViewVirtualDesktopChanged, ParamType::ViewIn),
        m2(MethodId::CurrentVirtualDesktopChanged, ParamType::DesktopIn, ParamType::DesktopIn),
        m2(MethodId::VirtualDesktopWallpaperChanged, ParamType::DesktopIn, ParamType::Hstring),
        m1(MethodId::VirtualDesktopSwitched, ParamType::DesktopIn),
        m1(MethodId::RemoteVirtualDesktopConnected, ParamType::DesktopIn),
    ]
}

/// Notification service shape, identical on every build (2 entries).
pub open spec fn svc_table() -> Seq<MethodDesc> {
    seq![
        m2(MethodId::Register, ParamType::LpVoid, ParamType::UintOut),
        m1(MethodId::Unregister, ParamType::Uint),
    ]
}

/// Pinned-apps shape, identical on every build (6 entries).
pub open spec fn pin_table() -> Seq<MethodDesc> {
    seq![
        m2(MethodId::IsAppPinned, ParamType::Pcwstr, ParamType::NativeBoolOut),
        m1(MethodId::PinApp, ParamType::Pcwstr),
        m1(MethodId::UnpinApp, ParamType::Pcwstr),
        m2(MethodId::IsViewPinned, ParamType::ViewIn, ParamType::NativeBoolOut),
        m1(MethodId::PinView, ParamType::ViewIn),
        m1(MethodId::UnpinView, ParamType::ViewIn),
    ]
}

/// The method table declared for one logical interface on one build.
pub open spec fn spec_method_table(iface: LogicalInterface, b: BuildVersion) -> Seq<MethodDesc> {
    match iface {
        LogicalInterface::ApplicationView => match b {
            BuildVersion::Build17134 => av_table_b(),
            BuildVersion::Build17663 => av_table_b(),
            BuildVersion::Build19044_4355 => av_table_b(),
            BuildVersion::Build19045 => av_table_b(),
            BuildVersion::Build26100 => av_table_b(),
            _ => av_table_a(),
        },
        LogicalInterface::ApplicationViewCollection => match b {
            BuildVersion::Build17663 => col_table_b(),
            BuildVersion::Build19044_4355 => col_table_b(),
            BuildVersion::Build19045 => col_table_b(),
            BuildVersion::Build26100 => col_table_b(),
            _ => col_table_a(),
        },
        LogicalInterface::VirtualDesktop => match b {
            BuildVersion::Build22000 => desk_table_b(),
            BuildVersion::Build22621_2215 => desk_table_c(),
            BuildVersion::Build22631_2428 => desk_table_c(),
            BuildVersion::Build26100 => desk_table_c(),
            _ => desk_table_a(),
        },
        LogicalInterface::VirtualDesktopNotification => match b {
            BuildVersion::Build22000 => ntf_table_b(),
            BuildVersion::Build22621_2215 => ntf_table_c(),
            BuildVersion::Build22631_2428 => ntf_table_c(),
            BuildVersion::Build26100 => ntf_table_c(),
            _ => ntf_table_a(),
        },
        LogicalInterface::VirtualDesktopNotificationService => svc_table(),
        LogicalInterface::VirtualDesktopPinnedApps => pin_table(),
        LogicalInterface::VirtualDesktopManagerInternal => match b {
            BuildVersion::Build22000 => mgr_table_b(),
            BuildVersion::Build22621_2215 => mgr_table_c(),
            BuildVersion::Build22631_2428 => mgr_table_c(),
            BuildVersion::Build26100 => mgr_table_d(),
            _ => mgr_table_a(),
        },
    }
}

// ---------------------------------------------------------------------
// Structural compatibility of tables that share an identifier.
// ---------------------------------------------------------------------

/// The first `n` descriptor names of the two tables agree positionally.
pub open spec fn ids_agree_upto(s1: Seq<MethodDesc>, s2: Seq<MethodDesc>, n: int) -> bool {
    forall|j: int| 0 <= j < n ==> (#[trigger] s1[j]).id == s2[j].id
}

/// Within the longest positional run on which the two tables name the
/// same methods, every descriptor is identical (same signature in the
/// same slot), so a caller bound to either table may call through that
/// shared prefix.
pub open spec fn tables_prefix_compatible(s1: Seq<MethodDesc>, s2: Seq<MethodDesc>) -> bool {
    forall|i: int|
        0 <= i < s1.len() && i < s2.len() && ids_agree_upto(s1, s2, i + 1) ==> (#[trigger] s1[i])
            == s2[i]
}

pub proof fn lemma_tables_prefix_compatible_refl(s: Seq<MethodDesc>)
    ensures
        tables_prefix_compatible(s, s),
{
}

/// The two application-view shapes agree descriptor-for-descriptor up to
/// the point where the earlier shape declares the position-priority
/// pair, and their names diverge exactly there.
pub proof fn lemma_av_shapes_compatible()
    ensures
        tables_prefix_compatible(av_table_a(), av_table_b()),
        tables_prefix_compatible(av_table_b(), av_table_a()),
{
    let s1 = av_table_a();
    let s2 = av_table_b();
    assert(av_block_head().len() == 30);
    assert(s1[30] == av_block_priority()[0]);
    assert(s2[30] == av_block_size()[0]);
    assert(s1[30].id == MethodId::GetPositionPriority);
    assert(s2[30].id == MethodId::GetSizeConstraints);
    assert forall|i: int|
        0 <= i < s1.len() && i < s2.len() && ids_agree_upto(s1, s2, i + 1) implies (s1[i]
        == s2[i]) by {
        if i < 30 {
            assert(s1[i] == av_block_head()[i]);
            assert(s2[i] == av_block_head()[i]);
        } else {
            assert(s1[30].id != s2[30].id);
            assert(false);
        }
    }
    assert forall|i: int|
        0 <= i < s2.len() && i < s1.len() && ids_agree_upto(s2, s1, i + 1) implies (s2[i]
        == s1[i]) by {
        if i < 30 {
            assert(s1[i] == av_block_head()[i]);
            assert(s2[i] == av_block_head()[i]);
        } else {
            assert(s2[30].id != s1[30].id);
            assert(false);
        }
    }
}

/// The two collection shapes agree on the seven lookup methods and
/// diverge in name immediately after.
pub proof fn lemma_col_shapes_compatible()
    ensures
        tables_prefix_compatible(col_table_a(), col_table_b()),
        tables_prefix_compatible(col_table_b(), col_table_a()),
{
    let s1 = col_table_a();
    let s2 = col_table_b();
    assert(col_block_head().len() == 7);
    assert(s1[7].id == MethodId::RefreshCollection);
    assert(s2[7].id == MethodId::TryGetLastActiveVisibleView);
    assert forall|i: int|
        0 <= i < s1.len() && i < s2.len() && ids_agree_upto(s1, s2, i + 1) implies (s1[i]
        == s2[i]) by {
        if i < 7 {
            assert(s1[i] == col_block_head()[i]);
            assert(s2[i] == col_block_head()[i]);
        } else {
            assert(s1[7].id != s2[7].id);
            assert(false);
        }
    }
    assert forall|i: int|
        0 <= i < s2.len() && i < s1.len() && ids_agree_upto(s2, s1, i + 1) implies (s2[i]
        == s1[i]) by {
        if i < 7 {
            assert(s1[i] == col_block_head()[i]);
            assert(s2[i] == col_block_head()[i]);
        } else {
            assert(s2[7].id != s1[7].id);
            assert(false);
        }
    }
}

/// Wherever two declared builds share an interface identifier for a
/// logical interface, their method tables are call-compatible on the
/// prefix where their method names agree.  An identifier reused across
/// builds therefore never silently changes the meaning of a slot that
/// both definitions name the same way.
pub proof fn lemma_shared_iid_prefix_compatible(
    iface: LogicalInterface,
    v1: BuildVersion,
    v2: BuildVersion,
)
    requires
        v1.decl_index() < v2.decl_index(),
        spec_iid(iface, v1) == spec_iid(iface, v2),
    ensures
        tables_prefix_compatible(spec_method_table(iface, v1), spec_method_table(iface, v2)),
{
    match iface {
        LogicalInterface::ApplicationView => {
            lemma_tables_prefix_compatible_refl(av_table_a());
            lemma_tables_prefix_compatible_refl(av_table_b());
            lemma_av_shapes_compatible();
        },
        LogicalInterface::ApplicationViewCollection => {
            lemma_tables_prefix_compatible_refl(col_table_a());
            lemma_tables_prefix_compatible_refl(col_table_b());
            lemma_col_shapes_compatible();
        },
        LogicalInterface::VirtualDesktop => {
            lemma_tables_prefix_compatible_refl(desk_table_a());
            lemma_tables_prefix_compatible_refl(desk_table_b());
            lemma_tables_prefix_compatible_refl(desk_table_c());
        },
        LogicalInterface::VirtualDesktopNotification => {
            lemma_tables_prefix_compatible_refl(ntf_table_a());
            lemma_tables_prefix_compatible_refl(ntf_table_b());
            lemma_tables_prefix_compatible_refl(ntf_table_c());
        },
        LogicalInterface::VirtualDesktopNotificationService => {
            lemma_tables_prefix_compatible_refl(svc_table());
        },
        LogicalInterface::VirtualDesktopPinnedApps => {
            lemma_tables_prefix_compatible_refl(pin_table());
        },
        LogicalInterface::VirtualDesktopManagerInternal => {
            lemma_tables_prefix_compatible_refl(mgr_table_a());
            lemma_tables_prefix_compatible_refl(mgr_table_b());
            lemma_tables_prefix_compatible_refl(mgr_table_c());
            lemma_tables_prefix_compatible_refl(mgr_table_d());
        },
    }
}

// ---------------------------------------------------------------------
// Executable tables.  Each builder constructs exactly the sequence its
// spec-level counterpart declares; verification rejects any divergence.
// ---------------------------------------------------------------------

fn push0(t: &mut Vec<MethodDesc>, id: MethodId)
    ensures
        final(t)@ == old(t)@.push(m0(id)),
{
    t.push(MethodDesc {
        id,
        p1: ParamType::NoParam,
        p2: ParamType::NoParam,
        p3: ParamType::NoParam,
        p4: ParamType::NoParam,
    });
}

fn push1(t: &mut Vec<MethodDesc>, id: MethodId, p1: ParamType)
    ensures
        final(t)@ == old(t)@.push(m1(id, p1)),
{
    t.push(MethodDesc {
        id,
        p1,
        p2: ParamType::NoParam,
        p3: ParamType::NoParam,
        p4: ParamType::NoParam,
    });
}

fn push2(t: &mut Vec<MethodDesc>, id: MethodId, p1: ParamType, p2: ParamType)
    ensures
        final(t)@ == old(t)@.push(m2(id, p1, p2)),
{
    t.push(MethodDesc { id, p1, p2, p3: ParamType::NoParam, p4: ParamType::NoParam });
}

fn push3(t: &mut Vec<MethodDesc>, id: MethodId, p1: ParamType, p2: ParamType, p3: ParamType)
    ensures
        final(t)@ == old(t)@.push(m3(id, p1, p2, p3)),
{
    t.push(MethodDesc { id, p1, p2, p3, p4: ParamType::NoParam });
}

fn push4(
    t: &mut Vec<MethodDesc>,
    id: MethodId,
    p1: ParamType,
    p2: ParamType,
    p3: ParamType,
    p4: ParamType,
)
    ensures
        final(t)@ == old(t)@.push(m4(id, p1, p2, p3, p4)),
{
    t.push(MethodDesc { id, p1, p2, p3, p4 });
}

fn push_av_block_head(t: &mut Vec<MethodDesc>)
    ensures
        final(t)@ == old(t)@ + av_block_head(),
{
    push2(t, MethodId::GetIids, ParamType::UintOut, ParamType::GuidArrayOut);
    push1(t, MethodId::GetRuntimeClassName, ParamType::HstringOut);
    push1(t, MethodId::GetTrustLevel, ParamType::LpVoid);
    push0(t, MethodId::SetFocus);
    push0(t, MethodId::SwitchTo);
    push1(t, MethodId::TryInvokeBack, ParamType::Uint);
    push1(t, MethodId::GetThumbnailWindow, ParamType::HwndOut);
    push1(t, MethodId::GetMonitor, ParamType::MonitorPtrOut);
    push1(t, MethodId::GetVisibility, ParamType::LpVoid);
    push2(t, MethodId::SetCloak, ParamType::Uint, ParamType::Int);
    push2(t, MethodId::GetPosition, ParamType::GuidConstPtr, ParamType::LpVoid);
    push1(t, MethodId::SetPosition, ParamType::UintPtrMut);
    push1(t, MethodId::InsertAfterWindow, ParamType::Hwnd);
    push1(t, MethodId::GetExtendedFramePosition, ParamType::RectOut);
    push1(t, MethodId::GetAppUserModelId, ParamType::PwstrOut);
    push1(t, MethodId::SetAppUserModelId, ParamType::Pcwstr);
    push2(t, MethodId::IsEqualByAppUserModelId, ParamType::Pcwstr, ParamType::IntOut);
    push1(t, MethodId::GetViewState, ParamType::UintOut);
    push1(t, MethodId::SetViewState, ParamType::Uint);
    push1(t, MethodId::GetNeediness, ParamType::IntOut);
    push1(t, MethodId::GetLastActivationTimestamp, ParamType::UlonglongOut);
    push1(t, MethodId::SetLastActivationTimestamp, ParamType::Ulonglong);
    push1(t, MethodId::GetVirtualDesktopId, ParamType::GuidOut);
    push1(t, MethodId::SetVirtualDesktopId, ParamType::GuidConstPtr);
    push1(t, MethodId::GetShowInSwitchers, ParamType::IntOut);
    push1(t, MethodId::SetShowInSwitchers, ParamType::Int);
    push1(t, MethodId::GetScaleFactor, ParamType::IntOut);
    push1(t, MethodId::CanReceiveInput, ParamType::IntOut);
    push1(t, MethodId::GetCompatibilityPolicyType, ParamType::UintOut);
    push1(t, MethodId::SetCompatibilityPolicyType, ParamType::Uint);
    proof {
        assert(t@ =~= old(t)@ + av_block_head());
    }
}

fn push_av_block_size(t: &mut Vec<MethodDesc>)
    ensures
        final(t)@ == old(t)@ + av_block_size(),
{
    push3(t, MethodId::GetSizeConstraints, ParamType::MonitorPtr, ParamType::SizeOut,
        ParamType::SizeOut);
    push3(t, MethodId::GetSizeConstraintsForDpi, ParamType::Uint, ParamType::SizeOut,
        ParamType::SizeOut);
    push3(t, MethodId::SetSizeConstraintsForDpi, ParamType::UintConstPtr, ParamType::SizeConstPtr,
        ParamType::SizeConstPtr);
    proof {
        assert(t@ =~= old(t)@ + av_block_size());
    }
}

fn push_av_block_tail(t: &mut Vec<MethodDesc>)
    ensures
        final(t)@ == old(t)@ + av_block_tail(),
{
    push1(t, MethodId::OnMinSizePreferencesUpdated, ParamType::Hwnd);
    push1(t, MethodId::ApplyOperation, ParamType::UintPtrMut);
    push1(t, MethodId::IsTray, ParamType::IntOut);
    push1(t, MethodId::IsInHighZorderBand, ParamType::IntOut);
    push1(t, MethodId::IsSplashScreenPresented, ParamType::IntOut);
    push0(t, MethodId::Flash);
    push1(t, MethodId::GetRootSwitchableOwner, ParamType::ViewOut);
    push1(t, MethodId::EnumerateOwnershipTree, ParamType::ObjectArrayOut);
    push1(t, MethodId::GetEnterpriseId, ParamType::PwstrOut);
    push1(t, MethodId::IsMirrored, ParamType::IntOut);
    push1(t, MethodId::Unknown1, ParamType::IntOut);
    push1(t, MethodId::Unknown2, ParamType::IntOut);
    push1(t, MethodId::Unknown3, ParamType::IntOut);
    push1(t, MethodId::Unknown4, ParamType::Int);
    push1(t, MethodId::Unknown5, ParamType::IntOut);
    push1(t, MethodId::Unknown6, ParamType::Int);
    push0(t, MethodId::Unknown7);
    push1(t, MethodId::Unknown8, ParamType::IntOut);
    push1(t, MethodId::Unknown9, ParamType::Int);
    push2(t, MethodId::Unknown10, ParamType::Int, ParamType::Int);
    push1(t, MethodId::Unknown11, ParamType::Int);
    push1(t, MethodId::Unknown12, ParamType::SizeOut);
    proof {
        assert(t@ =~= old(t)@ + av_block_tail());
    }
}

fn build_av_table_a() -> (r: Vec<MethodDesc>)
    ensures
        r@ == av_table_a(),
{
    let mut t: Vec<MethodDesc> = Vec::new();
    push_av_block_head(&mut t);
    push1(&mut t, MethodId::GetPositionPriority, ParamType::LpVoid);
    push1(&mut t, MethodId::SetPositionPriority, ParamType::LpVoid);
    push_av_block_size(&mut t);
    push0(&mut t, MethodId::QuerySizeConstraintsFromApp);
    push_av_block_tail(&mut t);
    proof {
        assert(t@ =~= av_table_a());
    }
    t
}

fn build_av_table_b() -> (r: Vec<MethodDesc>)
    ensures
        r@ == av_table_b(),
{
    let mut t: Vec<MethodDesc> = Vec::new();
    push_av_block_head(&mut t);
    push_av_block_size(&mut t);
    push_av_block_tail(&mut t);
    proof {
        assert(t@ =~= av_table_b());
    }
    t
}

fn push_col_block_head(t: &mut Vec<MethodDesc>)
    ensures
        final(t)@ == old(t)@ + col_block_head(),
{
    push1(t, MethodId::GetViews, ParamType::ObjectArrayOut);
    push1(t, MethodId::GetViewsByZorder, ParamType::ObjectArrayOut);
    push2(t, MethodId::GetViewsByAppUserModelId, ParamType::Pcwstr, ParamType::ObjectArrayOut);
    push2(t, MethodId::GetViewForHwnd, ParamType::Hwnd, ParamType::ViewOptionOut);
    push2(t, MethodId::GetViewForApplication, ParamType::Uint, ParamType::ViewOut);
    push2(t, MethodId::GetViewForAppUserModelId, ParamType::Pcwstr, ParamType::ViewOut);
    push1(t, MethodId::GetViewInFocus, ParamType::ViewOut);
    proof {
        assert(t@ =~= old(t)@ + col_block_head());
    }
}

fn build_col_table_a() -> (r: Vec<MethodDesc>)
    ensures
        r@ == col_table_a(),
{
    let mut t: Vec<MethodDesc> = Vec::new();
    push_col_block_head(&mut t);
    push0(&mut t, MethodId::RefreshCollection);
    push2(&mut t, MethodId::RegisterForApplicationViewChanges, ParamType::Uint, ParamType::UintOut);
    push2(&mut t, MethodId::RegisterForApplicationViewPositionChanges, ParamType::Uint,
        ParamType::UintOut);
    push1(&mut t, MethodId::UnregisterForApplicationViewChanges, ParamType::Uint);
    proof {
        assert(t@ =~= col_table_a());
    }
    t
}

fn build_col_table_b() -> (r: Vec<MethodDesc>)
    ensures
        r@ == col_table_b(),
{
    let mut t: Vec<MethodDesc> = Vec::new();
    push_col_block_head(&mut t);
    push1(&mut t, MethodId::TryGetLastActiveVisibleView, ParamType::ViewOut);
    push0(&mut t, MethodId::RefreshCollection);
    push2(&mut t, MethodId::RegisterForApplicationViewChanges, ParamType::Uint, ParamType::UintOut);
    push1(&mut t, MethodId::UnregisterForApplicationViewChanges, ParamType::Uint);
    proof {
        assert(t@ =~= col_table_b());
    }
    t
}

fn push_desk_block_head(t: &mut Vec<MethodDesc>)
    ensures
        final(t)@ == old(t)@ + desk_block_head(),
{
    push2(t, MethodId::IsViewVisible, ParamType::ViewIn, ParamType::UintOut);
    push1(t, MethodId::GetId, ParamType::GuidOut);
    proof {
        assert(t@ =~= old(t)@ + desk_block_head());
    }
}

fn build_desk_table_a() -> (r: Vec<MethodDesc>)
    ensures
        r@ == desk_table_a(),
{
    let mut t: Vec<MethodDesc> = Vec::new();
    push_desk_block_head(&mut t);
    proof {
        assert(t@ =~= desk_table_a());
    }
    t
}

fn build_desk_table_b() -> (r: Vec<MethodDesc>)
    ensures
        r@ == desk_table_b(),
{
    let mut t: Vec<MethodDesc> = Vec::new();
    push_desk_block_head(&mut t);
    push1(&mut t, MethodId::GetMonitor, ParamType::HmonitorOut);
    push1(&mut t, MethodId::GetName, ParamType::HstringOut);
    push1(&mut t, MethodId::GetWallpaper, ParamType::HstringOut);
    proof {
        assert(t@ =~= desk_table_b());
    }
    t
}

fn build_desk_table_c() -> (r: Vec<MethodDesc>)
    ensures
        r@ == desk_table_c(),
{
    let mut t: Vec<MethodDesc> = Vec::new();
    push_desk_block_head(&mut t);
    push1(&mut t, MethodId::GetName, ParamType::HstringOut);
    push1(&mut t, MethodId::GetWallpaper, ParamType::HstringOut);
    push1(&mut t, MethodId::IsRemote, ParamType::IntOut);
    proof {
        assert(t@ =~= desk_table_c());
    }
    t
}

fn build_mgr_table_a() -> (r: Vec<MethodDesc>)
    ensures
        r@ == mgr_table_a(),
{
    let mut t: Vec<MethodDesc> = Vec::new();
    push1(&mut t, MethodId::GetDesktopCount, ParamType::UintOut);
    push2(&mut t, MethodId::MoveViewToDesktop, ParamType::ViewIn, ParamType::DesktopIn);
    push2(&mut t, MethodId::CanMoveViewBetweenDesktops, ParamType::ViewIn, ParamType::IntOut);
    push1(&mut t, MethodId::GetCurrentDesktop, ParamType::DesktopOptionOut);
    push1(&mut t, MethodId::GetDesktops, ParamType::ObjectArrayOptionOut);
    push3(&mut t, MethodId::GetAdjacentDesktop, ParamType::DesktopIn, ParamType::Uint,
        ParamType::DesktopOptionOut);
    push1(&mut t, MethodId::SwitchDesktop, ParamType::DesktopIn);
    push1(&mut t, MethodId::CreateDesktop, ParamType::DesktopOptionOut);
    push2(&mut t, MethodId::RemoveDesktop, ParamType::DesktopIn, ParamType::DesktopIn);
    push2(&mut t, MethodId::FindDesktop, ParamType::GuidConstPtr, ParamType::DesktopOptionOut);
    proof {
        assert(t@ =~= mgr_table_a());
    }
    t
}

fn build_mgr_table_b() -> (r: Vec<MethodDesc>)
    ensures
        r@ == mgr_table_b(),
{
    let mut t: Vec<MethodDesc> = Vec::new();
    push2(&mut t, MethodId::GetDesktopCountM, ParamType::Hmonitor, ParamType::UintOut);
    push2(&mut t, MethodId::MoveViewToDesktop, ParamType::ViewIn, ParamType::DesktopIn);
    push2(&mut t, MethodId::CanMoveViewBetweenDesktops, ParamType::ViewIn, ParamType::IntOut);
    push2(&mut t, MethodId::GetCurrentDesktopM, ParamType::Hmonitor, ParamType::DesktopOptionOut);
    push1(&mut t, MethodId::GetAllCurrentDesktops, ParamType::ObjectArrayOptionOut);
    push2(&mut t, MethodId::GetDesktopsM, ParamType::Hmonitor, ParamType::ObjectArrayOptionOut);
    push3(&mut t, MethodId::GetAdjacentDesktop, ParamType::DesktopIn, ParamType::Uint,
        ParamType::DesktopOptionOut);
    push2(&mut t, MethodId::SwitchDesktopM, ParamType::Hmonitor, ParamType::DesktopIn);
    push2(&mut t, MethodId::CreateDesktopM, ParamType::Hmonitor, ParamType::DesktopOptionOut);
    push3(&mut t, MethodId::MoveDesktopM, ParamType::DesktopIn, ParamType::Hmonitor,
        ParamType::Uint);
    push2(&mut t, MethodId::RemoveDesktop, ParamType::DesktopIn, ParamType::DesktopIn);
    push2(&mut t, MethodId::FindDesktop, ParamType::GuidConstPtr, ParamType::DesktopOptionOut);
    push3(&mut t, MethodId::GetDesktopSwitchIncludeExcludeViews, ParamType::DesktopIn,
        ParamType::ObjectArrayOut, ParamType::ObjectArrayOut);
    push2(&mut t, MethodId::SetName, ParamType::DesktopIn, ParamType::Hstring);
    push2(&mut t, MethodId::SetWallpaper, ParamType::DesktopIn, ParamType::Hstring);
    push1(&mut t, MethodId::UpdateWallpaperForAll, ParamType::Hstring);
    push2(&mut t, MethodId::CopyDesktopState, ParamType::ViewIn, ParamType::ViewIn);
    push1(&mut t, MethodId::GetDesktopIsPerMonitor, ParamType::IntOut);
    push1(&mut t, MethodId::SetDesktopIsPerMonitor, ParamType::Int);
    proof {
        assert(t@ =~= mgr_table_b());
    }
    t
}

fn push_mgr_block_head(t: &mut Vec<MethodDesc>)
    ensures
        final(t)@ == old(t)@ + mgr_block_head(),
{
    push1(t, MethodId::GetDesktopCount, ParamType::UintOut);
    push2(t, MethodId::MoveViewToDesktop, ParamType::ViewIn, ParamType::DesktopIn);
    push2(t, MethodId::CanMoveViewBetweenDesktops, ParamType::ViewIn, ParamType::IntOut);
    push1(t, MethodId::GetCurrentDesktop, ParamType::DesktopOptionOut);
    push1(t, MethodId::GetDesktops, ParamType::ObjectArrayOptionOut);
    push3(t, MethodId::GetAdjacentDesktop, ParamType::DesktopIn, ParamType::Uint,
        ParamType::DesktopOptionOut);
    push1(t, MethodId::SwitchDesktop, ParamType::DesktopIn);
    proof {
        assert(t@ =~= old(t)@ + mgr_block_head());
    }
}

fn push_mgr_block_tail(t: &mut Vec<MethodDesc>)
    ensures
        final(t)@ == old(t)@ + mgr_block_tail(),
{
    push1(t, MethodId::CreateDesktop, ParamType::DesktopOptionOut);
    push2(t, MethodId::MoveDesktop, ParamType::DesktopIn, ParamType::Uint);
    push2(t, MethodId::RemoveDesktop, ParamType::DesktopIn, ParamType::DesktopIn);
    push2(t, MethodId::FindDesktop, ParamType::GuidConstPtr, ParamType::DesktopOptionOut);
    push3(t, MethodId::GetDesktopSwitchIncludeExcludeViews, ParamType::DesktopIn,
        ParamType::ObjectArrayOut, ParamType::ObjectArrayOut);
    push2(t, MethodId::SetName, ParamType::DesktopIn, ParamType::Hstring);
    push2(t, MethodId::SetWallpaper, ParamType::DesktopIn, ParamType::Hstring);
    push1(t, MethodId::UpdateWallpaperForAll, ParamType::Hstring);
    push2(t, MethodId::CopyDesktopState, ParamType::ViewIn, ParamType::ViewIn);
    push2(t, MethodId::CreateRemoteDesktop, ParamType::Hstring, ParamType::DesktopOptionOut);
    push1(t, MethodId::SwitchRemoteDesktop, ParamType::DesktopIn);
    push1(t, MethodId::SwitchDesktopWithAnimation, ParamType::DesktopIn);
    push1(t, MethodId::GetLastActiveDesktop, ParamType::DesktopOptionOut);
    push0(t, MethodId::WaitForAnimationToComplete);
    proof {
        assert(t@ =~= old(t)@ + mgr_block_tail());
    }
}

fn build_mgr_table_c() -> (r: Vec<MethodDesc>)
    ensures
        r@ == mgr_table_c(),
{
    let mut t: Vec<MethodDesc> = Vec::new();
    push_mgr_block_head(&mut t);
    push_mgr_block_tail(&mut t);
    proof {
        assert(t@ =~= mgr_table_c());
    }
    t
}

fn build_mgr_table_d() -> (r: Vec<MethodDesc>)
    ensures
        r@ == mgr_table_d(),
{
    let mut t: Vec<MethodDesc> = Vec::new();
    push_mgr_block_head(&mut t);
    push1(&mut t, MethodId::SwitchDesktopAndMoveForegroundView, ParamType::DesktopIn);
    push_mgr_block_tail(&mut t);
    proof {
        assert(t@ =~= mgr_table_d());
    }
    t
}

fn build_ntf_table_a() -> (r: Vec<MethodDesc>)
    ensures
        r@ == ntf_table_a(),
{
    let mut t: Vec<MethodDesc> = Vec::new();
    push1(&mut t, MethodId::VirtualDesktopCreated, ParamType::DesktopIn);
    push2(&mut t, MethodId::VirtualDesktopDestroyBegin, ParamType::DesktopIn, ParamType::DesktopIn);
    push2(&mut t, MethodId::VirtualDesktopDestroyFailed, ParamType::DesktopIn,
        ParamType::DesktopIn);
    push2(&mut t, MethodId::VirtualDesktopDestroyed, ParamType::DesktopIn, ParamType::DesktopIn);
    push1(&mut t, MethodId::ViewVirtualDesktopChanged, ParamType::ViewIn);
    push2(&mut t, MethodId::CurrentVirtualDesktopChanged, ParamType::DesktopIn,
        ParamType::DesktopIn);
    proof {
        assert(t@ =~= ntf_table_a());
    }
    t
}

fn build_ntf_table_b() -> (r: Vec<MethodDesc>)
    ensures
        r@ == ntf_table_b(),
{
    let mut t: Vec<MethodDesc> = Vec::new();
    push2(&mut t, MethodId::VirtualDesktopCreated, ParamType::ObjectArrayIn, ParamType::DesktopIn);
    push3(&mut t, MethodId::VirtualDesktopDestroyBegin, ParamType::ObjectArrayIn,
        ParamType::DesktopIn, ParamType::DesktopIn);
    push3(&mut t, MethodId::VirtualDesktopDestroyFailed, ParamType::ObjectArrayIn,
        ParamType::DesktopIn, ParamType::DesktopIn);
    push3(&mut t, MethodId::VirtualDesktopDestroyed, ParamType::ObjectArrayIn,
        ParamType::DesktopIn, ParamType::DesktopIn);
    push1(&mut t, MethodId::VirtualDesktopIsPerMonitorChanged, ParamType::Int);
    push4(&mut t, MethodId::VirtualDesktopMoved, ParamType::ObjectArrayIn, ParamType::DesktopIn,
        ParamType::I64, ParamType::I64);
    push2(&mut t, MethodId::VirtualDesktopNameChanged, ParamType::DesktopIn, ParamType::Hstring);
    push1(&mut t, MethodId::ViewVirtualDesktopChanged, ParamType::ViewIn);
    push3(&mut t, MethodId::CurrentVirtualDesktopChanged, ParamType::ObjectArrayIn,
        ParamType::DesktopIn, ParamType::DesktopIn);
    push2(&mut t, MethodId::VirtualDesktopWallpaperChanged, ParamType::DesktopIn,
        ParamType::Hstring);
    push1(&mut t, MethodId::VirtualDesktopSwitched, ParamType::DesktopIn);
    push1(&mut t, MethodId::RemoteVirtualDesktopConnected, ParamType::DesktopIn);
    proof {
        assert(t@ =~= ntf_table_b());
    }
    t
}

fn build_ntf_table_c() -> (r: Vec<MethodDesc>)
    ensures
        r@ == ntf_table_c(),
{
    let mut t: Vec<MethodDesc> = Vec::new();
    push1(&mut t, MethodId::VirtualDesktopCreated, ParamType::DesktopIn);
    push2(&mut t, MethodId::VirtualDesktopDestroyBegin, ParamType::DesktopIn, ParamType::DesktopIn);
    push2(&mut t, MethodId::VirtualDesktopDestroyFailed, ParamType::DesktopIn,
        ParamType::DesktopIn);
    push2(&mut t, MethodId::VirtualDesktopDestroyed, ParamType::DesktopIn, ParamType::DesktopIn);
    push3(&mut t, MethodId::VirtualDesktopMoved, ParamType::DesktopIn, ParamType::I64,
        ParamType::I64);
    push2(&mut t, MethodId::VirtualDesktopNameChanged, ParamType::DesktopIn, ParamType::Hstring);
    push1(&mut t, MethodId::ViewVirtualDesktopChanged, ParamType::ViewIn);
    push2(&mut t, MethodId::CurrentVirtualDesktopChanged, ParamType::DesktopIn,
        ParamType::DesktopIn);
    push2(&mut t, MethodId::VirtualDesktopWallpaperChanged, ParamType::DesktopIn,
        ParamType::Hstring);
    push1(&mut t, MethodId::VirtualDesktopSwitched, ParamType::DesktopIn);
    push1(&mut t, MethodId::RemoteVirtualDesktopConnected, ParamType::DesktopIn);
    proof {
        assert(t@ =~= ntf_table_c());
    }
    t
}

fn build_svc_table() -> (r: Vec<MethodDesc>)
    ensures
        r@ == svc_table(),
{
    let mut t: Vec<MethodDesc> = Vec::new();
    push2(&mut t, MethodId::Register, ParamType::LpVoid, ParamType::UintOut);
    push1(&mut t, MethodId::Unregister, ParamType::Uint);
    proof {
        assert(t@ =~= svc_table());
    }
    t
}

fn build_pin_table() -> (r: Vec<MethodDesc>)
    ensures
        r@ == pin_table(),
{
    let mut t: Vec<MethodDesc> = Vec::new();
    push2(&mut t, MethodId::IsAppPinned, ParamType::Pcwstr, ParamType::NativeBoolOut);
    push1(&mut t, MethodId::PinApp, ParamType::Pcwstr);
    push1(&mut t, MethodId::UnpinApp, ParamType::Pcwstr);
    push2(&mut t, MethodId::IsViewPinned, ParamType::ViewIn, ParamType::NativeBoolOut);
    push1(&mut t, MethodId::PinView, ParamType::ViewIn);
    push1(&mut t, MethodId::UnpinView, ParamType::ViewIn);
    proof {
        assert(t@ =~= pin_table());
    }
    t
}

/// The method table declared for one logical interface on one build.
pub fn method_table(iface: LogicalInterface, b: BuildVersion) -> (r: Vec<MethodDesc>)
    ensures
        r@ == spec_method_table(iface, b),
{
    match iface {
        LogicalInterface::ApplicationView => match b {
            BuildVersion::Build17134 => build_av_table_b(),
            BuildVersion::Build17663 => build_av_table_b(),
            BuildVersion::Build19044_4355 => build_av_table_b(),
            BuildVersion::Build19045 => build_av_table_b(),
            BuildVersion::Build26100 => build_av_table_b(),
            _ => build_av_table_a(),
        },
        LogicalInterface::ApplicationViewCollection => match b {
            BuildVersion::Build17663 => build_col_table_b(),
            BuildVersion::Build19044_4355 => build_col_table_b(),
            BuildVersion::Build19045 => build_col_table_b(),
            BuildVersion::Build26100 => build_col_table_b(),
            _ => build_col_table_a(),
        },
        LogicalInterface::VirtualDesktop => match b {
            BuildVersion::Build22000 => build_desk_table_b(),
            BuildVersion::Build22621_2215 => build_desk_table_c(),
            BuildVersion::Build22631_2428 => build_desk_table_c(),
            BuildVersion::Build26100 => build_desk_table_c(),
            _ => build_desk_table_a(),
        },
        LogicalInterface::VirtualDesktopNotification => match b {
            BuildVersion::Build22000 => build_ntf_table_b(),
            BuildVersion::Build22621_2215 => build_ntf_table_c(),
            BuildVersion::Build22631_2428 => build_ntf_table_c(),
            BuildVersion::Build26100 => build_ntf_table_c(),
            _ => build_ntf_table_a(),
        },
        LogicalInterface::VirtualDesktopNotificationService => build_svc_table(),
        LogicalInterface::VirtualDesktopPinnedApps => build_pin_table(),
        LogicalInterface::VirtualDesktopManagerInternal => match b {
            BuildVersion::Build22000 => build_mgr_table_b(),
            BuildVersion::Build22621_2215 => build_mgr_table_c(),
            BuildVersion::Build22631_2428 => build_mgr_table_c(),
            BuildVersion::Build26100 => build_mgr_table_d(),
            _ => build_mgr_table_a(),
        },
    }
}

/// Every declared table is small; slot numbers stay far from any
/// machine limit.
pub proof fn lemma_method_table_len(iface: LogicalInterface, b: BuildVersion)
    ensures
        spec_method_table(iface, b).len() <= 64,
{
}

} // verus!
