use winvd::registry::BuildVersion;
use winvd::tables::{iid, method_table, LogicalInterface, MethodId};

#[test]
fn iid_values_match_declarations() {
    assert_eq!(
        iid(LogicalInterface::ApplicationView, BuildVersion::Build10240),
        0x9AC0B5C8_1484_4C5B_9533_4134A0F97CEA
    );
    assert_eq!(
        iid(LogicalInterface::ApplicationView, BuildVersion::Build17134),
        0x871F602A_2B58_42B4_8C4B_6C43D642C06F
    );
    assert_eq!(
        iid(LogicalInterface::ApplicationView, BuildVersion::Build26100),
        0x372E1D3B_38D3_42E4_A15B_8AB2B178F513
    );
    assert_eq!(
        iid(LogicalInterface::VirtualDesktop, BuildVersion::Build19045),
        0xFF72FFDD_BE7E_43FC_9C03_AD81681E88E4
    );
    assert_eq!(
        iid(LogicalInterface::VirtualDesktop, BuildVersion::Build22000),
        0x536D3495_B208_4CC9_AE26_DE8111275BF8
    );
    assert_eq!(
        iid(LogicalInterface::VirtualDesktopNotification, BuildVersion::Build22000),
        0xCD403E52_DEED_4C13_B437_B98380F2B1E8
    );
    assert_eq!(
        iid(LogicalInterface::VirtualDesktopNotificationService, BuildVersion::Build10240),
        0x0CD45E71_D927_4F15_8B0A_8FEF525337BF
    );
    assert_eq!(
        iid(LogicalInterface::VirtualDesktopPinnedApps, BuildVersion::Build26100),
        0x4CE81583_1E4C_4632_A621_07A53543148F
    );
    assert_eq!(
        iid(LogicalInterface::VirtualDesktopManagerInternal, BuildVersion::Build22631_2428),
        0xA3175F2D_239C_4BD2_8AA0_EEBA8B0B138E
    );
}

#[test]
fn table_sizes_match_shapes() {
    assert_eq!(
        method_table(LogicalInterface::ApplicationView, BuildVersion::Build10240).len(),
        58
    );
    assert_eq!(
        method_table(LogicalInterface::ApplicationView, BuildVersion::Build19045).len(),
        55
    );
    assert_eq!(
        method_table(LogicalInterface::VirtualDesktop, BuildVersion::Build10240).len(),
        2
    );
    assert_eq!(
        method_table(LogicalInterface::VirtualDesktop, BuildVersion::Build22000).len(),
        5
    );
    assert_eq!(
        method_table(LogicalInterface::VirtualDesktopManagerInternal, BuildVersion::Build22000)
            .len(),
        19
    );
    assert_eq!(
        method_table(
            LogicalInterface::VirtualDesktopManagerInternal,
            BuildVersion::Build22621_2215
        )
        .len(),
        21
    );
    assert_eq!(
        method_table(LogicalInterface::VirtualDesktopManagerInternal, BuildVersion::Build26100)
            .len(),
        22
    );
    assert_eq!(
        method_table(LogicalInterface::VirtualDesktopNotification, BuildVersion::Build22000).len(),
        12
    );
    assert_eq!(
        method_table(LogicalInterface::VirtualDesktopNotification, BuildVersion::Build26100).len(),
        11
    );
    assert_eq!(
        method_table(
            LogicalInterface::VirtualDesktopNotificationService,
            BuildVersion::Build17663
        )
        .len(),
        2
    );
    assert_eq!(
        method_table(LogicalInterface::VirtualDesktopPinnedApps, BuildVersion::Build22000).len(),
        6
    );
}

#[test]
fn shared_iid_tables_agree_on_shared_name_prefix() {
    // Builds 19045 and 22000 declare the same application-view
    // identifier with different shapes; their descriptors must agree
    // wherever the leading method names do.
    let a = method_table(LogicalInterface::ApplicationView, BuildVersion::Build19045);
    let b = method_table(LogicalInterface::ApplicationView, BuildVersion::Build22000);
    assert_eq!(
        iid(LogicalInterface::ApplicationView, BuildVersion::Build19045),
        iid(LogicalInterface::ApplicationView, BuildVersion::Build22000)
    );
    let mut i = 0;
    while i < a.len() && i < b.len() && a[i].id == b[i].id {
        assert_eq!(a[i], b[i]);
        i += 1;
    }
    // The shapes genuinely diverge after the shared prefix.
    assert_eq!(i, 30);
    assert_eq!(a[30].id, MethodId::GetSizeConstraints);
    assert_eq!(b[30].id, MethodId::GetPositionPriority);
}

#[test]
fn collection_tables_agree_on_lookup_prefix() {
    let a = method_table(LogicalInterface::ApplicationViewCollection, BuildVersion::Build19045);
    let b = method_table(LogicalInterface::ApplicationViewCollection, BuildVersion::Build22000);
    let mut i = 0;
    while i < a.len() && i < b.len() && a[i].id == b[i].id {
        assert_eq!(a[i], b[i]);
        i += 1;
    }
    assert_eq!(i, 7);
    assert_eq!(a[7].id, MethodId::TryGetLastActiveVisibleView);
    assert_eq!(b[7].id, MethodId::RefreshCollection);
}

#[test]
fn same_iid_same_shape_tables_are_identical() {
    // The desktop identifier is shared across every Windows 10 build;
    // the tables behind it are one and the same shape.
    let t1 = method_table(LogicalInterface::VirtualDesktop, BuildVersion::Build10240);
    let t2 = method_table(LogicalInterface::VirtualDesktop, BuildVersion::Build19045);
    assert_eq!(t1, t2);
    let m1 = method_table(LogicalInterface::VirtualDesktop, BuildVersion::Build22621_2215);
    let m2 = method_table(LogicalInterface::VirtualDesktop, BuildVersion::Build26100);
    assert_eq!(m1, m2);
}
