use winvd::handle::{ComIn, ComOwned, RefCountTable};
use winvd::interfaces::{
    query_service_request, IApplicationView, IVirtualDesktop, CLSID_IVirtualNotificationService,
    CLSID_VirtualDesktopManagerInternal, CLSID_VirtualDesktopPinnedApps,
};
use winvd::registry::BuildVersion;
use winvd::tables::{iid, LogicalInterface};

#[test]
fn owning_acquire_increments_exactly_once() {
    let mut table = RefCountTable::new();
    let idx = table.register_object(1);
    assert_eq!(table.count(idx), 1);
    let owned = ComOwned::acquire(&mut table, idx);
    assert_eq!(table.count(idx), 2);
    owned.release(&mut table);
    assert_eq!(table.count(idx), 1);
}

#[test]
fn adopt_transfers_without_touching_count() {
    let mut table = RefCountTable::new();
    let idx = table.register_object(1);
    let owned = ComOwned::adopt(idx);
    assert_eq!(table.count(idx), 1);
    owned.release(&mut table);
    assert_eq!(table.count(idx), 0);
}

#[test]
fn borrows_never_change_any_count() {
    let mut table = RefCountTable::new();
    let idx = table.register_object(1);
    let owned = ComOwned::acquire(&mut table, idx);
    let before = table.count(idx);
    let b1 = ComIn::new(&owned);
    let b2 = b1;
    let b3 = b2;
    assert_eq!(ComIn::into_ref(&b3), idx);
    assert_eq!(ComIn::into_ref(&b1), idx);
    assert_eq!(table.count(idx), before);
    owned.release(&mut table);
    assert_eq!(table.count(idx), before - 1);
}

#[test]
fn counts_are_per_object() {
    let mut table = RefCountTable::new();
    let a = table.register_object(1);
    let b = table.register_object(5);
    let owned = ComOwned::acquire(&mut table, b);
    assert_eq!(table.count(a), 1);
    assert_eq!(table.count(b), 6);
    owned.release(&mut table);
    assert_eq!(table.count(a), 1);
    assert_eq!(table.count(b), 5);
    assert_eq!(table.object_count(), 2);
}

#[test]
fn typed_handles_resolve_under_their_own_build() {
    let mut table = RefCountTable::new();
    let idx = table.register_object(1);
    let desktop = IVirtualDesktop::from_raw(ComOwned::adopt(idx), BuildVersion::Build22000);
    assert_eq!(desktop.resolve(BuildVersion::Build22000), idx);
    desktop.into_owned().release(&mut table);
    assert_eq!(table.count(idx), 0);
}

#[test]
fn typed_handles_report_per_build_iids() {
    assert_eq!(
        IVirtualDesktop::iid_for(BuildVersion::Build19045),
        0xFF72FFDD_BE7E_43FC_9C03_AD81681E88E4
    );
    assert_eq!(
        IApplicationView::iid_for(BuildVersion::Build10240),
        0x9AC0B5C8_1484_4C5B_9533_4134A0F97CEA
    );
}

#[test]
fn service_lookup_pairs_match_declarations() {
    let b = BuildVersion::Build19045;
    assert_eq!(
        query_service_request(LogicalInterface::ApplicationViewCollection, b),
        Some((
            iid(LogicalInterface::ApplicationViewCollection, b),
            iid(LogicalInterface::ApplicationViewCollection, b)
        ))
    );
    assert_eq!(
        query_service_request(LogicalInterface::VirtualDesktopNotificationService, b),
        Some((
            CLSID_IVirtualNotificationService,
            iid(LogicalInterface::VirtualDesktopNotificationService, b)
        ))
    );
    assert_eq!(
        query_service_request(LogicalInterface::VirtualDesktopManagerInternal, b),
        Some((
            CLSID_VirtualDesktopManagerInternal,
            iid(LogicalInterface::VirtualDesktopManagerInternal, b)
        ))
    );
    assert_eq!(
        query_service_request(LogicalInterface::VirtualDesktopPinnedApps, b),
        Some((
            CLSID_VirtualDesktopPinnedApps,
            iid(LogicalInterface::VirtualDesktopPinnedApps, b)
        ))
    );
    assert_eq!(query_service_request(LogicalInterface::VirtualDesktop, b), None);
    assert_eq!(query_service_request(LogicalInterface::ApplicationView, b), None);
}
