use winvd::registry::{select_build_version, select_index, BuildVersion};
use winvd::version::{patch_value_from_bytes, WindowsVersion};

fn v(major: u32, minor: u32, build: u32, patch: u32) -> WindowsVersion {
    WindowsVersion::new(major, minor, build, patch)
}

#[test]
fn version_order_is_lexicographic() {
    assert!(v(10, 0, 10240, 0).le(&v(10, 0, 22000, 0)));
    assert!(!v(10, 0, 22000, 0).le(&v(10, 0, 10240, 0)));
    assert!(v(6, 3, 9600, 99).le(&v(10, 0, 0, 0)));
    assert!(v(10, 0, 19044, 4355).le(&v(10, 0, 19045, 0)));
    assert!(v(10, 0, 22621, 2215).le(&v(10, 0, 22621, 3155)));
    assert!(v(10, 0, 22621, 2215).le(&v(10, 0, 22621, 2215)));
}

#[test]
fn detection_without_patch_compares_as_newest_patch() {
    let detected = WindowsVersion::from_detection(10, 0, 22621, None);
    assert_eq!(detected.patch, u32::MAX);
    assert!(v(10, 0, 22621, 3155).le(&detected));
    let with_patch = WindowsVersion::from_detection(10, 0, 22621, Some(2215));
    assert_eq!(with_patch.patch, 2215);
}

#[test]
fn selection_two_entry_table_picks_older_epoch() {
    // Table [(10,0,10240,0) -> A, (10,0,22000,0) -> B], detected
    // (10,0,19045,0): selection must yield A.
    let table = vec![v(10, 0, 10240, 0), v(10, 0, 22000, 0)];
    assert_eq!(select_index(&table, &v(10, 0, 19045, 0)), 0);
}

#[test]
fn selection_two_entry_table_picks_newer_epoch() {
    // Same table, detected (10,0,26100,0): selection must yield B.
    let table = vec![v(10, 0, 10240, 0), v(10, 0, 22000, 0)];
    assert_eq!(select_index(&table, &v(10, 0, 26100, 0)), 1);
}

#[test]
fn selection_below_oldest_falls_back_to_first() {
    let table = vec![v(10, 0, 10240, 0), v(10, 0, 22000, 0)];
    assert_eq!(select_index(&table, &v(6, 1, 7601, 0)), 0);
}

#[test]
fn selection_exact_match_is_taken() {
    let table = vec![v(10, 0, 10240, 0), v(10, 0, 22000, 0)];
    assert_eq!(select_index(&table, &v(10, 0, 22000, 0)), 1);
    assert_eq!(select_index(&table, &v(10, 0, 10240, 0)), 0);
}

#[test]
fn registry_selects_latest_not_newer() {
    assert_eq!(
        select_build_version(Some(v(10, 0, 19045, 2130))),
        BuildVersion::Build19045
    );
    assert_eq!(
        select_build_version(Some(v(10, 0, 26100, 0))),
        BuildVersion::Build26100
    );
    assert_eq!(
        select_build_version(Some(v(10, 0, 22621, 1000))),
        BuildVersion::Build22000
    );
    assert_eq!(
        select_build_version(Some(v(10, 0, 22621, 2215))),
        BuildVersion::Build22621_2215
    );
    assert_eq!(
        select_build_version(Some(v(10, 0, 19044, 4000))),
        BuildVersion::Build17663
    );
    assert_eq!(
        select_build_version(Some(v(10, 0, 19044, 4355))),
        BuildVersion::Build19044_4355
    );
}

#[test]
fn registry_older_than_everything_uses_oldest() {
    assert_eq!(
        select_build_version(Some(v(6, 1, 7601, 0))),
        BuildVersion::Build10240
    );
}

#[test]
fn registry_detection_failure_uses_newest() {
    assert_eq!(select_build_version(None), BuildVersion::Build26100);
}

#[test]
fn registry_selection_is_monotonic_over_samples() {
    let samples = [
        v(6, 1, 7601, 0),
        v(10, 0, 10240, 0),
        v(10, 0, 17134, 500),
        v(10, 0, 19044, 4355),
        v(10, 0, 19045, 0),
        v(10, 0, 22000, 1),
        v(10, 0, 22621, 2215),
        v(10, 0, 22631, 2428),
        v(10, 0, 26100, 999),
    ];
    let mut last = select_build_version(Some(samples[0]));
    for s in &samples[1..] {
        let cur = select_build_version(Some(*s));
        assert!(last.version().le(&cur.version()));
        last = cur;
    }
}

#[test]
fn declared_versions_ascend() {
    let all = BuildVersion::all_build_versions();
    assert_eq!(all.len(), 9);
    for w in all.windows(2) {
        assert!(w[0].version().le(&w[1].version()));
        assert!(w[0].version() != w[1].version());
    }
}

#[test]
fn windows_version_pairs_match_declarations() {
    assert_eq!(BuildVersion::Build10240.windows_version(), (10240, 0));
    assert_eq!(BuildVersion::Build19044_4355.windows_version(), (19044, 4355));
    assert_eq!(BuildVersion::Build22621_2215.windows_version(), (22621, 2215));
    assert_eq!(BuildVersion::Build26100.windows_version(), (26100, 0));
}

#[test]
fn patch_bytes_little_endian() {
    assert_eq!(patch_value_from_bytes(&[0x39, 0x05, 0, 0]), Some(1337));
    assert_eq!(patch_value_from_bytes(&[0, 0, 0, 0]), Some(0));
    assert_eq!(patch_value_from_bytes(&[0xff, 0xff, 0xff, 0x7f]), Some(0x7fff_ffff));
}

#[test]
fn patch_bytes_negative_is_absent() {
    assert_eq!(patch_value_from_bytes(&[0, 0, 0, 0x80]), None);
    assert_eq!(patch_value_from_bytes(&[0xff, 0xff, 0xff, 0xff]), None);
}
