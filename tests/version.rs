use user_call::error::UserCallError;
use user_call::version::{
    adopt_version, decode_version, encode_version, has_dedicated_syscalls, map_os_version_info, set_os_version,
    set_os_version_info, OsVersion, OsVersionInfo, VersionCell, DEDICATED_SYSCALLS_BUILD,
};

fn info(major_version: u32, minor_version: u32, build_number: u32) -> OsVersionInfo {
    OsVersionInfo { major_version, minor_version, build_number }
}

#[test]
fn six_one_is_the_earliest_release() {
    assert_eq!(map_os_version_info(info(6, 1, 7601)), Ok(OsVersion::Win7));
}

#[test]
fn six_two_and_six_three() {
    assert_eq!(map_os_version_info(info(6, 2, 9200)), Ok(OsVersion::Win8));
    assert_eq!(map_os_version_info(info(6, 3, 9600)), Ok(OsVersion::Win81));
}

#[test]
fn ten_below_threshold_is_the_latest_legacy_release() {
    assert_eq!(map_os_version_info(info(10, 0, 19045)), Ok(OsVersion::Win10));
    assert_eq!(
        map_os_version_info(info(10, 0, DEDICATED_SYSCALLS_BUILD - 1)),
        Ok(OsVersion::Win10)
    );
}

#[test]
fn ten_at_or_above_threshold_is_too_new() {
    assert_eq!(DEDICATED_SYSCALLS_BUILD, 20292);
    assert_eq!(
        map_os_version_info(info(10, 0, DEDICATED_SYSCALLS_BUILD)),
        Err(UserCallError::OsTooNew)
    );
    assert_eq!(map_os_version_info(info(10, 0, 22631)), Err(UserCallError::OsTooNew));
    assert_eq!(map_os_version_info(info(11, 0, 0)), Err(UserCallError::OsTooNew));
}

#[test]
fn major_five_is_not_supported() {
    assert_eq!(map_os_version_info(info(5, 1, 2600)), Err(UserCallError::OsNotSupported));
    assert_eq!(map_os_version_info(info(0, 0, 0)), Err(UserCallError::OsNotSupported));
}

#[test]
fn other_combinations_are_not_supported() {
    assert_eq!(map_os_version_info(info(6, 0, 6002)), Err(UserCallError::OsNotSupported));
    assert_eq!(map_os_version_info(info(6, 4, 0)), Err(UserCallError::OsNotSupported));
    assert_eq!(map_os_version_info(info(10, 1, 0)), Err(UserCallError::OsNotSupported));
    assert_eq!(map_os_version_info(info(7, 0, 0)), Err(UserCallError::OsNotSupported));
}

#[test]
fn dedicated_syscalls_exactly_when_too_new() {
    assert!(has_dedicated_syscalls(Err(UserCallError::OsTooNew)));
    assert!(!has_dedicated_syscalls(Err(UserCallError::OsNotSupported)));
    assert!(!has_dedicated_syscalls(Ok(OsVersion::Win10)));
    assert!(!has_dedicated_syscalls(Ok(OsVersion::Win7)));
    assert!(has_dedicated_syscalls(map_os_version_info(info(10, 0, 22000))));
}

#[test]
fn version_words_round_trip() {
    let all = [
        Ok(OsVersion::Win7),
        Ok(OsVersion::Win8),
        Ok(OsVersion::Win81),
        Ok(OsVersion::Win10),
        Err(UserCallError::OsNotSupported),
        Err(UserCallError::OsTooNew),
        Err(UserCallError::CallNotFound),
        Err(UserCallError::LibraryNotFound),
    ];
    for v in all {
        assert_ne!(encode_version(v), 0);
        assert_eq!(decode_version(encode_version(v)), Some(v));
    }
    assert_eq!(decode_version(0), None);
    assert_eq!(decode_version(9), None);
}

#[test]
fn version_cell_is_written_once() {
    let cell = VersionCell::new();
    assert_eq!(cell.get(), None);
    assert_eq!(set_os_version(&cell, Ok(OsVersion::Win8)), Ok(()));
    assert_eq!(cell.get(), Some(Ok(OsVersion::Win8)));
    assert_eq!(
        set_os_version(&cell, Err(UserCallError::OsTooNew)),
        Err(Err(UserCallError::OsTooNew))
    );
    assert_eq!(
        set_os_version_info(&cell, info(10, 0, 19045)),
        Err(Ok(OsVersion::Win10))
    );
    assert_eq!(cell.get(), Some(Ok(OsVersion::Win8)));
}

#[test]
fn set_os_version_info_records_the_classification() {
    let cell = VersionCell::new();
    assert_eq!(set_os_version_info(&cell, info(10, 0, 22000)), Ok(()));
    assert_eq!(cell.get(), Some(Err(UserCallError::OsTooNew)));
}

#[test]
fn classify_once_keeps_the_first_classification() {
    let cell = VersionCell::new();
    assert_eq!(cell.classify_once(info(6, 3, 9600)), Ok(OsVersion::Win81));
    assert_eq!(cell.classify_once(info(10, 0, 22000)), Ok(OsVersion::Win81));
    assert_eq!(cell.get(), Some(Ok(OsVersion::Win81)));
}

#[test]
fn any_later_major_is_too_new() {
    assert_eq!(map_os_version_info(info(11, 1, 30000)), Err(UserCallError::OsTooNew));
    assert_eq!(map_os_version_info(info(12, 3, 0)), Err(UserCallError::OsTooNew));
    assert_eq!(map_os_version_info(info(10, 1, 30000)), Err(UserCallError::OsNotSupported));
}

#[test]
fn adopt_version_prefers_the_recorded_classification() {
    let recorded = encode_version(Ok(OsVersion::Win7));
    assert_eq!(adopt_version(recorded, Err(UserCallError::OsTooNew)), Ok(OsVersion::Win7));
    assert_eq!(adopt_version(0, Ok(OsVersion::Win10)), Ok(OsVersion::Win10));
    assert_eq!(adopt_version(99, Err(UserCallError::OsTooNew)), Err(UserCallError::OsTooNew));
}

#[test]
fn repeated_classification_probes_once() {
    let cell = VersionCell::new();
    let mut probes = 0u32;
    let results: Vec<_> = (0..5)
        .map(|_| match cell.get() {
            Some(version) => version,
            None => {
                probes += 1;
                cell.classify_once(info(10, 0, 19045))
            }
        })
        .collect();
    assert_eq!(probes, 1);
    assert!(results.iter().all(|r| *r == Ok(OsVersion::Win10)));
}
