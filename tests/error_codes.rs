use user_call::error::{hresult_from_win32, UserCallError};

const ALL: [UserCallError; 4] = [
    UserCallError::OsNotSupported,
    UserCallError::OsTooNew,
    UserCallError::CallNotFound,
    UserCallError::LibraryNotFound,
];

#[test]
fn codes_are_one_to_four() {
    assert_eq!(UserCallError::OsNotSupported.code(), 1);
    assert_eq!(UserCallError::OsTooNew.code(), 2);
    assert_eq!(UserCallError::CallNotFound.code(), 3);
    assert_eq!(UserCallError::LibraryNotFound.code(), 4);
}

#[test]
fn every_code_reads_back_as_its_kind() {
    for e in ALL {
        assert_eq!(UserCallError::try_from(e.code()), Ok(e));
    }
}

#[test]
fn other_words_are_no_error_kind() {
    assert_eq!(UserCallError::try_from(0usize), Err(()));
    assert_eq!(UserCallError::try_from(5usize), Err(()));
    assert_eq!(UserCallError::try_from(0xFFFEusize), Err(()));
    assert_eq!(UserCallError::try_from(usize::MAX), Err(()));
}

#[test]
fn messages_describe_each_kind() {
    assert_eq!(
        UserCallError::OsNotSupported.message(),
        "The operating system is not supported."
    );
    assert_eq!(
        UserCallError::OsTooNew.message(),
        "The operating system does not use the NtUserCall* family of syscalls anymore."
    );
    assert_eq!(UserCallError::CallNotFound.message(), "The function was not found.");
    assert_eq!(
        UserCallError::LibraryNotFound.message(),
        "A required library was not found."
    );
}

#[test]
fn hresult_from_win32_sets_facility_and_failure_bit() {
    assert_eq!(hresult_from_win32(1150), 0x8007_047Eu32 as i32);
    assert_eq!(hresult_from_win32(50), 0x8007_0032u32 as i32);
    assert_eq!(hresult_from_win32(0x0001_0005), 0x8007_0005u32 as i32);
}

#[test]
fn hresult_from_win32_passes_non_positive_codes_through() {
    assert_eq!(hresult_from_win32(0), 0);
    assert_eq!(hresult_from_win32(0x8000_4005), 0x8000_4005u32 as i32);
}

#[test]
fn native_status_of_each_kind() {
    assert_eq!(UserCallError::OsNotSupported.native_status(), 0x8007_047Eu32 as i32);
    assert_eq!(UserCallError::OsTooNew.native_status(), 0x8000_000Eu32 as i32);
    assert_eq!(UserCallError::CallNotFound.native_status(), 0x8007_0032u32 as i32);
    assert_eq!(UserCallError::LibraryNotFound.native_status(), 0x8007_007Eu32 as i32);
}
