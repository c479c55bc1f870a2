//! The closed set of failures that resolution can report.

use vstd::prelude::*;

verus! {

/// Why a logical entry point could not be reached.
#[derive(Clone, Copy, Debug, PartialEq, Eq, Structural)]
pub enum UserCallError {
    /// The running operating system is older than the oldest supported release.
    OsNotSupported,
    /// The running operating system no longer has the dispatch syscalls.
    OsTooNew,
    /// No mechanism reaches the entry point on this operating system.
    CallNotFound,
    /// The module hosting the entry points could not be located.
    LibraryNotFound,
}

/// The numeric code of each error kind; these are the sentinel words that a
/// resolution cell stores for a cached failure.
pub open spec fn error_code(e: UserCallError) -> usize {
    match e {
        UserCallError::OsNotSupported => 1,
        UserCallError::OsTooNew => 2,
        UserCallError::CallNotFound => 3,
        UserCallError::LibraryNotFound => 4,
    }
}

/// The error kind whose code is `value`, if any.
pub open spec fn error_from_code(value: usize) -> Result<UserCallError, ()> {
    if value == 1 {
        Ok(UserCallError::OsNotSupported)
    } else if value == 2 {
        Ok(UserCallError::OsTooNew)
    } else if value == 3 {
        Ok(UserCallError::CallNotFound)
    } else if value == 4 {
        Ok(UserCallError::LibraryNotFound)
    } else {
        Err(())
    }
}

impl UserCallError {
    /// The numeric code of this error kind.
    pub fn code(self) -> (r: usize)
        ensures
            r == error_code(self),
            1 <= r <= 4,
    {
        match self {
            UserCallError::OsNotSupported => 1,
            UserCallError::OsTooNew => 2,
            UserCallError::CallNotFound => 3,
            UserCallError::LibraryNotFound => 4,
        }
    }
}

/// The human-readable description of each error kind.
pub open spec fn error_message(e: UserCallError) -> Seq<char> {
    match e {
        UserCallError::OsNotSupported => "The operating system is not supported."@,
        UserCallError::OsTooNew => "The operating system does not use the NtUserCall* family of syscalls anymore."@,
        UserCallError::CallNotFound => "The function was not found."@,
        UserCallError::LibraryNotFound => "A required library was not found."@,
    }
}

/// The HRESULT that stands for a Win32 error code: codes that are zero or negative as
/// `i32` pass through, others are placed in the Win32 facility with the failure bit set.
pub open spec fn hresult_of_win32(code: u32) -> i32 {
    if (code as i32) <= 0 {
        code as i32
    } else {
        ((code & 0xFFFFu32) | 0x0007_0000u32 | 0x8000_0000u32) as i32
    }
}

/// The Win32 error code `ERROR_OLD_WIN_VERSION`.
pub const OLD_WIN_VERSION_CODE: u32 = 1150;

/// The Win32 error code `ERROR_NOT_SUPPORTED`.
pub const NOT_SUPPORTED_CODE: u32 = 50;

/// The Win32 error code `ERROR_MOD_NOT_FOUND`.
pub const MOD_NOT_FOUND_CODE: u32 = 126;

/// The status `E_ILLEGAL_METHOD_CALL`, as a signed 32-bit value.
pub const ILLEGAL_METHOD_CALL_STATUS: i32 = -2147483634;

/// The native status that each error kind stands for at the operating-system boundary.
pub open spec fn native_status(e: UserCallError) -> i32 {
    match e {
        UserCallError::OsNotSupported => hresult_of_win32(OLD_WIN_VERSION_CODE),
        UserCallError::OsTooNew => ILLEGAL_METHOD_CALL_STATUS,
        UserCallError::CallNotFound => hresult_of_win32(NOT_SUPPORTED_CODE),
        UserCallError::LibraryNotFound => hresult_of_win32(MOD_NOT_FOUND_CODE),
    }
}

/// Maps a Win32 error code to an HRESULT, by the rule of `HRESULT::from_win32`.
pub fn hresult_from_win32(code: u32) -> (r: i32)
    ensures
        r == hresult_of_win32(code),
{
    if (code as i32) <= 0 {
        code as i32
    } else {
        ((code & 0xFFFFu32) | 0x0007_0000u32 | 0x8000_0000u32) as i32
    }
}

impl UserCallError {
    /// A sentence that describes this error kind.
    pub fn message(self) -> (r: &'static str)
        ensures
            r@ == error_message(self),
    {
        match self {
            UserCallError::OsNotSupported => "The operating system is not supported.",
            UserCallError::OsTooNew => "The operating system does not use the NtUserCall* family of syscalls anymore.",
            UserCallError::CallNotFound => "The function was not found.",
            UserCallError::LibraryNotFound => "A required library was not found.",
        }
    }

    /// The native status (an HRESULT) that reports this error kind to the operating
    /// system's own error surface.
    pub fn native_status(self) -> (r: i32)
        ensures
            r == native_status(self),
    {
        match self {
            UserCallError::OsNotSupported => hresult_from_win32(OLD_WIN_VERSION_CODE),
            UserCallError::OsTooNew => ILLEGAL_METHOD_CALL_STATUS,
            UserCallError::CallNotFound => hresult_from_win32(NOT_SUPPORTED_CODE),
            UserCallError::LibraryNotFound => hresult_from_win32(MOD_NOT_FOUND_CODE),
        }
    }
}

impl TryFrom<usize> for UserCallError {
    type Error = ();

    fn try_from(value: usize) -> (r: Result<Self, ()>)
        ensures
            r == error_from_code(value),
    {
        match value {
            1 => Ok(UserCallError::OsNotSupported),
            2 => Ok(UserCallError::OsTooNew),
            3 => Ok(UserCallError::CallNotFound),
            4 => Ok(UserCallError::LibraryNotFound),
            _ => Err(()),
        }
    }
}

impl vstd::std_specs::convert::TryFromSpecImpl<usize> for UserCallError {
    open spec fn obeys_try_from_spec() -> bool {
        true
    }

    open spec fn try_from_spec(v: usize) -> Result<Self, ()> {
        error_from_code(v)
    }
}

/// Every error kind is recovered from its code, and no other word names one.
pub proof fn lemma_error_code_round_trip(e: UserCallError, value: usize)
    ensures
        error_from_code(error_code(e)) == Ok::<UserCallError, ()>(e),
        error_from_code(value) is Ok ==> error_code(error_from_code(value)->Ok_0) == value,
        error_from_code(value) is Ok <==> 1 <= value <= 4,
{
}

} // verus!
