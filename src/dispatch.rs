//! The dispatch families: the intermediate syscalls that multiplex many entry points
//! through a trailing slot argument, and how each one is reached.

use vstd::prelude::*;

use crate::error::UserCallError;
use crate::version::OsVersion;

verus! {

/// The shape of a dispatch syscall: which arguments it takes before the slot.
#[derive(Clone, Copy, Debug, PartialEq, Eq, Structural, Hash)]
pub enum CallShape {
    NoParam,
    OneParam,
    Hwnd,
    HwndSafe,
    HwndOpt,
    HwndParam,
    HwndLock,
    HwndParamLock,
    HwndParamLockSafe,
    TwoParam,
}

/// How many arguments a family's syscall takes before the trailing slot.
pub open spec fn shape_param_count(shape: CallShape) -> nat {
    match shape {
        CallShape::NoParam => 0,
        CallShape::OneParam | CallShape::Hwnd | CallShape::HwndSafe | CallShape::HwndOpt
        | CallShape::HwndLock => 1,
        CallShape::HwndParam | CallShape::HwndParamLock | CallShape::HwndParamLockSafe
        | CallShape::TwoParam => 2,
    }
}

/// The exported name of a family's syscall.
pub open spec fn shape_export_name(shape: CallShape) -> Seq<char> {
    match shape {
        CallShape::NoParam => "NtUserCallNoParam"@,
        CallShape::OneParam => "NtUserCallOneParam"@,
        CallShape::Hwnd => "NtUserCallHwnd"@,
        CallShape::HwndSafe => "NtUserCallHwndSafe"@,
        CallShape::HwndOpt => "NtUserCallHwndOpt"@,
        CallShape::HwndParam => "NtUserCallHwndParam"@,
        CallShape::HwndLock => "NtUserCallHwndLock"@,
        CallShape::HwndParamLock => "NtUserCallHwndParamLock"@,
        CallShape::HwndParamLockSafe => "NtUserCallHwndParamLockSafe"@,
        CallShape::TwoParam => "NtUserCallTwoParam"@,
    }
}

/// The raw syscall number of a family's syscall on a release that does not export it;
/// `None` on a release that exports it.
pub open spec fn legacy_syscall(shape: CallShape, version: OsVersion) -> Option<u32> {
    match version {
        OsVersion::Win10 => None,
        _ => {
            let ids: (u32, u32, u32) = match shape {
                CallShape::NoParam => (4101, 4102, 4103),
                CallShape::OneParam => (4098, 4099, 4100),
                CallShape::Hwnd => (4364, 4364, 4365),
                CallShape::HwndSafe => (4364, 4364, 4365),
                CallShape::HwndOpt => (4743, 4836, 4869),
                CallShape::HwndParam => (4254, 4254, 4255),
                CallShape::HwndLock => (4129, 4130, 4131),
                CallShape::HwndParamLock => (4135, 4136, 4137),
                CallShape::HwndParamLockSafe => (4135, 4136, 4137),
                CallShape::TwoParam => (4138, 4138, 4139),
            };
            match version {
                OsVersion::Win7 => Some(ids.0),
                OsVersion::Win8 => Some(ids.1),
                _ => Some(ids.2),
            }
        },
    }
}

/// How a family is reached once its export is known to be missing: by raw syscall
/// number on a release that has one, otherwise not at all.
pub open spec fn syscall_fallback_spec(
    shape: CallShape,
    version: Result<OsVersion, UserCallError>,
) -> Result<u32, UserCallError> {
    match version {
        Ok(v) => match legacy_syscall(shape, v) {
            Some(id) => Ok(id),
            None => Err(UserCallError::OsNotSupported),
        },
        Err(e) => Err(e),
    }
}

impl CallShape {
    /// How many arguments this family's syscall takes before the trailing slot.
    pub fn param_count(self) -> (r: usize)
        ensures
            r == shape_param_count(self),
    {
        match self {
            CallShape::NoParam => 0,
            CallShape::OneParam | CallShape::Hwnd | CallShape::HwndSafe | CallShape::HwndOpt
            | CallShape::HwndLock => 1,
            CallShape::HwndParam | CallShape::HwndParamLock | CallShape::HwndParamLockSafe
            | CallShape::TwoParam => 2,
        }
    }

    /// The exported name of this family's syscall.
    pub fn export_name(self) -> (r: &'static str)
        ensures
            r@ == shape_export_name(self),
    {
        match self {
            CallShape::NoParam => "NtUserCallNoParam",
            CallShape::OneParam => "NtUserCallOneParam",
            CallShape::Hwnd => "NtUserCallHwnd",
            CallShape::HwndSafe => "NtUserCallHwndSafe",
            CallShape::HwndOpt => "NtUserCallHwndOpt",
            CallShape::HwndParam => "NtUserCallHwndParam",
            CallShape::HwndLock => "NtUserCallHwndLock",
            CallShape::HwndParamLock => "NtUserCallHwndParamLock",
            CallShape::HwndParamLockSafe => "NtUserCallHwndParamLockSafe",
            CallShape::TwoParam => "NtUserCallTwoParam",
        }
    }

    /// The raw syscall number of this family on `version`, if that release reaches
    /// it by number.
    pub fn legacy_syscall_id(self, version: OsVersion) -> (r: Option<u32>)
        ensures
            r == legacy_syscall(self, version),
    {
        let ids: (u32, u32, u32) = match self {
            CallShape::NoParam => (4101, 4102, 4103),
            CallShape::OneParam => (4098, 4099, 4100),
            CallShape::Hwnd => (4364, 4364, 4365),
            CallShape::HwndSafe => (4364, 4364, 4365),
            CallShape::HwndOpt => (4743, 4836, 4869),
            CallShape::HwndParam => (4254, 4254, 4255),
            CallShape::HwndLock => (4129, 4130, 4131),
            CallShape::HwndParamLock => (4135, 4136, 4137),
            CallShape::HwndParamLockSafe => (4135, 4136, 4137),
            CallShape::TwoParam => (4138, 4138, 4139),
        };
        match version {
            OsVersion::Win7 => Some(ids.0),
            OsVersion::Win8 => Some(ids.1),
            OsVersion::Win81 => Some(ids.2),
            OsVersion::Win10 => None,
        }
    }

    /// How this family is reached once its export is known to be missing: the raw
    /// syscall number for the classified release, `OsNotSupported` on a release
    /// without one, or the classification's own failure.
    pub fn syscall_fallback(self, version: Result<OsVersion, UserCallError>) -> (r: Result<
        u32,
        UserCallError,
    >)
        ensures
            r == syscall_fallback_spec(self, version),
    {
        match version {
            Ok(v) => match self.legacy_syscall_id(v) {
                Some(id) => Ok(id),
                None => Err(UserCallError::OsNotSupported),
            },
            Err(e) => Err(e),
        }
    }
}

} // verus!
