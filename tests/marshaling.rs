use user_call::marshal::{FromCallReturn, IntoCallParam};

#[test]
fn booleans_round_trip() {
    // A Win32 BOOL is an i32: TRUE is 1 and FALSE is 0.
    assert_eq!(1i32.into_call_param(), 1);
    assert_eq!(0i32.into_call_param(), 0);
    assert_eq!(i32::from_call_return(1i32.into_call_param()), 1);
    assert_eq!(i32::from_call_return(0i32.into_call_param()), 0);
}

#[test]
fn handles_and_pointers_round_trip() {
    let handle: usize = 0x0001_02A4;
    assert_eq!(usize::from_call_return(handle.into_call_param()), handle);
    let pointer: usize = 0x7FF6_1234_5678;
    assert_eq!(usize::from_call_return(pointer.into_call_param()), pointer);
}

#[test]
fn signed_integers_sign_extend_and_round_trip() {
    assert_eq!((-1i32).into_call_param(), usize::MAX);
    assert_eq!((-2i16).into_call_param(), usize::MAX - 1);
    assert_eq!(i32::from_call_return((-5i32).into_call_param()), -5);
    assert_eq!(i32::from_call_return(42i32.into_call_param()), 42);
    assert_eq!(i16::from_call_return((-300i16).into_call_param()), -300);
    assert_eq!(isize::from_call_return((-7isize).into_call_param()), -7);
    assert_eq!(i32::from_call_return(i32::MIN.into_call_param()), i32::MIN);
}

#[test]
fn unsigned_integers_round_trip() {
    assert_eq!(u32::from_call_return(u32::MAX.into_call_param()), u32::MAX);
    assert_eq!(u32::MAX.into_call_param(), 0xFFFF_FFFF);
}

#[test]
fn returns_truncate_to_the_declared_type() {
    assert_eq!(u32::from_call_return(0x1_0000_0002), 2);
    assert_eq!(i32::from_call_return(0xFFFF_FFFF), -1);
    let () = <()>::from_call_return(17);
}
