use proxmox::errno::{CallError, Errno, SysError};

#[test]
fn raw_numbers_are_named() {
    assert_eq!(Errno::from_i32(2), Errno::ENOENT);
    assert_eq!(Errno::from_i32(12), Errno::ENOMEM);
    assert_eq!(Errno::from_i32(17), Errno::EEXIST);
    assert_eq!(Errno::from_i32(34), Errno::ERANGE);
    assert_eq!(Errno::from_i32(1), Errno::Other(1));
    assert_eq!(Errno::from_i32(133), Errno::Other(133));
}

#[test]
fn exactly_the_linux_errors_have_names() {
    for code in -5..200 {
        let named = (1..=133).contains(&code) && code != 41 && code != 58;
        assert_eq!(Errno::from_i32(code).code(), if named { code } else { 0 });
        let again = Errno::from_i32(Errno::from_i32(code).code());
        assert_eq!(again, Errno::from_i32(code));
    }
    assert_eq!(Errno::from_i32(i32::MIN), Errno::Other(0));
    assert_eq!(Errno::from_i32(i32::MAX), Errno::Other(0));
}

#[test]
fn errors_have_texts() {
    assert_eq!(Errno::ENOENT.message(), "ENOENT: No such file or directory");
    assert_eq!(Errno::from_i32(1).message(), "EPERM: Operation not permitted");
    assert_eq!(Errno::from_i32(500).message(), "UnknownErrno: Unknown errno");
    assert_eq!(SysError::InvalidPath.message(), "Invalid path");
    assert_eq!(SysError::from_call(CallError::Errno(17)).message(), "EEXIST: File exists");
}

#[test]
fn only_enoent_means_not_found() {
    assert!(SysError::from_call(CallError::Errno(2)).not_found());
    assert!(!SysError::from_call(CallError::Errno(20)).not_found());
    assert!(!SysError::from_call(CallError::InvalidPath).not_found());
}
