//! Outcome translation: negative return words become errors carrying
//! the word's magnitude, non-negative words become success values, and
//! zero is success.

use rustix::conv::{
    ret, ret_c_int, ret_discarded_fd, ret_owned_fd, ret_usize, syscall_ret_owned_fd,
    syscall_ret_usize,
};

#[test]
fn negative_words_become_errors() {
    for raw in [-1i32, -2, -11, -22, -4095, -1_000_000] {
        let e = ret(raw).unwrap_err();
        assert_eq!(e.raw_os_error(), -raw);
        let e = ret_c_int(raw).unwrap_err();
        assert_eq!(e.raw_os_error(), -raw);
        let e = ret_usize(raw as isize).unwrap_err();
        assert_eq!(e.raw_os_error(), -raw);
        let e = ret_owned_fd(raw).unwrap_err();
        assert_eq!(e.raw_os_error(), -raw);
        let e = ret_discarded_fd(raw).unwrap_err();
        assert_eq!(e.raw_os_error(), -raw);
    }
}

#[test]
fn non_negative_words_become_values() {
    assert_eq!(ret_c_int(7).unwrap(), 7);
    assert_eq!(ret_c_int(i32::MAX).unwrap(), i32::MAX);
    assert_eq!(ret_usize(40960).unwrap(), 40960usize);
    assert!(ret(1).is_ok());
    assert!(ret_discarded_fd(3).is_ok());
    let fd = ret_owned_fd(5).unwrap();
    assert_eq!(fd.as_raw_fd(), 5);
}

#[test]
fn zero_is_success_not_error() {
    assert!(ret(0).is_ok());
    assert_eq!(ret_c_int(0).unwrap(), 0);
    assert_eq!(ret_usize(0).unwrap(), 0usize);
    assert_eq!(ret_owned_fd(0).unwrap().as_raw_fd(), 0);
}

#[test]
fn distinguished_range_marks_low_level_errors() {
    let e = syscall_ret_usize(-1).unwrap_err();
    assert_eq!(e.raw_os_error(), 1);
    let e = syscall_ret_usize(-4095).unwrap_err();
    assert_eq!(e.raw_os_error(), 4095);
    // One past the range is a success encoding reinterpreted at the
    // target width.
    assert_eq!(syscall_ret_usize(-4096).unwrap(), (-4096isize) as usize);
    assert_eq!(syscall_ret_usize(0).unwrap(), 0usize);
    assert_eq!(syscall_ret_usize(88).unwrap(), 88usize);
    let e = syscall_ret_owned_fd(-11).unwrap_err();
    assert_eq!(e.raw_os_error(), 11);
    assert_eq!(syscall_ret_owned_fd(4).unwrap().as_raw_fd(), 4);
}

#[test]
fn error_codes_compare_and_construct() {
    let a = rustix::io::Errno::from_raw_os_error(rustix::io::EINTR);
    let b = rustix::io::Errno::from_raw_os_error(4);
    assert_eq!(a, b);
    assert_ne!(a, rustix::io::Errno::from_raw_os_error(rustix::io::EINVAL));
    assert_eq!(a.raw_os_error(), 4);
    // On the supported targets the two would-block codes are one.
    assert_eq!(rustix::io::EAGAIN, rustix::io::EWOULDBLOCK);
}
