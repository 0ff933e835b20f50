//! Handle ownership, ID value types, and the read/write status
//! decision.

use rustix::fd::{BorrowedFd, OwnedFd};
use rustix::io::{
    clamp_read_len, fionread_count, is_read_write, Errno, EAGAIN, EBADF, ENOTSOCK, EPIPE,
    READ_LIMIT,
};
use rustix::kqueue::kevent_counts;
use rustix::ugid::{translate_fchown_args, Gid, Uid};

#[test]
fn handle_peek_and_release() {
    let fd = OwnedFd::adopt(12);
    assert_eq!(fd.as_raw_fd(), 12);
    let borrowed = fd.as_fd();
    assert_eq!(borrowed.as_raw_fd(), 12);
    // Releasing ownership hands back the identifier; the release
    // obligation is the caller's from here on.
    assert_eq!(fd.into_raw_fd(), 12);
}

#[test]
fn borrowed_view_names_the_same_resource() {
    let view: BorrowedFd = BorrowedFd::borrow_raw(7);
    assert_eq!(view.as_raw_fd(), 7);
    let again = view;
    assert_eq!(again.as_raw_fd(), 7);
}

#[test]
fn ids_round_trip_and_compare() {
    let u = Uid::from_raw(1000);
    assert_eq!(u.as_raw(), 1000);
    assert!(!u.is_root());
    assert!(Uid::from_raw(0).is_root());
    let g = Gid::from_raw(100);
    assert_eq!(g.as_raw(), 100);
    assert!(!g.is_root());
    assert!(Gid::from_raw(0).is_root());
    assert_eq!(u, Uid::from_raw(1000));
    assert_ne!(g, Gid::from_raw(0));
}

#[test]
fn absent_ownership_arguments_become_all_ones() {
    assert_eq!(translate_fchown_args(None, None), (u32::MAX, u32::MAX));
    assert_eq!(
        translate_fchown_args(Some(Uid::from_raw(3)), None),
        (3, u32::MAX)
    );
    assert_eq!(
        translate_fchown_args(None, Some(Gid::from_raw(5))),
        (u32::MAX, 5)
    );
    assert_eq!(
        translate_fchown_args(Some(Uid::from_raw(0)), Some(Gid::from_raw(0))),
        (0, 0)
    );
}

#[test]
fn read_write_status_decisions() {
    let would_block = || Err(Errno::from_raw_os_error(EAGAIN));
    let not_socket = || Err(Errno::from_raw_os_error(ENOTSOCK));
    let pipe_gone = || Err(Errno::from_raw_os_error(EPIPE));
    let bad = || Err(Errno::from_raw_os_error(EBADF));

    // Both probes would block: both sides are open.
    assert_eq!(is_read_write(true, true, would_block(), would_block()), Ok((true, true)));
    // A zero-byte receive: the read side is shut down.
    assert_eq!(is_read_write(true, true, Ok(0), would_block()), Ok((false, true)));
    // A broken pipe on the send probe: the write side is shut down.
    assert_eq!(is_read_write(true, true, would_block(), pipe_gone()), Ok((true, false)));
    // Not a socket: both sides stand, and the send probe is ignored.
    assert_eq!(is_read_write(true, true, not_socket(), bad()), Ok((true, true)));
    // A descriptor without read access never consults the probes.
    assert_eq!(is_read_write(false, true, bad(), would_block()), Ok((false, true)));
    // Any other probe failure is surfaced unchanged.
    assert_eq!(
        is_read_write(true, true, bad(), would_block()),
        Err(Errno::from_raw_os_error(EBADF))
    );
    assert_eq!(
        is_read_write(true, true, would_block(), bad()),
        Err(Errno::from_raw_os_error(EBADF))
    );
}

#[test]
fn read_lengths_are_clamped() {
    assert_eq!(clamp_read_len(100), 100);
    assert_eq!(clamp_read_len(usize::MAX), READ_LIMIT);
    assert_eq!(clamp_read_len(READ_LIMIT), READ_LIMIT);
}

#[test]
fn pending_byte_counts_widen_without_sign_extension() {
    assert_eq!(fionread_count(10), 10);
    assert_eq!(fionread_count(-1), u32::MAX as u64);
}

#[test]
fn queue_record_accessors_report_the_fields() {
    let ev = rustix::kqueue::Event::new(3, -1, 0x0001, 0, 64, 777);
    assert_eq!(ev.ident(), 3);
    assert_eq!(ev.filter(), -1);
    assert_eq!(ev.flags(), 0x0001);
    assert_eq!(ev.fflags(), 0);
    assert_eq!(ev.data(), 64);
    assert_eq!(ev.udata(), 777);
}

#[test]
fn queue_entry_counts_must_fit_the_native_width() {
    assert_eq!(kevent_counts(2, 8).unwrap(), (2, 8));
    let e = kevent_counts(i32::MAX as usize + 1, 8).unwrap_err();
    assert_eq!(e.raw_os_error(), rustix::io::EOVERFLOW);
    let e = kevent_counts(1, i32::MAX as usize + 1).unwrap_err();
    assert_eq!(e.raw_os_error(), rustix::io::EOVERFLOW);
}
