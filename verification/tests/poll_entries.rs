//! Flat-poll entries and the ready count.

use rustix::fd::OwnedFd;
use rustix::poll::{count_ready, poll_outcome, PollFd, POLLIN, POLLOUT};

#[test]
fn no_pending_readiness_reports_zero() {
    let a = OwnedFd::adopt(3);
    let b = OwnedFd::adopt(4);
    let fds = vec![PollFd::new(a.as_fd(), POLLIN), PollFd::new(b.as_fd(), POLLIN | POLLOUT)];
    // No output mask was filled: the ready count is zero, as a poll
    // that timed out reports.
    assert_eq!(count_ready(&fds), 0);
}

#[test]
fn filled_output_masks_are_counted() {
    let a = OwnedFd::adopt(3);
    let b = OwnedFd::adopt(4);
    let c = OwnedFd::adopt(5);
    let mut fds = vec![
        PollFd::new(a.as_fd(), POLLIN),
        PollFd::new(b.as_fd(), POLLIN),
        PollFd::new(c.as_fd(), POLLOUT),
    ];
    fds[0].store_revents(POLLIN);
    fds[2].store_revents(POLLOUT);
    assert_eq!(count_ready(&fds), 2);
    assert_eq!(fds[0].revents(), POLLIN);
    assert_eq!(fds[1].revents(), 0);
    assert_eq!(fds[1].events(), POLLIN);
}

#[test]
fn poll_return_word_translates() {
    assert_eq!(poll_outcome(0).unwrap(), 0);
    assert_eq!(poll_outcome(2).unwrap(), 2);
    assert_eq!(poll_outcome(-4).unwrap_err().raw_os_error(), 4);
}

#[test]
fn entry_keeps_its_resource_and_mask() {
    let a = OwnedFd::adopt(9);
    let entry = PollFd::new(a.as_fd(), POLLIN);
    assert_eq!(entry.as_fd().as_raw_fd(), 9);
    assert_eq!(entry.events(), POLLIN);
    assert_eq!(entry.revents(), 0);
}
