//! Typed OS error codes and the verified halves of descriptor I/O calls.

use vstd::prelude::*;

verus! {

/// `EINTR`: a blocking call was interrupted by a signal.
pub const EINTR: i32 = 4;
/// `EBADF`: the descriptor does not name an open resource.
pub const EBADF: i32 = 9;
/// `EAGAIN`: the operation would have had to block.
pub const EAGAIN: i32 = 11;
/// `EWOULDBLOCK`: equal to `EAGAIN` on the supported targets.
pub const EWOULDBLOCK: i32 = 11;
/// `EINVAL`: an argument was invalid.
pub const EINVAL: i32 = 22;
/// `EPIPE`: the write side of the stream is shut down.
pub const EPIPE: i32 = 32;
/// `ERANGE`: a supplied buffer was too small; the growable-buffer
/// protocol treats this as its retry signal.
pub const ERANGE: i32 = 34;
/// `EOVERFLOW`: a count or length does not fit the call's native width.
pub const EOVERFLOW: i32 = 75;
/// `ENOTSOCK`: the descriptor does not name a socket.
pub const ENOTSOCK: i32 = 88;

/// A typed OS failure code.
///
/// The wrapped integer is the code the OS reported, preserved verbatim.
/// Zero denotes success at the OS boundary and is never a valid `Errno`.
#[derive(Copy, Clone, Eq, PartialEq, Structural, Debug, Hash)]
pub struct Errno(i32);

impl Errno {
    /// A value of this type always holds a nonzero code.
    #[verifier::type_invariant]
    pub closed spec fn inv(self) -> bool {
        self.0 != 0
    }

    /// The raw failure code this value wraps.
    pub closed spec fn code(self) -> i32 {
        self.0
    }

    /// Wraps a raw OS failure code. Zero denotes success, not a failure,
    /// so it is refused here.
    #[inline]
    pub fn from_raw_os_error(raw: i32) -> (r: Errno)
        requires
            raw != 0,
        ensures
            r.code() == raw,
    {
        Errno(raw)
    }

    /// The raw failure code, for comparison against the `E*` constants.
    #[inline]
    pub fn raw_os_error(self) -> (r: i32)
        ensures
            r == self.code(),
    {
        self.0
    }
}

/// The largest byte count handed to one read or write call; larger
/// buffers are clamped, since counts past this limit have no defined
/// meaning at the OS boundary.
pub const READ_LIMIT: usize = isize::MAX as usize;

/// Clamps a buffer length to [`READ_LIMIT`] before it crosses the OS
/// boundary.
#[inline]
pub fn clamp_read_len(len: usize) -> (r: usize)
    ensures
        r == (if len < READ_LIMIT { len as int } else { READ_LIMIT as int }),
        r <= len,
        r <= READ_LIMIT,
{
    if len < READ_LIMIT {
        len
    } else {
        READ_LIMIT
    }
}

/// Reinterprets the pending-byte count reported by `FIONREAD`.
///
/// The OS reports the count silently cast to a signed word, even when
/// that is lossy; the best recovery is to widen it back without sign
/// extension.
#[inline]
pub fn fionread_count(raw: i32) -> (r: u64)
    ensures
        r == raw as u32 as u64,
{
    #[verifier::truncate]
    let unsigned: u32 = raw as u32;
    unsigned as u64
}

/// The most entries one vectored read or write call may take.
pub const MAX_IOV: usize = 1024;

/// Clamps a vectored call's entry count to [`MAX_IOV`] and narrows it
/// to the call's native signed width.
#[inline]
pub fn clamp_iov_count(count: usize) -> (r: i32)
    ensures
        r == (if count < MAX_IOV { count as int } else { MAX_IOV as int }),
        0 <= r <= MAX_IOV,
        r <= count,
{
    if count < MAX_IOV {
        count as i32
    } else {
        MAX_IOV as i32
    }
}

/// The outcome of the read-side readiness decision: the corrected read
/// flag and whether the probe showed the resource is not a socket.
pub open spec fn read_side_spec(read: bool, probe: Result<usize, Errno>) -> Result<(bool, bool), Errno> {
    if !read {
        Ok((false, false))
    } else {
        match probe {
            Ok(n) => Ok((n != 0, false)),
            Err(e) => {
                if e.code() == EAGAIN {
                    Ok((true, false))
                } else if e.code() == ENOTSOCK {
                    Ok((true, true))
                } else {
                    Err(e)
                }
            },
        }
    }
}

/// The outcome of the write-side readiness decision.
pub open spec fn write_side_spec(write: bool, not_socket: bool, probe: Result<usize, Errno>) -> Result<bool, Errno> {
    if !write || not_socket {
        Ok(write)
    } else {
        match probe {
            Ok(_) => Ok(true),
            Err(e) => {
                if e.code() == EAGAIN || e.code() == ENOTSOCK {
                    Ok(true)
                } else if e.code() == EPIPE {
                    Ok(false)
                } else {
                    Err(e)
                }
            },
        }
    }
}

/// What `is_read_write` returns for every combination of its inputs.
pub open spec fn is_read_write_spec(
    read: bool,
    write: bool,
    recv_probe: Result<usize, Errno>,
    send_probe: Result<usize, Errno>,
) -> Result<(bool, bool), Errno> {
    match read_side_spec(read, recv_probe) {
        Err(e) => Err(e),
        Ok((read2, not_socket)) => match write_side_spec(write, not_socket, send_probe) {
            Err(e) => Err(e),
            Ok(write2) => Ok((read2, write2)),
        },
    }
}

/// Decides whether a descriptor's read and write sides are still open.
///
/// `read` and `write` are the access modes the descriptor was opened
/// with. `recv_probe` is the outcome of a one-byte peeking, non-blocking
/// receive: zero bytes means the read side is shut down, a would-block
/// failure means it is still open, and a not-a-socket failure marks the
/// resource as not a socket, which settles the write side as well.
/// `send_probe` is the outcome of a zero-byte non-blocking send, whose
/// broken-pipe failure means the write side is shut down. Probes that
/// the decision does not consult are ignored. Any other probe failure
/// is surfaced unchanged.
pub fn is_read_write(
    read: bool,
    write: bool,
    recv_probe: Result<usize, Errno>,
    send_probe: Result<usize, Errno>,
) -> (r: Result<(bool, bool), Errno>)
    ensures
        r == is_read_write_spec(read, write, recv_probe, send_probe),
{
    let mut read_open = read;
    let mut write_open = write;
    let mut not_socket = false;
    if read_open {
        match recv_probe {
            Ok(n) => {
                if n == 0 {
                    read_open = false;
                }
            },
            Err(e) => {
                let code = e.raw_os_error();
                if code == EAGAIN {
                    // The read side would block: it is still open.
                } else if code == ENOTSOCK {
                    not_socket = true;
                } else {
                    return Err(e);
                }
            },
        }
    }
    if write_open && !not_socket {
        match send_probe {
            Ok(_) => {},
            Err(e) => {
                let code = e.raw_os_error();
                if code == EAGAIN || code == ENOTSOCK {
                    // Would block, or not a socket: the write side stands.
                } else if code == EPIPE {
                    write_open = false;
                } else {
                    return Err(e);
                }
            },
        }
    }
    Ok((read_open, write_open))
}

} // verus!
