//! The flat-poll readiness multiplexer: entries, masks, and outcomes.
//!
//! One call takes a set of (borrowed resource, requested-event-mask)
//! entries and a timeout in milliseconds (`-1` blocks indefinitely, `0`
//! returns immediately), fills each entry's output mask in place, and
//! reports how many entries carry a nonzero output mask; that count may
//! legitimately be zero after a timeout. The OS call itself is issued
//! by the unverified shell, which stores each kernel-filled output mask
//! back through [`PollFd::store_revents`] and routes the return word
//! through [`poll_outcome`].

use vstd::prelude::*;
use crate::fd::BorrowedFd;
use crate::io::Errno;

verus! {

/// `POLLIN`: readable data is available.
pub const POLLIN: u16 = 0x001;
/// `POLLPRI`: exceptional-condition data is available.
pub const POLLPRI: u16 = 0x002;
/// `POLLOUT`: writing is possible without blocking.
pub const POLLOUT: u16 = 0x004;
/// `POLLERR`: an error condition occurred (output only).
pub const POLLERR: u16 = 0x008;
/// `POLLHUP`: the peer hung up (output only).
pub const POLLHUP: u16 = 0x010;
/// `POLLNVAL`: the entry's descriptor is not open (output only).
pub const POLLNVAL: u16 = 0x020;
/// `POLLRDNORM`: normal readable data is available.
pub const POLLRDNORM: u16 = 0x040;
/// `POLLRDBAND`: priority-band readable data is available.
pub const POLLRDBAND: u16 = 0x080;
/// `POLLWRNORM`: normal data may be written without blocking.
pub const POLLWRNORM: u16 = 0x100;
/// `POLLWRBAND`: priority-band data may be written without blocking.
pub const POLLWRBAND: u16 = 0x200;

/// One flat-poll entry: a borrowed resource, the event mask the caller
/// requests, and the output mask the multiplexer fills in place. Its
/// lifetime is bounded by the resource it borrows.
pub struct PollFd<'a> {
    fd: BorrowedFd<'a>,
    events: u16,
    revents: u16,
}

impl<'a> PollFd<'a> {
    /// The identifier of the borrowed resource.
    pub closed spec fn fd_spec(self) -> i32 {
        self.fd.raw_fd()
    }

    /// The requested-event mask.
    pub closed spec fn events_spec(self) -> u16 {
        self.events
    }

    /// The output event mask.
    pub closed spec fn revents_spec(self) -> u16 {
        self.revents
    }

    /// Builds an entry for one resource with a requested mask; the
    /// output mask starts empty.
    #[inline]
    pub fn new(fd: BorrowedFd<'a>, events: u16) -> (r: PollFd<'a>)
        ensures
            r.fd_spec() == fd.raw_fd(),
            r.events_spec() == events,
            r.revents_spec() == 0,
    {
        PollFd { fd, events, revents: 0 }
    }

    /// The borrowed resource this entry polls.
    #[inline]
    pub fn as_fd(&self) -> (r: BorrowedFd<'a>)
        ensures
            r.raw_fd() == self.fd_spec(),
    {
        self.fd
    }

    /// The requested-event mask.
    #[inline]
    pub fn events(&self) -> (r: u16)
        ensures
            r == self.events_spec(),
    {
        self.events
    }

    /// The output event mask filled by the last poll call.
    #[inline]
    pub fn revents(&self) -> (r: u16)
        ensures
            r == self.revents_spec(),
    {
        self.revents
    }

    /// Stores the kernel-filled output mask into this entry, leaving
    /// the resource and the requested mask unchanged.
    #[inline]
    pub fn store_revents(&mut self, bits: u16)
        ensures
            final(self).revents_spec() == bits,
            final(self).events_spec() == old(self).events_spec(),
            final(self).fd_spec() == old(self).fd_spec(),
    {
        self.revents = bits;
    }
}

/// How many entries of `s` carry a nonzero output mask.
pub open spec fn ready_count<'a>(s: Seq<PollFd<'a>>) -> int
    decreases s.len(),
{
    if s.len() == 0 {
        0
    } else {
        ready_count(s.drop_last()) + (if s.last().revents_spec() != 0 {
            1int
        } else {
            0int
        })
    }
}

/// Counts the entries whose output mask is nonzero: the ready count the
/// flat-poll contract reports.
pub fn count_ready<'a>(fds: &Vec<PollFd<'a>>) -> (n: usize)
    ensures
        n == ready_count(fds@),
        n <= fds@.len(),
{
    let mut n: usize = 0;
    let mut i: usize = 0;
    while i < fds.len()
        invariant
            i <= fds@.len(),
            n == ready_count(fds@.take(i as int)),
            n <= i,
        decreases fds@.len() - i,
    {
        if fds[i].revents() != 0 {
            n = n + 1;
        }
        proof {
            let t = fds@.take(i + 1int);
            assert(t.drop_last() =~= fds@.take(i as int));
            assert(t.last() == fds@[i as int]);
        }
        i = i + 1;
    }
    proof {
        assert(fds@.take(fds@.len() as int) =~= fds@);
    }
    n
}

/// An entry set with no pending readiness reports a ready count of
/// zero: the flat-poll contract owes no event when no output mask was
/// filled.
pub proof fn lemma_no_readiness_means_zero<'a>(s: Seq<PollFd<'a>>)
    requires
        forall|i: int| 0 <= i < s.len() ==> s[i].revents_spec() == 0,
    ensures
        ready_count(s) == 0,
    decreases s.len(),
{
    if s.len() > 0 {
        lemma_no_readiness_means_zero(s.drop_last());
    }
}

/// The ready count never exceeds the number of entries.
pub proof fn lemma_ready_count_bounded<'a>(s: Seq<PollFd<'a>>)
    ensures
        0 <= ready_count(s) <= s.len(),
    decreases s.len(),
{
    if s.len() > 0 {
        lemma_ready_count_bounded(s.drop_last());
    }
}

/// Translates the flat-poll return word into the ready count.
pub fn poll_outcome(raw: i32) -> (r: Result<usize, Errno>)
    requires
        crate::conv::magnitude_fits(raw as int),
    ensures
        r is Ok <==> 0 <= raw,
        r matches Ok(n) ==> n == raw,
        r matches Err(e) ==> e.code() == -raw,
{
    match crate::conv::ret_c_int(raw) {
        Ok(n) => Ok(n as usize),
        Err(e) => Err(e),
    }
}

} // verus!
