//! The change/event-queue readiness multiplexer (BSD-style).
//!
//! One wait call atomically applies a changelist of subscribe,
//! unsubscribe and modify entries, then blocks up to a timeout (absent
//! means block forever) for up to the output buffer's capacity of ready
//! events. The queue itself is an owned handle created once and
//! released once. The OS call is issued by the unverified shell; the
//! verified parts here are the event-record model, which is exposed
//! only through accessors, and the width checks both entry counts must
//! pass before they cross the OS boundary.

use vstd::prelude::*;
use crate::io::{Errno, EOVERFLOW};

verus! {

/// One opaque, OS-defined event record of the change/event queue: an
/// identifier, a filter selecting the kind of condition watched, a
/// flags word, a filter-specific mask, a data word, and a caller-chosen
/// tag carried through unchanged. Only these accessors are exposed;
/// callers may not depend on a memory layout.
#[derive(Copy, Clone, Eq, PartialEq, Structural, Debug)]
pub struct Event {
    ident: u64,
    filter: i16,
    flags: u16,
    fflags: u32,
    data: i64,
    udata: i64,
}

impl Event {
    /// The watched identifier.
    pub closed spec fn ident_spec(self) -> u64 {
        self.ident
    }

    /// The filter this record belongs to.
    pub closed spec fn filter_spec(self) -> i16 {
        self.filter
    }

    /// The action and state flags.
    pub closed spec fn flags_spec(self) -> u16 {
        self.flags
    }

    /// The filter-specific mask.
    pub closed spec fn fflags_spec(self) -> u32 {
        self.fflags
    }

    /// The filter-specific data word.
    pub closed spec fn data_spec(self) -> i64 {
        self.data
    }

    /// The caller-chosen tag.
    pub closed spec fn udata_spec(self) -> i64 {
        self.udata
    }

    /// Builds a changelist entry from its fields.
    #[inline]
    pub fn new(ident: u64, filter: i16, flags: u16, fflags: u32, data: i64, udata: i64) -> (r: Event)
        ensures
            r.ident_spec() == ident,
            r.filter_spec() == filter,
            r.flags_spec() == flags,
            r.fflags_spec() == fflags,
            r.data_spec() == data,
            r.udata_spec() == udata,
    {
        Event { ident, filter, flags, fflags, data, udata }
    }

    /// The watched identifier.
    #[inline]
    pub fn ident(&self) -> (r: u64)
        ensures
            r == self.ident_spec(),
    {
        self.ident
    }

    /// The filter this record belongs to.
    #[inline]
    pub fn filter(&self) -> (r: i16)
        ensures
            r == self.filter_spec(),
    {
        self.filter
    }

    /// The action and state flags.
    #[inline]
    pub fn flags(&self) -> (r: u16)
        ensures
            r == self.flags_spec(),
    {
        self.flags
    }

    /// The filter-specific mask.
    #[inline]
    pub fn fflags(&self) -> (r: u32)
        ensures
            r == self.fflags_spec(),
    {
        self.fflags
    }

    /// The filter-specific data word.
    #[inline]
    pub fn data(&self) -> (r: i64)
        ensures
            r == self.data_spec(),
    {
        self.data
    }

    /// The caller-chosen tag.
    #[inline]
    pub fn udata(&self) -> (r: i64)
        ensures
            r == self.udata_spec(),
    {
        self.udata
    }
}

/// Checks that the changelist and output-buffer entry counts fit the
/// wait call's native signed width, reporting overflow rather than
/// truncating; on success, both counts pass through unchanged.
pub fn kevent_counts(changelist_len: usize, eventlist_len: usize) -> (r: Result<(i32, i32), Errno>)
    ensures
        r is Ok <==> (changelist_len <= i32::MAX && eventlist_len <= i32::MAX),
        r matches Ok(v) ==> v.0 == changelist_len && v.1 == eventlist_len,
        r matches Err(e) ==> e.code() == EOVERFLOW,
{
    if changelist_len <= i32::MAX as usize && eventlist_len <= i32::MAX as usize {
        Ok((changelist_len as i32, eventlist_len as i32))
    } else {
        Err(Errno::from_raw_os_error(EOVERFLOW))
    }
}

} // verus!
