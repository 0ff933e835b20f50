//! The event-port readiness multiplexer (Solaris-style).
//!
//! A port is an owned handle. Sources are registered one (source,
//! object) pair at a time, a wait retrieves one event or a batch of
//! them, and a self-defined event can be injected for wakeup. The OS
//! calls are issued by the unverified shell; the verified parts here
//! are the event-record model, the width check the batch call's buffer
//! capacity must pass, and the batch-delivery model: the request is a
//! value in, and the answer is the length of the returned collection,
//! never a shared mutable counter.

use vstd::prelude::*;
use crate::io::{Errno, EOVERFLOW};

verus! {

/// One opaque, OS-defined event record of an event port: the source it
/// came from, an event mask, the associated object, and the
/// caller-chosen tag carried through unchanged. Only these accessors
/// are exposed; callers may not depend on a memory layout.
#[derive(Copy, Clone, Eq, PartialEq, Structural, Debug)]
pub struct Event {
    source: u16,
    events: i32,
    object: u64,
    userdata: u64,
}

impl Event {
    /// The facility the event came from.
    pub closed spec fn source_spec(self) -> u16 {
        self.source
    }

    /// The mask of occurred events.
    pub closed spec fn events_spec(self) -> i32 {
        self.events
    }

    /// The object the event concerns.
    pub closed spec fn object_spec(self) -> u64 {
        self.object
    }

    /// The caller-chosen tag.
    pub closed spec fn userdata_spec(self) -> u64 {
        self.userdata
    }

    /// Builds a record from its fields, as the unverified shell does
    /// for each entry the OS delivered.
    #[inline]
    pub fn new(source: u16, events: i32, object: u64, userdata: u64) -> (r: Event)
        ensures
            r.source_spec() == source,
            r.events_spec() == events,
            r.object_spec() == object,
            r.userdata_spec() == userdata,
    {
        Event { source, events, object, userdata }
    }

    /// The facility the event came from.
    #[inline]
    pub fn source(&self) -> (r: u16)
        ensures
            r == self.source_spec(),
    {
        self.source
    }

    /// The mask of occurred events.
    #[inline]
    pub fn events(&self) -> (r: i32)
        ensures
            r == self.events_spec(),
    {
        self.events
    }

    /// The object the event concerns.
    #[inline]
    pub fn object(&self) -> (r: u64)
        ensures
            r == self.object_spec(),
    {
        self.object
    }

    /// The caller-chosen tag.
    #[inline]
    pub fn userdata(&self) -> (r: u64)
        ensures
            r == self.userdata_spec(),
    {
        self.userdata
    }
}

/// Checks that a batch buffer's capacity fits the batch call's native
/// unsigned width, reporting overflow rather than truncating; on
/// success the capacity passes through unchanged.
pub fn port_getn_limit(capacity: usize) -> (r: Result<u32, Errno>)
    ensures
        r is Ok <==> capacity <= u32::MAX,
        r matches Ok(v) ==> v == capacity,
        r matches Err(e) ==> e.code() == EOVERFLOW,
{
    if capacity <= u32::MAX as usize {
        Ok(capacity as u32)
    } else {
        Err(Errno::from_raw_os_error(EOVERFLOW))
    }
}

/// Delivers a batch of up to `max_count` events from the ready queue.
///
/// The returned collection holds exactly the delivered events: at most
/// `max_count` of them, in their original order, none reordered,
/// coalesced or dropped, and its length equals the number actually
/// delivered.
pub fn deliver_up_to(ready: &Vec<Event>, max_count: usize) -> (out: Vec<Event>)
    ensures
        out@.len() == (if ready@.len() < max_count { ready@.len() } else { max_count as nat }),
        out@ =~= ready@.take(out@.len() as int),
        out@.len() <= max_count,
{
    let n: usize = if ready.len() < max_count {
        ready.len()
    } else {
        max_count
    };
    let mut out: Vec<Event> = Vec::new();
    let mut i: usize = 0;
    while i < n
        invariant
            i <= n,
            n <= ready@.len(),
            out@ =~= ready@.take(i as int),
        decreases n - i,
    {
        out.push(ready[i]);
        proof {
            assert(out@ =~= ready@.take(i + 1int));
        }
        i = i + 1;
    }
    out
}

} // verus!
