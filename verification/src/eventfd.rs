//! The counter-object readiness primitive (eventfd-style).
//!
//! The OS object behind the handle is a saturating 64-bit counter. A
//! write adds an 8-byte value to the counter and a read either drains
//! it (default mode) or decrements it by one (semaphore mode); either
//! direction blocks, or fails with a would-block code in non-blocking
//! mode, when the counter cannot move. [`CounterObject`] is the
//! verified model of that object: its methods are the exact state
//! transitions the OS performs when a call completes, with the
//! would-block condition reported as [`EAGAIN`]; in blocking mode the
//! OS parks the caller until the same transition can complete. The
//! creation call itself is issued by the unverified shell and its
//! return word routed through the outcome translation layer.

use vstd::prelude::*;
use vstd::bytes::{spec_u64_from_le_bytes, spec_u64_to_le_bytes, u64_from_le_bytes, u64_to_le_bytes};
use vstd::slice::slice_subrange;
use crate::io::{Errno, EAGAIN, EINVAL};

verus! {

/// Semaphore mode: each read decrements the counter by one and reports
/// one.
pub const EFD_SEMAPHORE: u32 = 1;
/// Non-blocking mode: a call that would block fails with a would-block
/// code instead.
pub const EFD_NONBLOCK: u32 = 0o4000;
/// The handle is closed across process-image replacement.
pub const EFD_CLOEXEC: u32 = 0o2000000;

/// The largest value the counter can hold; an addition past it would
/// block.
pub const COUNTER_MAX: u64 = 0xffff_ffff_ffff_fffe;

/// Verified model of the 64-bit counter object exposed through a
/// counter handle.
pub struct CounterObject {
    value: u64,
    semaphore: bool,
    nonblocking: bool,
}

impl CounterObject {
    /// The counter never exceeds its saturation bound.
    #[verifier::type_invariant]
    pub closed spec fn inv(self) -> bool {
        self.value <= COUNTER_MAX
    }

    /// The current counter value.
    pub closed spec fn value_spec(self) -> u64 {
        self.value
    }

    /// Whether reads decrement by one instead of draining.
    pub closed spec fn semaphore_spec(self) -> bool {
        self.semaphore
    }

    /// Whether a call that would block fails instead.
    pub closed spec fn nonblocking_spec(self) -> bool {
        self.nonblocking
    }

    /// The counter a creation call with these arguments sets up.
    pub fn create(initial_value: u32, flags: u32) -> (r: CounterObject)
        ensures
            r.value_spec() == initial_value,
            r.semaphore_spec() == ((flags & EFD_SEMAPHORE) != 0),
            r.nonblocking_spec() == ((flags & EFD_NONBLOCK) != 0),
    {
        CounterObject {
            value: initial_value as u64,
            semaphore: (flags & EFD_SEMAPHORE) != 0,
            nonblocking: (flags & EFD_NONBLOCK) != 0,
        }
    }

    /// Adds a written value to the counter.
    ///
    /// The all-ones word is not a legal addend. An addition that would
    /// push the counter past its bound cannot complete: it is reported
    /// as [`EAGAIN`], the condition under which a blocking writer is
    /// parked instead. A completed write reports the eight bytes
    /// consumed.
    pub fn write_value(&mut self, v: u64) -> (r: Result<usize, Errno>)
        ensures
            final(self).semaphore_spec() == old(self).semaphore_spec(),
            final(self).nonblocking_spec() == old(self).nonblocking_spec(),
            v == u64::MAX ==> (r matches Err(e) && e.code() == EINVAL)
                && final(self).value_spec() == old(self).value_spec(),
            v != u64::MAX && old(self).value_spec() + v <= COUNTER_MAX ==> (r matches Ok(n) && n
                == 8) && final(self).value_spec() == old(self).value_spec() + v,
            v != u64::MAX && old(self).value_spec() + v > COUNTER_MAX ==> (r matches Err(e)
                && e.code() == EAGAIN) && final(self).value_spec() == old(self).value_spec(),
    {
        proof {
            use_type_invariant(&*self);
        }
        if v == u64::MAX {
            return Err(Errno::from_raw_os_error(EINVAL));
        }
        if v <= COUNTER_MAX - self.value {
            self.value = self.value + v;
            Ok(8)
        } else {
            Err(Errno::from_raw_os_error(EAGAIN))
        }
    }

    /// Takes from the counter.
    ///
    /// A zero counter cannot move: that is reported as [`EAGAIN`], the
    /// condition under which a blocking reader is parked instead. In
    /// default mode the read reports the full counter value and resets
    /// it to zero; in semaphore mode it decrements the counter by one
    /// and reports one.
    pub fn read_value(&mut self) -> (r: Result<u64, Errno>)
        ensures
            final(self).semaphore_spec() == old(self).semaphore_spec(),
            final(self).nonblocking_spec() == old(self).nonblocking_spec(),
            old(self).value_spec() == 0 ==> (r matches Err(e) && e.code() == EAGAIN)
                && final(self).value_spec() == 0,
            old(self).value_spec() != 0 && old(self).semaphore_spec() ==> (r matches Ok(v) && v
                == 1) && final(self).value_spec() == old(self).value_spec() - 1,
            old(self).value_spec() != 0 && !old(self).semaphore_spec() ==> (r matches Ok(v) && v
                == old(self).value_spec()) && final(self).value_spec() == 0,
    {
        if self.value == 0 {
            return Err(Errno::from_raw_os_error(EAGAIN));
        }
        if self.semaphore {
            let v = self.value;
            self.value = v - 1;
            Ok(1)
        } else {
            let v = self.value;
            self.value = 0;
            Ok(v)
        }
    }

    /// A write call: consumes the first eight bytes of `buf` as a
    /// little-endian counter word. A shorter buffer is refused with
    /// [`EINVAL`], as the OS call refuses it, before the counter is
    /// consulted.
    pub fn write_bytes(&mut self, buf: &Vec<u8>) -> (r: Result<usize, Errno>)
        ensures
            final(self).semaphore_spec() == old(self).semaphore_spec(),
            final(self).nonblocking_spec() == old(self).nonblocking_spec(),
            buf@.len() < 8 ==> (r matches Err(e) && e.code() == EINVAL)
                && final(self).value_spec() == old(self).value_spec(),
            buf@.len() >= 8 ==> ({
                let v = spec_u64_from_le_bytes(buf@.subrange(0, 8));
                &&& v == u64::MAX ==> (r matches Err(e) && e.code() == EINVAL)
                    && final(self).value_spec() == old(self).value_spec()
                &&& v != u64::MAX && old(self).value_spec() + v <= COUNTER_MAX ==> (r matches Ok(n)
                    && n == 8) && final(self).value_spec() == old(self).value_spec() + v
                &&& v != u64::MAX && old(self).value_spec() + v > COUNTER_MAX ==> (r matches Err(e)
                    && e.code() == EAGAIN) && final(self).value_spec() == old(self).value_spec()
            }),
    {
        if buf.len() < 8 {
            return Err(Errno::from_raw_os_error(EINVAL));
        }
        let word_bytes = slice_subrange(buf.as_slice(), 0, 8);
        let v = u64_from_le_bytes(word_bytes);
        self.write_value(v)
    }

    /// A read call of eight bytes: the value the read reports, encoded
    /// as a little-endian counter word.
    pub fn read_bytes(&mut self) -> (r: Result<Vec<u8>, Errno>)
        ensures
            final(self).semaphore_spec() == old(self).semaphore_spec(),
            final(self).nonblocking_spec() == old(self).nonblocking_spec(),
            old(self).value_spec() == 0 ==> (r matches Err(e) && e.code() == EAGAIN)
                && final(self).value_spec() == 0,
            old(self).value_spec() != 0 && old(self).semaphore_spec() ==> (r matches Ok(b) && b@
                == spec_u64_to_le_bytes(1)) && final(self).value_spec() == old(self).value_spec()
                - 1,
            old(self).value_spec() != 0 && !old(self).semaphore_spec() ==> (r matches Ok(b) && b@
                == spec_u64_to_le_bytes(old(self).value_spec())) && final(self).value_spec() == 0,
            r matches Ok(b) ==> b@.len() == 8,
    {
        proof {
            vstd::bytes::lemma_auto_spec_u64_to_from_le_bytes();
        }
        match self.read_value() {
            Ok(v) => Ok(u64_to_le_bytes(v)),
            Err(e) => Err(e),
        }
    }
}

/// Writing a word and reading it back through the little-endian counter
/// encoding is the identity: what a write call consumes, a read call of
/// the same counter value reproduces.
pub proof fn lemma_counter_word_round_trip(v: u64)
    ensures
        spec_u64_from_le_bytes(spec_u64_to_le_bytes(v)) == v,
        spec_u64_to_le_bytes(v).len() == 8,
{
    vstd::bytes::lemma_auto_spec_u64_to_from_le_bytes();
}

} // verus!
