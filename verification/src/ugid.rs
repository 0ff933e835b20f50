//! User and group ID value types.

use vstd::prelude::*;

verus! {

/// A group identifier as a raw integer.
pub type RawGid = u32;
/// A user identifier as a raw integer.
pub type RawUid = u32;

/// `uid_t`—A Unix user ID.
#[derive(Copy, Clone, Eq, PartialEq, Structural, Debug, Hash)]
pub struct Uid(u32);

/// `gid_t`—A Unix group ID.
#[derive(Copy, Clone, Eq, PartialEq, Structural, Debug, Hash)]
pub struct Gid(u32);

impl Uid {
    /// The raw integer this ID wraps.
    pub closed spec fn raw(self) -> u32 {
        self.0
    }

    /// Converts a `RawUid` into a `Uid`.
    ///
    /// The caller is responsible for `raw` being the value of a real
    /// Unix user ID.
    #[inline]
    pub fn from_raw(raw: RawUid) -> (r: Self)
        ensures
            r.raw() == raw,
    {
        Uid(raw)
    }

    /// Converts a `Uid` into a `RawUid`.
    #[inline]
    pub fn as_raw(self) -> (r: RawUid)
        ensures
            r == self.raw(),
    {
        self.0
    }

    /// Test whether this uid represents the root user (uid 0).
    #[inline]
    pub fn is_root(self) -> (r: bool)
        ensures
            r == (self.raw() == 0),
    {
        self.0 == 0
    }
}

impl Gid {
    /// The raw integer this ID wraps.
    pub closed spec fn raw(self) -> u32 {
        self.0
    }

    /// Converts a `RawGid` into a `Gid`.
    ///
    /// The caller is responsible for `raw` being the value of a real
    /// Unix group ID.
    #[inline]
    pub fn from_raw(raw: RawGid) -> (r: Self)
        ensures
            r.raw() == raw,
    {
        Gid(raw)
    }

    /// Converts a `Gid` into a `RawGid`.
    #[inline]
    pub fn as_raw(self) -> (r: RawGid)
        ensures
            r == self.raw(),
    {
        self.0
    }

    /// Test whether this gid represents the root group (gid 0).
    #[inline]
    pub fn is_root(self) -> (r: bool)
        ensures
            r == (self.raw() == 0),
    {
        self.0 == 0
    }
}

/// Encodes optional ownership arguments for an ownership-change call.
///
/// `None` maps to `u32::MAX`, which has the same bit pattern as the
/// `-1` the OS takes to mean "leave this ID unchanged".
pub fn translate_fchown_args(owner: Option<Uid>, group: Option<Gid>) -> (r: (u32, u32))
    ensures
        r.0 == (match owner {
            Some(o) => o.raw(),
            None => u32::MAX,
        }),
        r.1 == (match group {
            Some(g) => g.raw(),
            None => u32::MAX,
        }),
{
    let ow: u32 = match owner {
        Some(o) => o.as_raw(),
        None => u32::MAX,
    };

    let gr: u32 = match group {
        Some(g) => g.as_raw(),
        None => u32::MAX,
    };

    (ow, gr)
}

} // verus!
