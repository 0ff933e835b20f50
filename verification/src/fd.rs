//! Ownership-tracked handles for kernel resource identifiers.
//!
//! An [`OwnedFd`] is the exclusive owner of one open descriptor: it is
//! never copied, only moved, so two owners can never alias one resource
//! through this crate's construction paths. A [`BorrowedFd`] is a
//! non-owning view whose lifetime is bounded by the handle it was
//! borrowed from, so it can never outlive the owner or release the
//! resource. The single release call that ends a handle's life is an OS
//! call, issued by the unverified shell exactly once when its guard
//! around the handle is dropped; the raw identifier leaves this crate
//! only through [`OwnedFd::into_raw_fd`], which hands the release
//! obligation to the caller.

use vstd::prelude::*;
use core::marker::PhantomData;

verus! {

/// A bare descriptor with no safety guarantee, used only when crossing
/// the OS boundary.
pub type RawFd = i32;

/// Exclusive owner of one kernel resource identifier.
#[derive(Debug)]
pub struct OwnedFd {
    raw: i32,
}

/// A non-owning view of a resource identifier, valid no longer than the
/// owner it was borrowed from.
#[derive(Copy, Clone, Debug)]
pub struct BorrowedFd<'a> {
    raw: i32,
    _owner: PhantomData<&'a OwnedFd>,
}

impl OwnedFd {
    /// Open descriptors are small non-negative integers.
    #[verifier::type_invariant]
    pub closed spec fn inv(self) -> bool {
        0 <= self.raw
    }

    /// The identifier this handle owns.
    pub closed spec fn raw_fd(self) -> i32 {
        self.raw
    }

    /// Adopts a raw identifier as an owned handle.
    ///
    /// The caller must guarantee that `raw` names a currently open
    /// resource that no other handle owns; only its shape is checked
    /// here.
    #[inline]
    pub fn adopt(raw: RawFd) -> (r: OwnedFd)
        requires
            0 <= raw,
        ensures
            r.raw_fd() == raw,
    {
        OwnedFd { raw }
    }

    /// Returns the raw identifier without transferring or ending
    /// ownership.
    #[inline]
    pub fn as_raw_fd(&self) -> (r: RawFd)
        ensures
            r == self.raw_fd(),
            0 <= r,
    {
        proof {
            use_type_invariant(self);
        }
        self.raw
    }

    /// Returns the raw identifier and cancels the release obligation:
    /// the caller becomes responsible for the one release call.
    #[inline]
    pub fn into_raw_fd(self) -> (r: RawFd)
        ensures
            r == self.raw_fd(),
            0 <= r,
    {
        proof {
            use_type_invariant(&self);
        }
        self.raw
    }

    /// Lends the identifier as a borrowed view bounded by `self`.
    #[inline]
    pub fn as_fd<'a>(&'a self) -> (r: BorrowedFd<'a>)
        ensures
            r.raw_fd() == self.raw_fd(),
    {
        proof {
            use_type_invariant(self);
        }
        BorrowedFd { raw: self.raw, _owner: PhantomData }
    }
}

impl<'a> BorrowedFd<'a> {
    /// Borrowed views also name small non-negative integers.
    #[verifier::type_invariant]
    pub closed spec fn inv(self) -> bool {
        0 <= self.raw
    }

    /// The identifier this view names.
    pub closed spec fn raw_fd(self) -> i32 {
        self.raw
    }

    /// Borrows a raw identifier directly.
    ///
    /// The caller must guarantee that `raw` stays open for the lifetime
    /// `'a`; only its shape is checked here.
    #[inline]
    pub fn borrow_raw(raw: RawFd) -> (r: BorrowedFd<'a>)
        requires
            0 <= raw,
        ensures
            r.raw_fd() == raw,
    {
        BorrowedFd { raw, _owner: PhantomData }
    }

    /// Returns the raw identifier named by this view.
    #[inline]
    pub fn as_raw_fd(&self) -> (r: RawFd)
        ensures
            r == self.raw_fd(),
            0 <= r,
    {
        proof {
            use_type_invariant(self);
        }
        self.raw
    }
}

} // verus!
