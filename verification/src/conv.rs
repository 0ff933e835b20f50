//! Translation of raw OS return words into typed outcomes.
//!
//! Every raw OS call returns one machine word: a non-negative success
//! encoding, or a negative word whose magnitude is the failure code.
//! Each caller of a raw call routes the word through exactly one
//! function here before any further logic inspects it; raw encodings
//! never propagate untranslated. The `syscall_ret_*` functions handle
//! the one low-level call path whose error codes occupy a distinguished
//! small negative range within the return word, every other negative
//! word being a success encoding reinterpreted at the target width.

use vstd::prelude::*;
use crate::fd::OwnedFd;
use crate::io::Errno;

verus! {

/// The magnitude of a negative return word must fit the error-code
/// width, which rules out exactly the smallest representable word.
pub open spec fn magnitude_fits(raw: int) -> bool {
    -0x7fff_ffff <= raw
}

/// Errors of the low-level call path occupy this distinguished range of
/// the return word.
pub open spec fn in_error_range(raw: int) -> bool {
    -4095 <= raw < 0
}

/// Translates a return word whose success value carries no information.
pub fn ret(raw: i32) -> (r: Result<(), Errno>)
    requires
        magnitude_fits(raw as int),
    ensures
        r is Ok <==> 0 <= raw,
        r matches Err(e) ==> e.code() == -raw,
{
    if raw < 0 {
        Err(Errno::from_raw_os_error(-raw))
    } else {
        Ok(())
    }
}

/// Translates a return word carrying a signed count.
pub fn ret_c_int(raw: i32) -> (r: Result<i32, Errno>)
    requires
        magnitude_fits(raw as int),
    ensures
        r is Ok <==> 0 <= raw,
        r matches Ok(v) ==> v == raw,
        r matches Err(e) ==> e.code() == -raw,
{
    if raw < 0 {
        Err(Errno::from_raw_os_error(-raw))
    } else {
        Ok(raw)
    }
}

/// Translates a return word carrying an unsigned count.
pub fn ret_usize(raw: isize) -> (r: Result<usize, Errno>)
    requires
        magnitude_fits(raw as int),
    ensures
        r is Ok <==> 0 <= raw,
        r matches Ok(v) ==> v == raw,
        r matches Err(e) ==> e.code() == -raw,
{
    if raw < 0 {
        Err(Errno::from_raw_os_error((-raw) as i32))
    } else {
        Ok(raw as usize)
    }
}

/// Translates a return word carrying a newly created resource
/// identifier, wrapping it in an owned handle. This is the sole
/// sanctioned construction path for handles returned by creation calls.
pub fn ret_owned_fd(raw: i32) -> (r: Result<OwnedFd, Errno>)
    requires
        magnitude_fits(raw as int),
    ensures
        r is Ok <==> 0 <= raw,
        r matches Ok(fd) ==> fd.raw_fd() == raw,
        r matches Err(e) ==> e.code() == -raw,
{
    if raw < 0 {
        Err(Errno::from_raw_os_error(-raw))
    } else {
        Ok(OwnedFd::adopt(raw))
    }
}

/// Translates a return word from a call whose only observable failure
/// path matters; the success value is discarded.
pub fn ret_discarded_fd(raw: i32) -> (r: Result<(), Errno>)
    requires
        magnitude_fits(raw as int),
    ensures
        r is Ok <==> 0 <= raw,
        r matches Err(e) ==> e.code() == -raw,
{
    if raw < 0 {
        Err(Errno::from_raw_os_error(-raw))
    } else {
        Ok(())
    }
}

/// Translates a low-level return word carrying an unsigned count.
///
/// Only words in the distinguished error range denote failure; any
/// other word is a success encoding reinterpreted at the target width.
pub fn syscall_ret_usize(raw: isize) -> (r: Result<usize, Errno>)
    ensures
        r is Err <==> in_error_range(raw as int),
        r matches Err(e) ==> e.code() == -raw,
        r matches Ok(v) ==> v == raw as usize,
        0 <= raw ==> (r matches Ok(v) && v == raw),
{
    if -4095 <= raw && raw < 0 {
        Err(Errno::from_raw_os_error((-raw) as i32))
    } else {
        #[verifier::truncate]
        let v: usize = raw as usize;
        Ok(v)
    }
}

/// Translates a low-level return word carrying a newly created resource
/// identifier, wrapping it in an owned handle.
pub fn syscall_ret_owned_fd(raw: isize) -> (r: Result<OwnedFd, Errno>)
    requires
        in_error_range(raw as int) || (0 <= raw <= i32::MAX),
    ensures
        r is Err <==> in_error_range(raw as int),
        r matches Err(e) ==> e.code() == -raw,
        r matches Ok(fd) ==> fd.raw_fd() == raw,
{
    if -4095 <= raw && raw < 0 {
        Err(Errno::from_raw_os_error((-raw) as i32))
    } else {
        Ok(OwnedFd::adopt(raw as i32))
    }
}

} // verus!
