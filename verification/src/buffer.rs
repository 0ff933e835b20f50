//! The growable-buffer retry protocol.
//!
//! Some OS calls report "did not fit" only after writing into a fixed
//! buffer: symlink-target and pty-name resolution. The protocol starts
//! from a small capacity and retries with exponentially grown capacity
//! until the data fits: a reported length strictly less than the
//! capacity means the data fit and is truncated to that length; the
//! distinguished range-error code, or a buffer filled to capacity
//! without room to spare, means "too small, grow and retry"; any other
//! error ends the loop at once and is surfaced unchanged. The OS call
//! of each round is issued by the unverified shell, which routes each
//! round's outcome through [`resolve_step`] and grows the capacity with
//! [`next_capacity`].

use vstd::prelude::*;
use vstd::arithmetic::power2::{pow2, lemma_pow2_unfold, lemma_pow2_strictly_increases, lemma2_to64};
use crate::io::{Errno, ERANGE};

verus! {

/// The small capacity a resolution starts from.
pub const SMALL_BUFFER_SIZE: usize = 256;

/// What one round of the protocol decides.
#[derive(Copy, Clone, Eq, PartialEq, Structural, Debug)]
pub enum ResolveStep {
    /// The data fit: truncate the buffer to this length and return it.
    Done(usize),
    /// The buffer was too small: grow the capacity and retry.
    Grow,
    /// A terminal failure: surface it to the caller at once.
    Fail(Errno),
}

/// The decision the protocol owes for one round's outcome at a given
/// capacity.
pub open spec fn resolve_step_spec(outcome: Result<usize, Errno>, capacity: usize) -> ResolveStep {
    match outcome {
        Ok(n) => if n < capacity {
            ResolveStep::Done(n)
        } else {
            ResolveStep::Grow
        },
        Err(e) => if e.code() == ERANGE {
            ResolveStep::Grow
        } else {
            ResolveStep::Fail(e)
        },
    }
}

/// Decides one round of the protocol from the OS call's translated
/// outcome and the capacity it was given.
pub fn resolve_step(outcome: Result<usize, Errno>, capacity: usize) -> (r: ResolveStep)
    ensures
        r == resolve_step_spec(outcome, capacity),
{
    match outcome {
        Ok(n) => {
            if n < capacity {
                ResolveStep::Done(n)
            } else {
                ResolveStep::Grow
            }
        },
        Err(e) => {
            if e.raw_os_error() == ERANGE {
                ResolveStep::Grow
            } else {
                ResolveStep::Fail(e)
            }
        },
    }
}

/// Grows a capacity exponentially, never linearly.
#[inline]
pub fn next_capacity(capacity: usize) -> (r: usize)
    requires
        1 <= capacity <= usize::MAX / 2,
    ensures
        r == 2 * capacity,
{
    capacity * 2
}

/// How many doublings a capacity of `cap` needs before it reaches
/// `need`: the least `k` with `cap * 2^k >= need`, which is the
/// ceiling of the base-two logarithm of `need / cap`.
pub open spec fn growth_retries(cap: nat, need: nat) -> nat
    decreases (if cap < need { need - cap } else { 0int }) when 1 <= cap
{
    if need <= cap {
        0
    } else {
        1 + growth_retries(2 * cap, need)
    }
}

/// `growth_retries(cap, need)` is the least exponent that makes the
/// grown capacity reach `need`: the grown capacity reaches it, and one
/// doubling fewer falls short.
pub proof fn lemma_growth_retries_least(cap: nat, need: nat)
    requires
        1 <= cap,
    ensures
        need <= cap * pow2(growth_retries(cap, need)),
        growth_retries(cap, need) >= 1 ==> cap * pow2((growth_retries(cap, need) - 1) as nat)
            < need,
    decreases (if cap < need { need - cap } else { 0int }),
{
    lemma2_to64();
    if need <= cap {
        assert(cap * pow2(0) == cap);
    } else {
        lemma_growth_retries_least(2 * cap, need);
        let k_rest = growth_retries(2 * cap, need);
        lemma_pow2_unfold(k_rest + 1);
        assert(cap * pow2(k_rest + 1) == (2 * cap) * pow2(k_rest)) by (nonlinear_arith)
            requires
                pow2(k_rest + 1) == 2 * pow2(k_rest),
        ;
        if k_rest >= 1 {
            lemma_pow2_unfold(k_rest);
            assert(cap * pow2(k_rest) == (2 * cap) * pow2((k_rest - 1) as nat))
                by (nonlinear_arith)
                requires
                    pow2(k_rest) == 2 * pow2((k_rest - 1) as nat),
            ;
        } else {
            assert(cap * pow2(0) == cap);
        }
    }
}

/// For a target of length `len` the protocol must reach a capacity
/// strictly past `len` (a fit leaves room to spare), so it performs
/// `growth_retries(cap, len + 1)` doublings. That count equals the
/// plain ceiling of the base-two logarithm of `len / cap`, which is
/// `growth_retries(cap, len)`, on every length that is not itself
/// `cap` times a power of two; on those lengths one further doubling
/// is needed to make the strict room.
pub proof fn lemma_retry_count_is_ceil_log2(cap: nat, len: nat)
    requires
        1 <= cap < len,
        forall|j: nat| #![trigger pow2(j)] pow2(j) * cap != len,
    ensures
        growth_retries(cap, len + 1) == growth_retries(cap, len),
    decreases len - cap,
{
    lemma2_to64();
    assert(pow2(1) * cap == 2 * cap);
    if 2 * cap > len {
        assert(growth_retries(2 * cap, len) == 0);
        assert(growth_retries(2 * cap, len + 1) == 0);
    } else if 2 * cap == len {
        assert(false);
    } else {
        assert forall|j: nat| #![trigger pow2(j)] pow2(j) * (2 * cap) != len by {
            lemma_pow2_unfold(j + 1);
            assert(pow2(j) * (2 * cap) == pow2(j + 1) * cap) by (nonlinear_arith)
                requires
                    pow2(j + 1) == 2 * pow2(j),
            ;
            assert(pow2(j + 1) * cap != len);
        }
        lemma_retry_count_is_ceil_log2(2 * cap, len);
    }
}

/// Runs the protocol's capacity schedule against a target of length
/// `len`, modeling an OS call that reports how much of the target fit:
/// at capacity `c` the call reports the length `min(len, c)`, so the
/// round is done exactly when the whole target fit with room to spare.
/// Returns the number of capacity-growth retries performed and the
/// resolved length, which is exactly `len`: no truncation and no extra
/// terminator byte.
pub fn count_resolution_retries(len: usize, initial_capacity: usize) -> (r: (usize, usize))
    requires
        1 <= initial_capacity,
        len <= usize::MAX / 4,
    ensures
        r.0 == growth_retries(initial_capacity as nat, (len + 1) as nat),
        r.1 == len,
{
    let ghost need: nat = (len + 1) as nat;
    let mut cap: usize = initial_capacity;
    let mut retries: usize = 0;
    proof {
        lemma2_to64();
        assert(initial_capacity as nat * pow2(0) == initial_capacity as nat);
    }
    loop
        invariant
            1 <= cap,
            len <= usize::MAX / 4,
            cap as nat == initial_capacity as nat * pow2(retries as nat),
            retries + growth_retries(cap as nat, need) == growth_retries(
                initial_capacity as nat,
                need,
            ),
            need == len + 1,
        decreases (if cap < need { need - cap as nat } else { 0int }),
    {
        let reported: usize = if len < cap {
            len
        } else {
            cap
        };
        match resolve_step(Ok(reported), cap) {
            ResolveStep::Done(n) => {
                return (retries, n);
            },
            _ => {},
        }
        proof {
            // The round reported a full buffer, so the target did not
            // fit with room to spare and the schedule doubles.
            assert(cap <= len);
            assert(growth_retries(cap as nat, need) == 1 + growth_retries(2 * cap as nat, need));
            lemma2_to64();
            assert(pow2(retries as nat) <= cap as nat) by (nonlinear_arith)
                requires
                    1 <= initial_capacity as nat,
                    cap as nat == initial_capacity as nat * pow2(retries as nat),
            ;
            if retries as nat >= 64 {
                lemma_pow2_strictly_increases(64, retries as nat + 1);
                lemma_pow2_unfold(retries as nat + 1);
                assert(false);
            }
            lemma_pow2_unfold(retries as nat + 1);
            assert(initial_capacity as nat * pow2(retries as nat + 1) == 2 * (initial_capacity
                as nat * pow2(retries as nat))) by (nonlinear_arith)
                requires
                    pow2(retries as nat + 1) == 2 * pow2(retries as nat),
            ;
        }
        cap = next_capacity(cap);
        retries = retries + 1;
    }
}

/// The index of the first terminator byte in `buf`, if any: the length
/// of the resolved data a terminator-delimited OS call placed there.
pub fn nul_index(buf: &Vec<u8>) -> (r: Option<usize>)
    ensures
        r matches Some(i) ==> i < buf@.len() && buf@[i as int] == 0 && (forall|j: int|
            0 <= j < i ==> buf@[j] != 0),
        r is None ==> forall|j: int| 0 <= j < buf@.len() ==> buf@[j] != 0,
{
    let mut i: usize = 0;
    while i < buf.len()
        invariant
            i <= buf@.len(),
            forall|j: int| 0 <= j < i ==> buf@[j] != 0,
        decreases buf@.len() - i,
    {
        if buf[i] == 0 {
            return Some(i);
        }
        i = i + 1;
    }
    None
}

} // verus!
