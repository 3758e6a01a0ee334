//! Geometry of a coroutine's backing stack.
//!
//! The caller hands the coroutine a plain byte buffer. Before the trampoline
//! can run on it, two decisions are taken here: the buffer must be at least
//! [`crate::STACK_MINIMUM`] bytes long, and the high end of the buffer is
//! trimmed down to a multiple of [`crate::STACK_ALIGNMENT`], since that is
//! what the target ABIs demand of a stack pointer on function entry.

use vstd::arithmetic::div_mod::lemma_fundamental_div_mod;
use vstd::arithmetic::div_mod::lemma_mod_multiples_basic;
use vstd::prelude::*;

use crate::STACK_ALIGNMENT;
use crate::STACK_MINIMUM;

verus! {

/// The aligned stack top: the high address of the buffer, rounded down to a
/// multiple of the stack alignment.
pub open spec fn spec_aligned_top(base: int, len: int) -> int {
    (base + len) - (base + len) % (STACK_ALIGNMENT as int)
}

/// Whether a buffer of `len` bytes is large enough to back a coroutine.
pub fn stack_is_sufficient(len: usize) -> (ok: bool)
    ensures
        ok == (len >= STACK_MINIMUM),
{
    len >= STACK_MINIMUM
}

/// Computes the initial stack pointer for a fresh coroutine stack: the high
/// address of the buffer at `base` of `len` bytes, trimmed down to the
/// nearest 16-byte boundary. This is the address the trampoline receives.
pub fn aligned_top(base: usize, len: usize) -> (top: usize)
    requires
        base + len <= usize::MAX,
    ensures
        top == spec_aligned_top(base as int, len as int),
        top % STACK_ALIGNMENT == 0,
        top <= base + len,
        base + len - top < STACK_ALIGNMENT,
        len >= STACK_ALIGNMENT ==> top >= base,
{
    let high: usize = base + len;
    let top: usize = high - high % STACK_ALIGNMENT;
    proof {
        lemma_fundamental_div_mod(high as int, STACK_ALIGNMENT as int);
        lemma_mod_multiples_basic(high as int / (STACK_ALIGNMENT as int), STACK_ALIGNMENT as int);
    }
    top
}

} // verus!
