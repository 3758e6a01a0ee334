//! Stackful, one-shot, symmetric coroutines: the verified protocol core.
//!
//! A coroutine of this kind runs a closure on a private stack and exchanges
//! control with its parent through a symmetric context switch. The machine
//! half of that exchange (saving and restoring callee-saved registers, the
//! jump itself) is inherently unverifiable and lives outside this crate; what
//! is verified here is everything the switch code decides and computes:
//!
//! * the geometry of a fresh stack (minimum size, the 16-byte-aligned top
//!   handed to the trampoline) in [`stack`];
//! * the transfer-slot protocol between parent and child (publishing a slot
//!   before a resume, yielding a value into it, delivering a completion,
//!   signalling cancellation by a null slot) in [`protocol`];
//! * the whole parent-visible session, driven as a state machine over a
//!   scripted child, in [`coroutine`].

use vstd::prelude::*;

pub mod coroutine;
pub mod generator;
pub mod protocol;
pub mod stack;

pub use coroutine::ChildEnd;
pub use coroutine::Coroutine;
pub use coroutine::Phase;
pub use generator::Generator;
pub use generator::GeneratorState;
pub use protocol::done;
pub use protocol::ArgSlot;
pub use protocol::Canceled;
pub use protocol::Context;
pub use protocol::Finished;

verus! {

/// Smallest backing stack a coroutine accepts, in bytes.
pub const STACK_MINIMUM: usize = 4096;

/// Required alignment of the stack top handed to the trampoline, in bytes.
pub const STACK_ALIGNMENT: usize = 16;

} // verus!
