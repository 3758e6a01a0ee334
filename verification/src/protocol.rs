//! The transfer-slot protocol between a parent and its coroutine.
//!
//! Parent and child share one per-coroutine record, the [`Context`]. Besides
//! the two register save areas (which only the switch primitive touches, and
//! which carry no value the logic reads), it holds a single transfer pointer,
//! `arg`. All values and all signals between the two sides travel through it:
//!
//! * the parent points it at a fresh slot on its own stack just before every
//!   resume, and clears it to null right after;
//! * the child writes a yielded value or the final return value through it
//!   just before switching back;
//! * a null pointer seen by the child means the parent has dropped the
//!   coroutine: cancellation.
//!
//! [`ArgSlot`] models the pointer together with the slot it addresses, and
//! the methods of [`Context`] are the decisions each side takes around a
//! switch. The switch itself moves no data, so every observable exchange of
//! the protocol is captured — and verified — here.

use vstd::prelude::*;

use crate::generator::GeneratorState;

verus! {

/// Witness that the closure ran to normal completion, carrying its return
/// value. Produced by [`done`], consumed by the trampoline.
pub struct Finished<R>(pub R);

/// Witness that the parent has dropped the coroutine while the child was
/// still running: the child must wind down and propagate this value.
#[derive(Clone, Copy, Debug, PartialEq, Eq, Structural)]
pub struct Canceled;

/// The transfer pointer `Context.arg` together with the slot it addresses.
pub enum ArgSlot<Y, R> {
    /// The pointer is null: no resume is in flight. This is what the child
    /// observes when the parent has dropped the coroutine.
    Null,
    /// The parent published a slot for the resume in flight; the child has
    /// not written through it yet.
    Pending,
    /// The child wrote a yielded value through the pointer.
    Yielded(Y),
    /// The child wrote the closure's return value through the pointer.
    Complete(R),
}

/// The per-coroutine record shared by parent and child, reduced to the one
/// field whose value the protocol logic reads and writes.
pub struct Context<Y, R> {
    /// The transfer slot; see [`ArgSlot`].
    pub arg: ArgSlot<Y, R>,
}

/// The parent publishes a slot: what `arg` becomes at the start of a resume.
pub open spec fn resume_prepare_spec<Y, R>(c: Context<Y, R>) -> Context<Y, R> {
    Context { arg: ArgSlot::Pending }
}

/// The context and the child's view of a yield taken with `arg` as in `c`:
/// a null pointer turns the yield into `Err(Canceled)` and writes nothing;
/// otherwise the value goes out through the slot.
pub open spec fn yield_enter_spec<Y, R>(c: Context<Y, R>, y: Y) -> (Context<Y, R>, Result<
    (),
    Canceled,
>) {
    if c.arg is Null {
        (c, Err(Canceled))
    } else {
        (Context { arg: ArgSlot::Yielded(y) }, Ok(()))
    }
}

/// What the child observes when it wakes inside a yield: a null pointer
/// means the parent dropped the coroutine during the suspension.
pub open spec fn yield_reentry_spec<Y, R>(c: Context<Y, R>) -> Result<(), Canceled> {
    if c.arg is Null {
        Err(Canceled)
    } else {
        Ok(())
    }
}

/// The trampoline's last decision, after the closure returned `outcome`: a
/// completion is written through the slot only if the closure succeeded and
/// a parent slot is published; in every other case the context is untouched.
pub open spec fn finish_spec<Y, R>(
    c: Context<Y, R>,
    outcome: Result<Finished<R>, Canceled>,
) -> Context<Y, R> {
    match outcome {
        Ok(f) => {
            if c.arg is Null {
                c
            } else {
                Context { arg: ArgSlot::Complete(f.0) }
            }
        },
        Err(_) => c,
    }
}

/// The end of a resume: the pointer is cleared back to null, and the value
/// the child wrote in the slot is what the resume returns.
pub open spec fn resume_collect_spec<Y, R>(c: Context<Y, R>) -> (Context<Y, R>, GeneratorState<
    Y,
    R,
>) {
    (
        Context { arg: ArgSlot::Null },
        match c.arg {
            ArgSlot::Yielded(y) => GeneratorState::Yielded(y),
            ArgSlot::Complete(r) => GeneratorState::Complete(r),
            _ => arbitrary(),
        },
    )
}

impl<Y, R> Context<Y, R> {
    /// A fresh context. The trampoline zeroes the record it carves out on the
    /// new stack, so the transfer pointer starts null.
    pub fn new() -> (c: Self)
        ensures
            c.arg is Null,
    {
        Context { arg: ArgSlot::Null }
    }

    /// Whether the transfer pointer is null.
    pub fn arg_is_null(&self) -> (b: bool)
        ensures
            b == (self.arg is Null),
    {
        match self.arg {
            ArgSlot::Null => true,
            _ => false,
        }
    }

    /// Whether a slot is published with nothing written through it yet.
    pub fn arg_is_pending(&self) -> (b: bool)
        ensures
            b == (self.arg is Pending),
    {
        match self.arg {
            ArgSlot::Pending => true,
            _ => false,
        }
    }

    /// Resume, first half (parent side): point `arg` at a fresh slot on the
    /// parent's stack, so the child can move a value out through it.
    pub fn resume_prepare(&mut self)
        requires
            old(self).arg is Null,
        ensures
            *final(self) == resume_prepare_spec(*old(self)),
    {
        self.arg = ArgSlot::Pending;
    }

    /// Resume, second half (parent side): the child handed control back.
    /// Clear the pointer — the slot on the parent's stack is about to go out
    /// of scope — and return what the child wrote.
    pub fn resume_collect(&mut self) -> (r: GeneratorState<Y, R>)
        requires
            old(self).arg is Yielded || old(self).arg is Complete,
        ensures
            *final(self) == resume_collect_spec(*old(self)).0,
            r == resume_collect_spec(*old(self)).1,
    {
        let mut slot = ArgSlot::Null;
        core::mem::swap(&mut slot, &mut self.arg);
        match slot {
            ArgSlot::Yielded(y) => GeneratorState::Yielded(y),
            ArgSlot::Complete(v) => GeneratorState::Complete(v),
            _ => unreached(),
        }
    }

    /// Yield, first half (child side): if the parent is already gone the
    /// yield fails with `Canceled` at once and `value` is dropped; otherwise
    /// the value goes out through the published slot and the child may
    /// switch back to the parent.
    pub fn yield_enter(&mut self, value: Y) -> (r: Result<(), Canceled>)
        ensures
            (*final(self), r) == yield_enter_spec(*old(self), value),
    {
        match self.arg {
            ArgSlot::Null => Err(Canceled),
            _ => {
                self.arg = ArgSlot::Yielded(value);
                Ok(())
            },
        }
    }

    /// Yield, second half (child side): the child woke up inside the yield.
    /// A null pointer means the parent dropped the coroutine during the
    /// suspension; the yield then reports `Canceled`, and the closure is
    /// expected to propagate it.
    pub fn yield_reentry(&self) -> (r: Result<(), Canceled>)
        ensures
            r == yield_reentry_spec(*self),
    {
        match self.arg {
            ArgSlot::Null => Err(Canceled),
            _ => Ok(()),
        }
    }

    /// The trampoline's last decision before it abandons the child stack:
    /// write the completion through the slot — but only if the closure
    /// succeeded and a parent is waiting. A failed closure writes nothing,
    /// and a completion without a waiting parent is discarded.
    pub fn finish(&mut self, outcome: Result<Finished<R>, Canceled>)
        ensures
            *final(self) == finish_spec(*old(self), outcome),
    {
        match outcome {
            Ok(f) => {
                if !self.arg_is_null() {
                    self.arg = ArgSlot::Complete(f.0);
                }
            },
            Err(_) => {},
        }
    }
}

/// `Control::done`: wrap the closure's return value as a normal completion.
/// It never fails and performs no switch; the trampoline delivers the value
/// after the closure returns.
pub fn done<R, E>(value: R) -> (r: Result<Finished<R>, E>)
    ensures
        r == Ok::<Finished<R>, E>(Finished(value)),
{
    Ok(Finished(value))
}

/// Resume/yield round trip: when the parent publishes a slot and the child
/// yields `y` into it, the yield succeeds and the parent's resume returns
/// exactly `Yielded(y)`.
pub proof fn lemma_resume_yield_round_trip<Y, R>(c: Context<Y, R>, y: Y)
    requires
        c.arg is Null,
    ensures
        ({
            let published = resume_prepare_spec(c);
            let stepped = yield_enter_spec(published, y);
            &&& stepped.1 == Ok::<(), Canceled>(())
            &&& resume_collect_spec(stepped.0).1 == GeneratorState::<Y, R>::Yielded(y)
            &&& resume_collect_spec(stepped.0).0.arg is Null
        }),
{
}

/// Completion delivery: when the parent publishes a slot and the closure
/// returns `done(value)`, the trampoline writes the completion and the
/// parent's resume returns exactly `Complete(value)`.
pub proof fn lemma_completion_delivery<Y, R>(c: Context<Y, R>, value: R)
    requires
        c.arg is Null,
    ensures
        ({
            let published = resume_prepare_spec(c);
            let finished = finish_spec(published, Ok(Finished(value)));
            &&& resume_collect_spec(finished).1 == GeneratorState::<Y, R>::Complete(value)
            &&& resume_collect_spec(finished).0.arg is Null
        }),
{
}

/// Cancellation reachability: with the transfer pointer null — the parent
/// has dropped the coroutine — the child's next observation inside a yield
/// is `Err(Canceled)`, whether it was about to enter the yield or wakes
/// inside one; and the yield writes nothing.
pub proof fn lemma_cancellation_observed<Y, R>(c: Context<Y, R>, y: Y)
    requires
        c.arg is Null,
    ensures
        yield_reentry_spec(c) == Err::<(), Canceled>(Canceled),
        yield_enter_spec(c, y).1 == Err::<(), Canceled>(Canceled),
        yield_enter_spec(c, y).0 == c,
{
}

/// A closure that ends in `Err(Canceled)` of its own accord never writes a
/// completion: the parent's slot is left exactly as it was — in particular,
/// a published but still-unwritten slot stays unwritten.
pub proof fn lemma_failed_closure_leaves_slot<Y, R>(c: Context<Y, R>)
    ensures
        finish_spec(c, Err::<Finished<R>, Canceled>(Canceled)) == c,
{
}

/// Without a published slot, a completed closure's return value is
/// discarded: the context is untouched and nothing is ever delivered.
pub proof fn lemma_completion_discarded_without_parent<Y, R>(c: Context<Y, R>, value: R)
    requires
        c.arg is Null,
    ensures
        finish_spec(c, Ok::<Finished<R>, Canceled>(Finished(value))) == c,
{
}

} // verus!
