//! The parent-visible coroutine session, driven as a verified state machine.
//!
//! A real child runs a closure on its own stack and can suspend anywhere;
//! the switch that carries it there cannot be expressed in verifiable code.
//! What the parent can observe of the child, however, is exactly a script:
//! the values it yields, in order, and how its closure ends. [`Coroutine`]
//! here owns the shared [`Context`] and drives whole sessions over such a
//! script, taking on the parent side precisely the decisions the real resume
//! and drop paths take around each switch, and on the child side the ones
//! the real yield, `done` and trampoline take. Every transition and every
//! delivered value is verified against the protocol contracts.

use vstd::prelude::*;

use crate::generator::Generator;
use crate::generator::GeneratorState;
use crate::protocol::done;
use crate::protocol::Canceled;
use crate::protocol::Context;
use crate::stack::aligned_top;
use crate::stack::spec_aligned_top;
use crate::STACK_ALIGNMENT;
use crate::STACK_MINIMUM;

verus! {

/// How the scripted closure ends once its yields are exhausted.
pub enum ChildEnd<R> {
    /// The closure calls `done(value)` and completes normally.
    Done(R),
    /// The closure returns `Err(Canceled)` of its own accord, without having
    /// observed cancellation. The trampoline then delivers nothing, and the
    /// parent's slot is left unwritten; driving a resume into this end is a
    /// programmer error.
    Fail,
}

/// The logical state of a coroutine, as the parent sees it.
#[derive(Clone, Copy, Debug, PartialEq, Eq, Structural)]
pub enum Phase {
    /// Created, never resumed; the closure has not started.
    Fresh,
    /// The child sits suspended inside a yield.
    Suspended,
    /// The closure completed, was cancelled, or the coroutine was dropped.
    /// Nothing may be done with the coroutine any more.
    Terminated,
}

/// What a resume returns, as a function of the session state alone: the
/// next scripted yield if one remains, else the completion value. (A resume
/// into a failing or exhausted child has no defined outcome; resumes are
/// only allowed where `can_resume` holds.)
pub open spec fn resume_outcome<Y, R>(
    pending: Seq<Y>,
    end: Option<ChildEnd<R>>,
) -> GeneratorState<Y, R> {
    if pending.len() > 0 {
        GeneratorState::Yielded(pending[0])
    } else {
        match end {
            Some(ChildEnd::Done(v)) => GeneratorState::Complete(v),
            _ => arbitrary(),
        }
    }
}

/// What the child observes when the parent drops the coroutine: `Canceled`,
/// from inside a yield, whenever a yield was pending — the one it was
/// suspended in, or the first one of a closure that never ran. A child with
/// no yield left never observes the drop.
pub open spec fn cancel_observation<Y>(phase: Phase, pending: Seq<Y>) -> Option<Canceled> {
    if phase is Suspended || (phase is Fresh && pending.len() > 0) {
        Some(Canceled)
    } else {
        None
    }
}

/// A one-shot coroutine over a scripted child.
pub struct Coroutine<Y, R> {
    /// The shared per-coroutine record; see [`Context`].
    ctx: Context<Y, R>,
    /// The values the child has yet to yield, in order.
    yields: Vec<Y>,
    /// How the closure ends after its last yield; consumed on termination.
    end: Option<ChildEnd<R>>,
    /// Where in its life the session stands.
    phase: Phase,
    /// The aligned top of the backing stack, pinned at construction.
    top: usize,
}

impl<Y, R> Coroutine<Y, R> {
    /// The session invariant: as long as the coroutine is live, no resume is
    /// in flight (the transfer pointer is null between resumes) and the
    /// child still holds its ending.
    pub closed spec fn wf(&self) -> bool {
        self.live() ==> (self.ctx.arg is Null && self.end is Some)
    }

    /// The logical state of the session.
    pub closed spec fn phase(&self) -> Phase {
        self.phase
    }

    /// The values the child has yet to yield.
    pub closed spec fn pending_yields(&self) -> Seq<Y> {
        self.yields@
    }

    /// How the closure will end, while the child still holds it.
    pub closed spec fn child_end(&self) -> Option<ChildEnd<R>> {
        self.end
    }

    /// The aligned top of the backing stack.
    pub closed spec fn top(&self) -> usize {
        self.top
    }

    /// A live coroutine may still be resumed or cancelled.
    pub open spec fn live(&self) -> bool {
        !(self.phase() is Terminated)
    }

    /// Whether the script defines the next resume: a yield remains, or the
    /// closure completes normally.
    pub open spec fn has_next(&self) -> bool {
        self.pending_yields().len() > 0 || self.child_end() matches Some(ChildEnd::Done(_))
    }

    /// Builds a coroutine over the buffer at `stack_base` of `stack_len`
    /// bytes and the given child script.
    ///
    /// The buffer must reach the minimum stack size; handing in a smaller
    /// one is the programmer error that aborts the process, so it is
    /// excluded here. Construction plays
    /// the init handshake: the top of the stack is trimmed to the alignment
    /// the ABI demands, and the trampoline publishes a context whose
    /// transfer pointer starts null.
    pub fn new(stack_base: usize, stack_len: usize, yields: Vec<Y>, end: ChildEnd<R>) -> (c: Self)
        requires
            stack_len >= STACK_MINIMUM,
            stack_base + stack_len <= usize::MAX,
        ensures
            c.wf(),
            c.phase() is Fresh,
            c.pending_yields() == yields@,
            c.child_end() == Some(end),
            c.top() == spec_aligned_top(stack_base as int, stack_len as int),
            c.top() % STACK_ALIGNMENT == 0,
            stack_base <= c.top() <= stack_base + stack_len,
    {
        let top = aligned_top(stack_base, stack_len);
        Coroutine { ctx: Context::new(), yields, end: Some(end), phase: Phase::Fresh, top }
    }

    /// Models the parent dropping the coroutine, mid-session or not: the
    /// drop swaps into the child one last time *without* publishing a slot.
    /// The child wakes inside a yield (or first reaches one), observes the
    /// null pointer, and winds down by propagating `Canceled`; a child with
    /// no yield left completes on its own and its value is discarded. Either
    /// way the child never runs again and nothing is delivered.
    ///
    /// Returns what the child observed inside a yield, if anything.
    pub fn cancel(&mut self) -> (observed: Option<Canceled>)
        requires
            old(self).wf(),
        ensures
            final(self).wf(),
            final(self).phase() is Terminated,
            final(self).pending_yields().len() == 0,
            final(self).child_end() is None,
            final(self).top() == old(self).top(),
            observed == cancel_observation(old(self).phase(), old(self).pending_yields()),
    {
        let observed: Option<Canceled> = match self.phase {
            // Dropping a terminated coroutine performs no switch at all.
            Phase::Terminated => None,
            Phase::Suspended => {
                // The child wakes inside its yield and sees the null pointer.
                let seen = match self.ctx.yield_reentry() {
                    Err(c) => Some(c),
                    Ok(()) => unreached(),
                };
                // The closure propagates the error; the trampoline writes
                // nothing through the (null) pointer and jumps away.
                self.ctx.finish(Err(Canceled));
                seen
            },
            Phase::Fresh => {
                if self.yields.len() > 0 {
                    // The closure starts now, and its very first yield
                    // already finds the pointer null; the value is dropped.
                    let y = self.yields.remove(0);
                    match self.ctx.yield_enter(y) {
                        Err(c) => {
                            self.ctx.finish(Err(Canceled));
                            Some(c)
                        },
                        Ok(()) => unreached(),
                    }
                } else {
                    // The closure runs to its natural end with no parent
                    // waiting; a completion is discarded, a failure writes
                    // nothing either.
                    let e = self.end.take();
                    match e {
                        Some(ChildEnd::Done(v)) => self.ctx.finish(done(v)),
                        Some(ChildEnd::Fail) => self.ctx.finish(Err(Canceled)),
                        None => unreached(),
                    }
                    None
                }
            },
        };
        // The child is gone for good: tear down what is left of the script.
        self.yields = Vec::new();
        self.end = None;
        self.phase = Phase::Terminated;
        observed
    }

    /// Drives a completing session to its end and returns the whole
    /// transcript: the round-trip and delivery laws over a full session.
    /// Every value the child yields comes back, in order and bitwise equal,
    /// from the matching resume, and the last resume returns exactly the
    /// completion value; afterwards the coroutine is terminated for good.
    pub fn drive_to_completion(&mut self) -> (out: (Vec<Y>, R))
        requires
            old(self).wf(),
            old(self).live(),
            old(self).child_end() matches Some(ChildEnd::Done(_)),
        ensures
            final(self).wf(),
            !final(self).live(),
            out.0@ == old(self).pending_yields(),
            old(self).child_end() == Some(ChildEnd::Done(out.1)),
    {
        let ghost orig = *old(self);
        let mut collected: Vec<Y> = Vec::new();
        loop
            invariant
                self.wf(),
                self.live(),
                self.child_end() == orig.child_end(),
                orig.child_end() matches Some(ChildEnd::Done(_)),
                collected@ + self.pending_yields() == orig.pending_yields(),
                *old(self) == orig,
            decreases self.pending_yields().len(),
        {
            if self.remaining_yields() > 0 {
                match self.resume() {
                    GeneratorState::Yielded(y) => {
                        collected.push(y);
                        proof {
                            assert(collected@ + self.pending_yields() =~= orig.pending_yields());
                        }
                    },
                    GeneratorState::Complete(_) => unreached(),
                }
            } else {
                match self.resume() {
                    GeneratorState::Complete(r) => {
                        proof {
                            assert(collected@ =~= orig.pending_yields());
                        }
                        return (collected, r);
                    },
                    GeneratorState::Yielded(_) => unreached(),
                }
            }
        }
    }

    /// Whether the coroutine may still be resumed or cancelled.
    pub fn is_live(&self) -> (b: bool)
        ensures
            b == self.live(),
    {
        match self.phase {
            Phase::Terminated => false,
            _ => true,
        }
    }

    /// The logical state of the session.
    pub fn current_phase(&self) -> (p: Phase)
        ensures
            p == self.phase(),
    {
        self.phase
    }

    /// How many values the child has yet to yield.
    pub fn remaining_yields(&self) -> (n: usize)
        ensures
            n == self.pending_yields().len(),
    {
        self.yields.len()
    }
}

impl<Y, R> Generator for Coroutine<Y, R> {
    type Yield = Y;

    type Return = R;

    /// A coroutine may be resumed while it is live — resuming after a
    /// `Complete` is the programmer error that aborts the process — and
    /// while the script defines the resume's outcome (see
    /// [`ChildEnd::Fail`]).
    open spec fn can_resume(&self) -> bool {
        self.wf() && self.live() && self.has_next()
    }

    /// One full resume: publish a transfer slot, switch into the child —
    /// which yields its next value or completes — and read the slot back.
    fn resume(&mut self) -> (r: GeneratorState<Y, R>)
        ensures
            final(self).wf(),
            r == resume_outcome(old(self).pending_yields(), old(self).child_end()),
            final(self).top() == old(self).top(),
            (if old(self).pending_yields().len() > 0 {
                &&& final(self).phase() is Suspended
                &&& final(self).pending_yields() == old(self).pending_yields().drop_first()
                &&& final(self).child_end() == old(self).child_end()
            } else {
                &&& final(self).phase() is Terminated
                &&& final(self).pending_yields() == old(self).pending_yields()
                &&& final(self).child_end() is None
            }),
    {
        // Parent side: point the transfer pointer at a slot for this resume.
        self.ctx.resume_prepare();
        if self.yields.len() > 0 {
            // Child side: the closure runs up to its next yield, which moves
            // the value out through the slot and switches back.
            let y = self.yields.remove(0);
            match self.ctx.yield_enter(y) {
                Ok(()) => {},
                Err(_) => unreached(),
            }
            self.phase = Phase::Suspended;
        } else {
            // Child side: the closure returns `done(value)`; the trampoline
            // writes the completion through the slot and abandons the child
            // stack forever.
            let e = self.end.take();
            match e {
                Some(ChildEnd::Done(v)) => self.ctx.finish(done(v)),
                _ => unreached(),
            }
            self.phase = Phase::Terminated;
        }
        // Parent side again: clear the pointer and read what the child wrote.
        self.ctx.resume_collect()
    }
}

/// Independence of backing memory: what a session delivers is a function of
/// the script alone. Two coroutines with the same script — over a local
/// buffer, a heap buffer, or a buffer with odd leading misalignment — have
/// the same resume outcomes and the same cancellation observations.
pub proof fn lemma_outcome_independent_of_stack<Y, R>(a: Coroutine<Y, R>, b: Coroutine<Y, R>)
    requires
        a.pending_yields() == b.pending_yields(),
        a.child_end() == b.child_end(),
        a.phase() == b.phase(),
    ensures
        resume_outcome(a.pending_yields(), a.child_end()) == resume_outcome(
            b.pending_yields(),
            b.child_end(),
        ),
        cancel_observation(a.phase(), a.pending_yields()) == cancel_observation(
            b.phase(),
            b.pending_yields(),
        ),
{
}

} // verus!
