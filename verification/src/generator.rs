//! The parent-side view of one step of a coroutine: either the child
//! suspended with a yielded value, or it finished with a return value.

use vstd::prelude::*;

verus! {

/// What one `resume` of a generator reports back to the parent.
pub enum GeneratorState<Y, R> {
    /// The generator suspended inside a yield and handed out this value.
    /// It may be resumed again.
    Yielded(Y),
    /// The generator ran to completion with this return value. Resuming it
    /// again is a programmer error.
    Complete(R),
}

/// A routine that can be driven step by step, producing a stream of yielded
/// values and then one final return value.
///
/// `resume` runs the generator until it either suspends or finishes. Calling
/// it once the generator can no longer be resumed (after a `Complete`, or
/// after cancellation) is a programmer error; `can_resume` states exactly
/// when a call is allowed, so verified implementations never panic.
pub trait Generator {
    /// The type of value this generator yields at each suspension.
    type Yield;

    /// The type of value this generator returns on completion.
    type Return;

    /// Holds exactly when the generator may take another step.
    spec fn can_resume(&self) -> bool;

    /// Drive the generator to its next suspension or to completion.
    fn resume(&mut self) -> (r: GeneratorState<Self::Yield, Self::Return>)
        requires
            old(self).can_resume(),
    ;
}

} // verus!
