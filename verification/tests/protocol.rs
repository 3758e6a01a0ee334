use frenetic::done;
use frenetic::Canceled;
use frenetic::Context;
use frenetic::Finished;
use frenetic::GeneratorState;

#[test]
fn yield_round_trip_through_slot() {
    let mut ctx: Context<i32, &str> = Context::new();
    assert!(ctx.arg_is_null());

    // Parent publishes a slot; the child's yield fills it; the parent reads
    // back exactly the yielded value and the pointer is null again.
    ctx.resume_prepare();
    assert!(ctx.arg_is_pending());
    assert!(ctx.yield_enter(5).is_ok());
    match ctx.resume_collect() {
        GeneratorState::Yielded(5) => {}
        _ => panic!("unexpected transfer"),
    }
    assert!(ctx.arg_is_null());
}

#[test]
fn completion_delivery_through_slot() {
    let mut ctx: Context<i32, &str> = Context::new();

    ctx.resume_prepare();
    ctx.finish(done("foo"));
    match ctx.resume_collect() {
        GeneratorState::Complete("foo") => {}
        _ => panic!("unexpected transfer"),
    }
    assert!(ctx.arg_is_null());
}

#[test]
fn null_slot_means_cancellation() {
    let mut ctx: Context<i32, &str> = Context::new();

    // Waking inside a yield with the pointer null: the parent is gone.
    assert_eq!(ctx.yield_reentry(), Err(Canceled));
    // Entering a yield with the pointer null fails at once, writing nothing.
    assert_eq!(ctx.yield_enter(1), Err(Canceled));
    assert!(ctx.arg_is_null());
}

#[test]
fn failed_closure_leaves_slot_unwritten() {
    let mut ctx: Context<i32, &str> = Context::new();

    // The closure returns Err(Canceled) of its own accord: the trampoline
    // writes nothing, and the parent's published slot stays unwritten.
    ctx.resume_prepare();
    ctx.finish(Err(Canceled));
    assert!(ctx.arg_is_pending());
}

#[test]
fn completion_without_parent_is_discarded() {
    let mut ctx: Context<i32, &str> = Context::new();

    // No slot is published (the parent dropped the coroutine): a completion
    // is discarded and the pointer stays null.
    ctx.finish(done("foo"));
    assert!(ctx.arg_is_null());
}

#[test]
fn done_wraps_the_value() {
    let r: Result<Finished<&str>, Canceled> = done("foo");
    match r {
        Ok(Finished(v)) => assert_eq!(v, "foo"),
        Err(_) => panic!("done never fails"),
    }
}
