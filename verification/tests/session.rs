use frenetic::ChildEnd;
use frenetic::Coroutine;
use frenetic::Generator;
use frenetic::GeneratorState;
use frenetic::Phase;

const BASE: usize = 0x1000;
const LEN: usize = 4096 * 8;

#[test]
fn simple_yield_then_complete() {
    let mut coro: Coroutine<i32, &str> = Coroutine::new(BASE, LEN, vec![1], ChildEnd::Done("foo"));

    match coro.resume() {
        GeneratorState::Yielded(1) => {}
        _ => panic!("unexpected return from resume"),
    }

    match coro.resume() {
        GeneratorState::Complete("foo") => {}
        _ => panic!("unexpected return from resume"),
    }

    assert!(!coro.is_live());
}

#[test]
fn two_yields() {
    let mut coro: Coroutine<i32, &str> =
        Coroutine::new(BASE, LEN, vec![1, 2], ChildEnd::Done("foo"));

    match coro.resume() {
        GeneratorState::Yielded(1) => {}
        _ => panic!("unexpected return from resume"),
    }

    match coro.resume() {
        GeneratorState::Yielded(2) => {}
        _ => panic!("unexpected return from resume"),
    }

    match coro.resume() {
        GeneratorState::Complete("foo") => {}
        _ => panic!("unexpected return from resume"),
    }
}

#[test]
fn cancel_during_first_suspension() {
    let mut coro: Coroutine<i32, &str> = Coroutine::new(BASE, LEN, vec![1], ChildEnd::Done("foo"));

    match coro.resume() {
        GeneratorState::Yielded(1) => {}
        _ => panic!("unexpected return from resume"),
    }
    assert_eq!(coro.current_phase(), Phase::Suspended);

    // The parent drops the coroutine mid-suspension: the child's yield
    // reports the cancellation.
    let cancelled = coro.cancel().is_some();
    assert!(cancelled);
    assert!(!coro.is_live());
}

#[test]
fn early_drop_never_resumed() {
    let mut coro: Coroutine<i32, &str> = Coroutine::new(BASE, LEN, vec![1], ChildEnd::Done("foo"));

    // Dropped before any resume: no value is ever yielded, and the child is
    // wound down cleanly.
    let observed = coro.cancel();
    assert!(observed.is_some());
    assert_eq!(coro.remaining_yields(), 0);
    assert!(!coro.is_live());
}

#[test]
fn early_drop_done_only() {
    let mut coro: Coroutine<i32, &str> = Coroutine::new(BASE, LEN, vec![], ChildEnd::Done("foo"));

    // The closure completes on its own with no parent waiting: the value is
    // discarded and the child observes nothing.
    let observed = coro.cancel();
    assert!(observed.is_none());
    assert!(!coro.is_live());
}

#[test]
fn early_drop_result_err() {
    let mut coro: Coroutine<i32, &str> = Coroutine::new(BASE, LEN, vec![], ChildEnd::Fail);

    let observed = coro.cancel();
    assert!(observed.is_none());
    assert!(!coro.is_live());
}

#[test]
fn completion_without_yield() {
    let mut coro: Coroutine<i32, &str> = Coroutine::new(BASE, LEN, vec![], ChildEnd::Done("foo"));

    match coro.resume() {
        GeneratorState::Complete("foo") => {}
        _ => panic!("unexpected return from resume"),
    }

    // Resuming again is a programmer error; the coroutine is terminated.
    assert!(!coro.is_live());
    assert_eq!(coro.current_phase(), Phase::Terminated);
}

#[test]
fn cancel_after_completion_is_inert() {
    let mut coro: Coroutine<i32, &str> = Coroutine::new(BASE, LEN, vec![], ChildEnd::Done("foo"));

    match coro.resume() {
        GeneratorState::Complete("foo") => {}
        _ => panic!("unexpected return from resume"),
    }

    // Dropping a terminated coroutine performs no switch.
    let observed = coro.cancel();
    assert!(observed.is_none());
}

#[test]
fn outcomes_independent_of_backing_memory() {
    // The same script over three different buffers: an aligned one, one with
    // non-trivial leading misalignment, and a large high-address one. The
    // observable session is identical.
    let geometries: [(usize, usize); 3] = [(0x1000, 4096 * 8), (0x1003, 4096 * 8 + 7), (0x7f_ffff_0000, 4096)];

    for (base, len) in geometries {
        let mut coro: Coroutine<i32, &str> =
            Coroutine::new(base, len, vec![1, 2], ChildEnd::Done("foo"));

        match coro.resume() {
            GeneratorState::Yielded(1) => {}
            _ => panic!("unexpected return from resume"),
        }
        match coro.resume() {
            GeneratorState::Yielded(2) => {}
            _ => panic!("unexpected return from resume"),
        }
        match coro.resume() {
            GeneratorState::Complete("foo") => {}
            _ => panic!("unexpected return from resume"),
        }
    }
}

#[test]
fn drive_to_completion_returns_whole_transcript() {
    let mut coro: Coroutine<i32, &str> =
        Coroutine::new(BASE, LEN, vec![1, 2, 3], ChildEnd::Done("foo"));

    let (yielded, finished) = coro.drive_to_completion();
    assert_eq!(yielded, vec![1, 2, 3]);
    assert_eq!(finished, "foo");
    assert!(!coro.is_live());
}

#[test]
fn yields_are_delivered_in_order_and_bitwise_equal() {
    let values = vec![i32::MIN, -1, 0, 1, i32::MAX];
    let mut coro: Coroutine<i32, &str> =
        Coroutine::new(BASE, LEN, values.clone(), ChildEnd::Done("done"));

    for expected in values {
        match coro.resume() {
            GeneratorState::Yielded(y) => assert_eq!(y, expected),
            _ => panic!("unexpected return from resume"),
        }
    }
    match coro.resume() {
        GeneratorState::Complete("done") => {}
        _ => panic!("unexpected return from resume"),
    }
}
