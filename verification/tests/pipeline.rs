use std::cell::Cell;
use std::rc::Rc;
use std::rc::Weak;

use tower_pipeline::combined_readiness;
use tower_pipeline::CallState;
use tower_pipeline::FinalStep;
use tower_pipeline::FirstStep;
use tower_pipeline::Pipeline;
use tower_pipeline::Progress;
use tower_pipeline::ReadyStep;

/// The first stage's error type in these tests.
#[derive(Debug, Clone, Copy, PartialEq, Eq)]
struct FirstError;

/// The unified error type: the second stage's, able to carry the first's.
#[derive(Debug, Clone, Copy, PartialEq, Eq)]
enum CombinedError {
    First(FirstError),
    Second,
}

impl From<FirstError> for CombinedError {
    fn from(e: FirstError) -> Self {
        CombinedError::First(e)
    }
}

/// A stand-in second handler that doubles its integer request.
#[derive(Clone)]
struct Doubler;

/// A second handler whose duplications are counted.
struct CloneCounter {
    clones: Rc<Cell<u32>>,
}

impl Clone for CloneCounter {
    fn clone(&self) -> Self {
        self.clones.set(self.clones.get() + 1);
        CloneCounter { clones: Rc::clone(&self.clones) }
    }
}

/// Drives one call of the "string length, then double" pipeline to its end,
/// resuming each phase `..._pending` extra times while it reports pending.
fn drive_length_then_double(
    input: &str,
    first_pending: usize,
    ready_pending: usize,
    second_pending: usize,
) -> Result<usize, CombinedError> {
    let pipeline: Pipeline<(), Doubler> = Pipeline::new((), Doubler);
    let mut call: CallState<usize, Doubler> = pipeline.begin_call();
    for _ in 0..first_pending {
        match call.on_first_poll::<FirstError, CombinedError>(Progress::Pending) {
            FirstStep::Suspend(same) => call = same,
            _ => panic!("a pending poll must suspend the call"),
        }
    }
    // the first stage computes the string's length
    let first_res: usize = input.len();
    let step = call.on_first_poll::<FirstError, CombinedError>(Progress::Ready(Ok(first_res)));
    let (mut call, _doubler) = match step {
        FirstStep::CheckSecond { call, second } => (call, second),
        _ => panic!("a first response must lead to the readiness check"),
    };
    for _ in 0..ready_pending {
        match call.on_second_ready::<CombinedError>(Progress::Pending) {
            ReadyStep::Suspend(same) => call = same,
            _ => panic!("a pending readiness check must suspend the call"),
        }
    }
    let step = call.on_second_ready::<CombinedError>(Progress::Ready(Ok(())));
    let (mut call, request) = match step {
        ReadyStep::Invoke { call, request } => (call, request),
        _ => panic!("admission must lead to the second invocation"),
    };
    // the second stage doubles its request
    let doubled: usize = request * 2;
    for _ in 0..second_pending {
        match call.on_second_poll::<usize, CombinedError>(Progress::Pending) {
            FinalStep::Suspend(same) => call = same,
            _ => panic!("a pending poll must suspend the call"),
        }
    }
    match call.on_second_poll::<usize, CombinedError>(Progress::Ready(Ok(doubled))) {
        FinalStep::Finished(outcome) => outcome,
        _ => panic!("a second response must finish the call"),
    }
}

#[test]
fn combined_length_then_double_yields_eight() {
    assert_eq!(drive_length_then_double("rust", 0, 0, 0), Ok(8));
}

#[test]
fn combined_empty_input_yields_zero() {
    assert_eq!(drive_length_then_double("", 0, 0, 0), Ok(0));
}

#[test]
fn resuming_pending_phases_changes_nothing() {
    assert_eq!(drive_length_then_double("rust", 5, 4, 3), Ok(8));
    assert_eq!(drive_length_then_double("verus", 1, 0, 2), Ok(10));
}

#[test]
fn first_error_short_circuits_with_converted_error() {
    let pipeline: Pipeline<(), Doubler> = Pipeline::new((), Doubler);
    let call: CallState<usize, Doubler> = pipeline.begin_call();
    let mut second_invocations: u32 = 0;
    let step = call.on_first_poll::<FirstError, CombinedError>(Progress::Ready(Err(FirstError)));
    match step {
        FirstStep::Fail(e) => assert_eq!(e, CombinedError::First(FirstError)),
        FirstStep::CheckSecond { .. } => {
            second_invocations += 1;
            panic!("the second stage must never be reached after a first-stage error");
        }
        FirstStep::Suspend(_) => panic!("a completed poll must not suspend the call"),
    }
    assert_eq!(second_invocations, 0);
}

#[test]
fn readiness_error_discards_the_held_response() {
    let pipeline: Pipeline<(), Doubler> = Pipeline::new((), Doubler);
    let call: CallState<Rc<u8>, Doubler> = pipeline.begin_call();
    let first_res: Rc<u8> = Rc::new(5);
    let held: Weak<u8> = Rc::downgrade(&first_res);
    let step = call.on_first_poll::<FirstError, CombinedError>(Progress::Ready(Ok(first_res)));
    let call = match step {
        FirstStep::CheckSecond { call, second: _ } => call,
        _ => panic!("a first response must lead to the readiness check"),
    };
    assert!(held.upgrade().is_some(), "the response is held while readiness is checked");
    let step = call.on_second_ready::<CombinedError>(Progress::Ready(Err(CombinedError::Second)));
    match step {
        ReadyStep::Fail(e) => assert_eq!(e, CombinedError::Second),
        ReadyStep::Invoke { .. } => panic!("an errored readiness check must not invoke"),
        ReadyStep::Suspend(_) => panic!("a completed readiness check must not suspend"),
    }
    assert!(held.upgrade().is_none(), "the held response must be discarded, not delivered");
}

#[test]
fn duplication_happens_once_per_call() {
    let clones: Rc<Cell<u32>> = Rc::new(Cell::new(0));
    let pipeline: Pipeline<(), CloneCounter> =
        Pipeline::new((), CloneCounter { clones: Rc::clone(&clones) });
    let calls: u32 = 3;
    for round in 0..calls {
        let mut call: CallState<u32, CloneCounter> = pipeline.begin_call();
        // resuming while pending must not duplicate again
        for _ in 0..4 {
            match call.on_first_poll::<FirstError, CombinedError>(Progress::Pending) {
                FirstStep::Suspend(same) => call = same,
                _ => panic!("a pending poll must suspend the call"),
            }
        }
        let step = call.on_first_poll::<FirstError, CombinedError>(Progress::Ready(Ok(round)));
        match step {
            FirstStep::CheckSecond { call: _, second } => {
                assert!(
                    Rc::ptr_eq(&second.clones, &clones),
                    "the handler handed out is the duplicate made for this call"
                );
            }
            _ => panic!("a first response must lead to the readiness check"),
        }
        assert_eq!(clones.get(), round + 1);
    }
    assert_eq!(clones.get(), calls);
}

#[test]
fn readiness_is_the_first_stages_alone() {
    let pending: Progress<Result<(), FirstError>> = Progress::Pending;
    let ready_ok: Progress<Result<(), FirstError>> = Progress::Ready(Ok(()));
    let ready_err: Progress<Result<(), FirstError>> = Progress::Ready(Err(FirstError));
    assert!(matches!(
        combined_readiness::<FirstError, CombinedError>(pending),
        Progress::Pending
    ));
    assert!(matches!(
        combined_readiness::<FirstError, CombinedError>(ready_ok),
        Progress::Ready(Ok(()))
    ));
    match combined_readiness::<FirstError, CombinedError>(ready_err) {
        Progress::Ready(Err(e)) => assert_eq!(e, CombinedError::First(FirstError)),
        _ => panic!("an errored first stage must report the converted error"),
    }
}

#[test]
fn new_stores_both_handlers() {
    let pipeline: Pipeline<i32, &str> = Pipeline::new(7, "second");
    assert_eq!(*pipeline.first_as_ref(), 7);
    assert_eq!(*pipeline.second_as_ref(), "second");
}

#[test]
fn mutable_accessors_reach_each_handler() {
    let mut pipeline: Pipeline<i32, i32> = Pipeline::new(1, 2);
    *pipeline.first_as_mut() = 10;
    *pipeline.second_as_mut() = 20;
    assert_eq!(*pipeline.first_as_ref(), 10);
    assert_eq!(*pipeline.second_as_ref(), 20);
}

#[test]
fn into_first_returns_the_first_handler() {
    let pipeline: Pipeline<i32, &str> = Pipeline::new(41, "second");
    assert_eq!(pipeline.into_first(), 41);
}

#[test]
fn into_second_returns_the_second_handler() {
    let pipeline: Pipeline<i32, &str> = Pipeline::new(41, "second");
    assert_eq!(pipeline.into_second(), "second");
}
