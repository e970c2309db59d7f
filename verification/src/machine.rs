//! The execution state machine that drives one pipeline call.
//!
//! A call moves through three strictly ordered phases: wait for the first
//! handler's response, wait for the second handler to admit that response as
//! its request, wait for the second handler's response.  The machine holds
//! only what the current phase needs, decides every transition, and tells the
//! driver — the code that owns the handlers' actual computations and polls
//! them — what to do next.  Each step consumes the machine and either hands
//! back an unchanged machine (a suspension), the machine in its next phase,
//! or the call's single terminal outcome, so a finished call cannot be
//! resumed.

use vstd::pervasive::unreached;
use vstd::prelude::*;
use vstd::std_specs::convert::FromSpec;

verus! {

/// What one poll of a resumable sub-computation reported: it either still
/// needs more time, or it finished with a value.
pub enum Progress<T> {
    /// The computation has not produced its value yet.
    Pending,
    /// The computation finished with this value.
    Ready(T),
}

/// The phase of one in-flight pipeline call.  Transitions move strictly
/// forward; no phase is ever revisited.
pub enum CallState<R, B> {
    /// Waiting for the first handler's response.  The duplicate of the second
    /// handler made when the call began is parked here until that response
    /// exists, since the second handler's readiness may not be checked before
    /// its request does.
    AwaitingFirstResponse {
        /// The duplicated second handler, held until the first response exists.
        second: B,
    },
    /// The first handler's response is held here, awaiting the second
    /// handler's admission; the driver holds that handler and checks its
    /// readiness.  The response is moved out exactly once, at admission.
    AwaitingSecondReadiness {
        /// The first handler's response, the second handler's pending request.
        first_res: R,
    },
    /// The second handler has been invoked; its computation's completion is
    /// the call's completion.  Nothing is held.
    AwaitingSecondResponse,
}

/// What the driver must do after reporting a first-phase poll.
pub enum FirstStep<R, B, E> {
    /// The first handler has not responded yet: suspend.  The call is exactly
    /// as it was.
    Suspend(CallState<R, B>),
    /// The first handler's invocation failed: the call is over, and this
    /// converted error is its one outcome.  The parked duplicate handler is
    /// discarded; no second-stage invocation ever happens for this call.
    Fail(E),
    /// The first handler responded: the driver receives the parked duplicate
    /// of the second handler and must next check its readiness.
    CheckSecond {
        /// The call, now awaiting the second handler's admission.
        call: CallState<R, B>,
        /// The duplicated second handler, moved out of the machine exactly once.
        second: B,
    },
}

/// What the driver must do after reporting the second handler's readiness.
pub enum ReadyStep<R, B, E> {
    /// The second handler is not ready yet: suspend.  The call — held
    /// response included — is exactly as it was.
    Suspend(CallState<R, B>),
    /// The second handler's readiness check failed: the call is over with
    /// exactly that error.  The held response is discarded, never invoked.
    Fail(E),
    /// The second handler admitted the request: invoke it with exactly this
    /// value — the first handler's response, moved out of its slot.
    Invoke {
        /// The call, now awaiting the second handler's response.
        call: CallState<R, B>,
        /// The first handler's response, to be passed to the invocation.
        request: R,
    },
}

/// What the driver must do after reporting a final-phase poll.
pub enum FinalStep<R, B, T, E> {
    /// The second handler has not responded yet: suspend.  The call is
    /// exactly as it was.
    Suspend(CallState<R, B>),
    /// The second handler's computation finished: its outcome, error or
    /// response alike, is the whole call's one terminal outcome.
    Finished(Result<T, E>),
}

/// The phase-one transition: what one report about the first handler's
/// computation does to the call.
pub open spec fn first_transition<R, B, E1, E2: From<E1>>(
    call: CallState<R, B>,
    polled: Progress<Result<R, E1>>,
) -> FirstStep<R, B, E2>
    recommends
        call is AwaitingFirstResponse,
{
    match (call, polled) {
        (call, Progress::Pending) => FirstStep::Suspend(call),
        (_, Progress::Ready(Err(e))) => FirstStep::Fail(E2::from_spec(e)),
        (CallState::AwaitingFirstResponse { second }, Progress::Ready(Ok(first_res))) => (
            FirstStep::CheckSecond {
                call: CallState::AwaitingSecondReadiness { first_res },
                second,
            }
        ),
        (call, _) => FirstStep::Suspend(call),
    }
}

/// The phase-two transition: what the second handler's readiness report does
/// to the call.
pub open spec fn ready_transition<R, B, E>(
    call: CallState<R, B>,
    readiness: Progress<Result<(), E>>,
) -> ReadyStep<R, B, E>
    recommends
        call is AwaitingSecondReadiness,
{
    match (call, readiness) {
        (call, Progress::Pending) => ReadyStep::Suspend(call),
        (_, Progress::Ready(Err(e))) => ReadyStep::Fail(e),
        (CallState::AwaitingSecondReadiness { first_res }, Progress::Ready(Ok(_))) => (
            ReadyStep::Invoke { call: CallState::AwaitingSecondResponse, request: first_res }
        ),
        (call, _) => ReadyStep::Suspend(call),
    }
}

/// The phase-three transition: what one report about the second handler's
/// computation does to the call.
pub open spec fn final_transition<R, B, T, E>(
    call: CallState<R, B>,
    polled: Progress<Result<T, E>>,
) -> FinalStep<R, B, T, E>
    recommends
        call is AwaitingSecondResponse,
{
    match polled {
        Progress::Pending => FinalStep::Suspend(call),
        Progress::Ready(outcome) => FinalStep::Finished(outcome),
    }
}

impl<R, B> CallState<R, B> {
    /// Phase one: feed in what polling the first handler's computation
    /// reported.  A first-stage error is converted into the unified error
    /// type here, at the moment it is observed, and ends the call; a response
    /// moves the call forward and hands the parked duplicate of the second
    /// handler to the driver; anything pending leaves the call untouched.
    pub fn on_first_poll<E1, E2: From<E1>>(self, polled: Progress<Result<R, E1>>) -> (step:
        FirstStep<R, B, E2>)
        requires
            self is AwaitingFirstResponse,
        ensures
            E2::obeys_from_spec() ==> step == first_transition::<R, B, E1, E2>(self, polled),
            !(polled matches Progress::Ready(Err(_))) ==> step == first_transition::<R, B, E1, E2>(
                self,
                polled,
            ),
            polled matches Progress::Ready(Err(e)) ==> step matches FirstStep::Fail(f)
                && call_ensures(E2::from, (e,), f),
    {
        match polled {
            Progress::Pending => FirstStep::Suspend(self),
            Progress::Ready(Ok(first_res)) => match self {
                CallState::AwaitingFirstResponse { second } => FirstStep::CheckSecond {
                    call: CallState::AwaitingSecondReadiness { first_res },
                    second,
                },
                _ => unreached(),
            },
            Progress::Ready(Err(e)) => FirstStep::Fail(E2::from(e)),
        }
    }

    /// Phase two: feed in what the second handler's readiness check reported.
    /// Admission moves the held response out of its slot — exactly once — to
    /// become the invocation's request; a readiness error ends the call with
    /// exactly that error, discarding the held response; anything pending
    /// leaves the call, held response included, untouched.
    pub fn on_second_ready<E>(self, readiness: Progress<Result<(), E>>) -> (step: ReadyStep<
        R,
        B,
        E,
    >)
        requires
            self is AwaitingSecondReadiness,
        ensures
            step == ready_transition::<R, B, E>(self, readiness),
    {
        match readiness {
            Progress::Pending => ReadyStep::Suspend(self),
            Progress::Ready(Ok(_)) => match self {
                CallState::AwaitingSecondReadiness { first_res } => ReadyStep::Invoke {
                    call: CallState::AwaitingSecondResponse,
                    request: first_res,
                },
                _ => unreached(),
            },
            Progress::Ready(Err(e)) => ReadyStep::Fail(e),
        }
    }

    /// Phase three: feed in what polling the second handler's computation
    /// reported.  Its completion, error or response alike, is the call's one
    /// terminal outcome; anything pending leaves the call untouched.
    pub fn on_second_poll<T, E>(self, polled: Progress<Result<T, E>>) -> (step: FinalStep<
        R,
        B,
        T,
        E,
    >)
        requires
            self is AwaitingSecondResponse,
        ensures
            step == final_transition::<R, B, T, E>(self, polled),
    {
        match polled {
            Progress::Pending => FinalStep::Suspend(self),
            Progress::Ready(outcome) => FinalStep::Finished(outcome),
        }
    }
}

} // verus!
