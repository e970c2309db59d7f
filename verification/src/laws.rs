//! The laws of the combination, proved once and for all over the transition
//! functions that the step functions' contracts are stated with.

use crate::machine::CallState;
use crate::machine::FinalStep;
use crate::machine::FirstStep;
use crate::machine::Progress;
use crate::machine::ReadyStep;
use crate::machine::final_transition;
use crate::machine::first_transition;
use crate::machine::ready_transition;
use crate::pipeline::Pipeline;
use vstd::pervasive::cloned;
use vstd::prelude::*;
use vstd::std_specs::convert::FromSpec;

verus! {

/// Composition law: a call in which the first handler responds, the second
/// handler admits, and the second handler responds finishes with exactly the
/// second handler's response — and the second handler was invoked with
/// exactly the first handler's response, so the combination's success output
/// is what chaining the two stages by hand would produce.
pub proof fn lemma_composition<R, B, T, E1, E2: From<E1>>(
    call: CallState<R, B>,
    first_res: R,
    second_res: T,
)
    requires
        call is AwaitingFirstResponse,
    ensures
        first_transition::<R, B, E1, E2>(call, Progress::Ready(Ok(first_res))) matches FirstStep::CheckSecond { call: ready, second }
            && ready_transition::<R, B, E2>(ready, Progress::Ready(Ok(()))) matches ReadyStep::Invoke { call: invoked, request }
            && request == first_res && final_transition::<R, B, T, E2>(
            invoked,
            Progress::Ready(Ok(second_res)),
        ) == FinalStep::<R, B, T, E2>::Finished(Ok(second_res)),
{
}

/// Resumption idempotence: a poll that reports `Pending` leaves the call —
/// phase and held values alike — exactly unchanged, in every phase.
pub proof fn lemma_resumption_idempotent<R, B, T, E1, E2: From<E1>>(call: CallState<R, B>)
    ensures
        first_transition::<R, B, E1, E2>(call, Progress::Pending) == FirstStep::<R, B, E2>::Suspend(
            call,
        ),
        ready_transition::<R, B, E2>(call, Progress::Pending) == ReadyStep::<R, B, E2>::Suspend(
            call,
        ),
        final_transition::<R, B, T, E2>(call, Progress::Pending) == FinalStep::<
            R,
            B,
            T,
            E2,
        >::Suspend(call),
{
}

/// Error short-circuit: if the first handler's invocation fails, the call's
/// outcome is the converted first-stage error, and the duplicate second
/// handler is never handed out — no second-stage invocation exists for this
/// call.
pub proof fn lemma_first_error_short_circuit<R, B, E1, E2: From<E1>>(call: CallState<R, B>, e: E1)
    requires
        call is AwaitingFirstResponse,
    ensures
        first_transition::<R, B, E1, E2>(call, Progress::Ready(Err(e))) == FirstStep::<
            R,
            B,
            E2,
        >::Fail(E2::from_spec(e)),
        !(first_transition::<R, B, E1, E2>(call, Progress::Ready(Err(e))) is CheckSecond),
{
}

/// Error short-circuit at the readiness check: if the second handler's
/// readiness check fails after the first handler has responded, the call's
/// outcome is exactly that error, and the held response is discarded — it is
/// never delivered to an invocation.
pub proof fn lemma_readiness_error_short_circuit<R, B, E>(call: CallState<R, B>, e: E)
    requires
        call is AwaitingSecondReadiness,
    ensures
        ready_transition::<R, B, E>(call, Progress::Ready(Err(e))) == ReadyStep::<R, B, E>::Fail(e),
        !(ready_transition::<R, B, E>(call, Progress::Ready(Err(e))) is Invoke),
{
}

/// A chain of pending first-phase polls, however long, keeps the call — and
/// the duplicate handler parked in it — exactly as it began.
pub proof fn lemma_pending_chain<R, B, E1, E2: From<E1>>(chain: Seq<CallState<R, B>>, i: int)
    requires
        0 <= i < chain.len(),
        forall|j: int|
            0 <= j < chain.len() - 1 ==> first_transition::<R, B, E1, E2>(
                #[trigger] chain[j],
                Progress::Pending,
            ) == FirstStep::<R, B, E2>::Suspend(chain[j + 1]),
    ensures
        chain[i] == chain[0],
    decreases i,
{
    if i > 0 {
        lemma_pending_chain::<R, B, E1, E2>(chain, i - 1);
        assert(first_transition::<R, B, E1, E2>(chain[i - 1], Progress::Pending)
            == FirstStep::<R, B, E2>::Suspend(chain[i]));
    }
}

/// Single duplication: the duplicate of the second handler made when the call
/// began is the one — and the only one — that the driver receives when the
/// first response arrives, no matter how many suspended resumptions came in
/// between.  Together with [`Pipeline::begin_call`]'s contract, which makes
/// its one duplicate at call time, this pins the duplication count at exactly
/// one per call, and so at N over N calls.
pub proof fn lemma_single_duplication<A, B: Clone, R, E1, E2: From<E1>>(
    pipeline: Pipeline<A, B>,
    chain: Seq<CallState<R, B>>,
    first_res: R,
)
    requires
        chain.len() > 0,
        call_ensures(Pipeline::<A, B>::begin_call::<R>, (&pipeline,), chain[0]),
        forall|j: int|
            0 <= j < chain.len() - 1 ==> first_transition::<R, B, E1, E2>(
                #[trigger] chain[j],
                Progress::Pending,
            ) == FirstStep::<R, B, E2>::Suspend(chain[j + 1]),
    ensures
        first_transition::<R, B, E1, E2>(chain.last(), Progress::Ready(Ok(first_res))) matches FirstStep::CheckSecond { call: ready, second }
            && cloned::<B>(pipeline.second, second),
{
    lemma_pending_chain::<R, B, E1, E2>(chain, chain.len() - 1);
}

} // verus!
