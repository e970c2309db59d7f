//! The composition wrapper: owns the two handlers, delegates admission
//! control to the first one, and begins each call by duplicating the second
//! handler exactly once.

use crate::machine::CallState;
use crate::machine::Progress;
use vstd::pervasive::cloned;
use vstd::prelude::*;
use vstd::std_specs::convert::FromSpec;

verus! {

/// Two handlers combined where the response of the first is the request of
/// the second.  The combination offers the same readiness-then-invoke
/// protocol it consumes, so a `Pipeline` can itself serve as a stage of a
/// further `Pipeline`.
#[derive(Debug, Clone, Copy, Default)]
pub struct Pipeline<A, B> {
    /// The first handler; the combination's admission control is its own.
    pub first: A,
    /// The second handler; duplicated once per call, never at construction.
    pub second: B,
}

impl<A, B> Pipeline<A, B> {
    /// Create a new `Pipeline` from two handlers.  Any pair is accepted; no
    /// validation happens here.
    pub fn new(first: A, second: B) -> (pipeline: Self)
        ensures
            pipeline == (Pipeline { first, second }),
    {
        Pipeline { first, second }
    }

    /// Get a reference to the first handler.
    pub fn first_as_ref(&self) -> (first: &A)
        ensures
            *first == self.first,
    {
        &self.first
    }

    /// Get a mutable reference to the first handler.
    pub fn first_as_mut(&mut self) -> (first: &mut A)
        ensures
            *first == old(self).first,
            *final(self) == (Pipeline { first: *final(first), second: old(self).second }),
    {
        &mut self.first
    }

    /// Consume `self`, returning the first handler.
    pub fn into_first(self) -> (first: A)
        ensures
            first == self.first,
    {
        self.first
    }

    /// Get a reference to the second handler.
    pub fn second_as_ref(&self) -> (second: &B)
        ensures
            *second == self.second,
    {
        &self.second
    }

    /// Get a mutable reference to the second handler.
    pub fn second_as_mut(&mut self) -> (second: &mut B)
        ensures
            *second == old(self).second,
            *final(self) == (Pipeline { first: old(self).first, second: *final(second) }),
    {
        &mut self.second
    }

    /// Consume `self`, returning the second handler.
    pub fn into_second(self) -> (second: B)
        ensures
            second == self.second,
    {
        self.second
    }
}

impl<A, B: Clone> Pipeline<A, B> {
    /// Begin one call: duplicate the second handler — exactly once, here, at
    /// call time, never again while the call is driven — and return the
    /// call's state machine in its initial phase, with the duplicate parked
    /// inside it.  The driver obtains the first handler's computation itself,
    /// by invoking that handler with the caller's request, and then feeds its
    /// polls to [`CallState::on_first_poll`].
    pub fn begin_call<R>(&self) -> (call: CallState<R, B>)
        ensures
            call matches CallState::AwaitingFirstResponse { second } && cloned::<B>(
                self.second,
                second,
            ),
    {
        CallState::AwaitingFirstResponse { second: self.second.clone() }
    }
}

/// What delegation does to the first handler's readiness report: a
/// first-stage error is converted into the unified error type; everything
/// else passes through unchanged.
pub open spec fn readiness_transition<E1, E2: From<E1>>(report: Progress<Result<(), E1>>) -> Progress<
    Result<(), E2>,
> {
    match report {
        Progress::Pending => Progress::Pending,
        Progress::Ready(Ok(admitted)) => Progress::Ready(Ok(admitted)),
        Progress::Ready(Err(e)) => Progress::Ready(Err(E2::from_spec(e))),
    }
}

/// Admission control for the whole combination is the first handler's alone:
/// this maps the first handler's readiness report to the combination's,
/// converting a first-stage error into the unified error type and changing
/// nothing else.  The combination is ready exactly when its first handler is
/// — the second handler's readiness is deliberately not consulted here, since
/// its request does not exist before the first response does; it is checked
/// later, while the call itself is driven.
pub fn combined_readiness<E1, E2: From<E1>>(report: Progress<Result<(), E1>>) -> (combined:
    Progress<Result<(), E2>>)
    ensures
        combined is Pending <==> report is Pending,
        combined matches Progress::Ready(Ok(_)) <==> report matches Progress::Ready(Ok(_)),
        E2::obeys_from_spec() ==> combined == readiness_transition::<E1, E2>(report),
        report matches Progress::Ready(Err(e)) ==> combined matches Progress::Ready(Err(f))
            && call_ensures(E2::from, (e,), f),
{
    match report {
        Progress::Pending => Progress::Pending,
        Progress::Ready(Ok(admitted)) => Progress::Ready(Ok(admitted)),
        Progress::Ready(Err(e)) => Progress::Ready(Err(E2::from(e))),
    }
}

} // verus!
