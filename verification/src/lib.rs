//! A combinator that pipelines two request/response handlers: the response of
//! the first handler becomes the request of the second, so the combination
//! behaves like function composition lifted into a readiness-gated, resumable
//! call protocol.
//!
//! [`Pipeline`] owns the two handlers, delegates admission control to the
//! first one, and begins each call by duplicating the second handler exactly
//! once.  One in-flight call is a [`CallState`] machine that advances through
//! three strictly ordered phases — await the first response, await the second
//! handler's admission, await the second response — and produces exactly one
//! terminal outcome.  A driver owns the handlers' actual computations, polls
//! them, and feeds each report to the machine, which decides every transition.
//!
//! [`CallState`]: machine::CallState
//! [`Pipeline`]: pipeline::Pipeline

pub mod laws;
pub mod machine;
pub mod pipeline;

pub use crate::machine::CallState;
pub use crate::machine::FinalStep;
pub use crate::machine::FirstStep;
pub use crate::machine::Progress;
pub use crate::machine::ReadyStep;
pub use crate::pipeline::Pipeline;
pub use crate::pipeline::combined_readiness;
