//! The dispatch gateway: turns an inbound request into a job for the
//! execution pool, fire-and-forget.
//!
//! The caller allocates the response channel (with the capacity decided
//! here), hands the job — prompt plus producer end — to the pool's
//! submission entry point, and reports whether the pool took it. The
//! decision below turns a synchronous rejection into a request-level
//! dispatch error (never a process abort) and, on acceptance, hands back
//! the stream adapter at once: results arrive later through the channel,
//! never through this call.

use vstd::prelude::*;

use crate::errors::DispatchError;
use crate::stream::ResponseStreamAdapter;
use crate::stream::fresh_adapter;

verus! {

/// Bounded capacity of the response channel of a list-like operation: the
/// snapshot is small and the consumer drains it promptly.
pub const LIST_CHANNEL_CAPACITY: usize = 4;

/// Bounded capacity of the response channel of a token-streamed generation:
/// roomy enough to absorb bursts, small enough for backpressure to reach a
/// producer that outruns its consumer.
pub const GENERATE_CHANNEL_CAPACITY: usize = 1024;

/// The two shapes of job this gateway dispatches.
#[derive(Clone, Copy, Debug, PartialEq, Eq, Structural)]
pub enum JobKind {
    /// Stream the registry snapshot back to the client.
    ListModels,
    /// Stream generated tokens back to the client.
    GenerateStreaming,
}

/// One inference job as this core sees it: the prompt; the caller pairs it
/// with the producer end of the response channel when submitting. The job is
/// submitted at most once and correlated with its result only through that
/// channel — there is no job id.
#[derive(Debug, PartialEq, Eq)]
pub struct JobSpec {
    pub prompt: String,
}

/// The capacity of the response channel to allocate for a job of this kind.
pub fn channel_capacity(kind: JobKind) -> (r: usize)
    ensures
        kind is ListModels ==> r == LIST_CHANNEL_CAPACITY,
        kind is GenerateStreaming ==> r == GENERATE_CHANNEL_CAPACITY,
{
    match kind {
        JobKind::ListModels => LIST_CHANNEL_CAPACITY,
        JobKind::GenerateStreaming => GENERATE_CHANNEL_CAPACITY,
    }
}

/// What the pool's submission entry point answered, as the caller saw it.
#[derive(Debug)]
pub enum SubmitOutcome {
    /// The pool took the job; its results will flow through the channel.
    Accepted,
    /// The pool rejected it synchronously (closed or overloaded).
    Rejected { detail: String },
}

/// Decides the result of a streamed-generation request from the pool's
/// answer: a fresh stream adapter the moment the job is accepted — without
/// waiting for any result — or a request-level dispatch error on rejection,
/// which must surface to the client and never abort the serving process.
pub fn dispatch_result(outcome: SubmitOutcome) -> (r: Result<
    ResponseStreamAdapter,
    DispatchError,
>)
    ensures
        outcome is Accepted <==> r is Ok,
        r matches Ok(adapter) ==> adapter@ == fresh_adapter(),
        outcome matches SubmitOutcome::Rejected { detail } ==> r == Err::<
            ResponseStreamAdapter,
            DispatchError,
        >(DispatchError { detail }),
{
    match outcome {
        SubmitOutcome::Accepted => Ok(ResponseStreamAdapter::new()),
        SubmitOutcome::Rejected { detail } => Err(DispatchError { detail }),
    }
}

} // verus!
