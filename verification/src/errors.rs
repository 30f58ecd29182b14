//! Error taxonomy of the dispatch/cache core, and its propagation policy:
//! every internal failure becomes an explicit value that reaches the RPC
//! boundary as a typed request-level failure; nothing unwinds past a handler.

use vstd::prelude::*;

verus! {

/// A persistent-store call (refresh or insert) failed. A failed refresh
/// always leaves the cache unchanged.
#[derive(Clone, Debug, PartialEq, Eq)]
pub struct StorageError {
    pub detail: String,
}

/// The execution pool synchronously rejected a job submission
/// (closed or overloaded).
#[derive(Clone, Debug, PartialEq, Eq)]
pub struct DispatchError {
    pub detail: String,
}

/// An individual item delivered through a response channel carries a failure
/// instead of a payload; it is a valid stream element, distinct from
/// end-of-stream.
#[derive(Clone, Debug, PartialEq, Eq)]
pub struct StreamItemError {
    pub detail: String,
}

/// One malformed item in a client-streamed input; such items are dropped
/// silently rather than failing the call.
#[derive(Clone, Debug, PartialEq, Eq)]
pub struct DecodeError {
    pub detail: String,
}

/// Typed failure of one request, as surfaced at the RPC boundary.
#[derive(Clone, Debug, PartialEq, Eq)]
pub enum RequestError {
    /// A store round trip failed.
    Storage { detail: String },
    /// The execution pool refused the job.
    Dispatch { detail: String },
    /// The endpoint has no defined behavior yet; reported deterministically.
    Unimplemented,
}

impl StorageError {
    /// Conversion applied at the RPC boundary.
    pub fn into_request_error(self) -> (r: RequestError)
        ensures
            r == (RequestError::Storage { detail: self.detail }),
    {
        RequestError::Storage { detail: self.detail }
    }
}

impl DispatchError {
    /// Conversion applied at the RPC boundary.
    pub fn into_request_error(self) -> (r: RequestError)
        ensures
            r == (RequestError::Dispatch { detail: self.detail }),
    {
        RequestError::Dispatch { detail: self.detail }
    }
}

/// The unary inference endpoint has no synchronous execution path upstream of
/// this core; it must answer every request with the same typed outcome rather
/// than abort the process.
pub fn run_inference_outcome() -> (r: RequestError)
    ensures
        r == RequestError::Unimplemented,
{
    RequestError::Unimplemented
}

} // verus!
