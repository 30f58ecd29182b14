//! Core of a model-serving front end: the in-memory registry cache of model
//! descriptors with its refresh/insert protocol against a persistent store,
//! the dispatch decision that turns an inference request into a pooled job,
//! and the adapter that turns a job's response channel into an ordered,
//! cancellable outward stream.
//!
//! Everything effectful (the store round trips, the channel operations, the
//! transport) lives outside this crate; callers perform those operations and
//! feed their outcomes to the functions here, which make every decision and
//! carry the contracts.

pub mod dispatch;
pub mod errors;
pub mod intake;
pub mod model;
pub mod registry;
pub mod stream;
