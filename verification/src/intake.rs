//! Intake of a client-streamed batch of descriptors: the whole input stream
//! is collected before the one batched insert, malformed items are dropped
//! silently (the documented lenient policy), and a storage failure is
//! reported as a soft zero count rather than a call failure.

use vstd::prelude::*;

use crate::errors::DecodeError;
use crate::errors::StorageError;
use crate::model::ModelSpec;

verus! {

/// The descriptors that survive decoding, in arrival order: decode failures
/// are dropped and leave no trace.
pub open spec fn decoded(items: Seq<Result<ModelSpec, DecodeError>>) -> Seq<ModelSpec>
    decreases items.len(),
{
    if items.len() == 0 {
        Seq::empty()
    } else {
        decoded(items.drop_last()) + match items.last() {
            Ok(m) => seq![m],
            Err(_) => Seq::empty(),
        }
    }
}

/// Collects a fully received input stream into the batch to insert: each
/// well-formed descriptor in order, each malformed item silently dropped.
pub fn collect_decoded(items: &Vec<Result<ModelSpec, DecodeError>>) -> (r: Vec<ModelSpec>)
    ensures
        r@ == decoded(items@),
{
    let mut out: Vec<ModelSpec> = Vec::new();
    let mut idx: usize = 0;
    while idx < items.len()
        invariant
            idx <= items.len(),
            out@ == decoded(items@.take(idx as int)),
        decreases items.len() - idx,
    {
        match &items[idx] {
            Ok(m) => {
                out.push(m.clone());
            },
            Err(_) => {},
        }
        proof {
            assert(items@.take(idx + 1 as int).drop_last() =~= items@.take(idx as int));
            assert(items@.take(idx + 1 as int).last() == items@[idx as int]);
        }
        idx = idx + 1;
    }
    proof {
        assert(items@.take(items@.len() as int) =~= items@);
    }
    out
}

/// The reply of the batch-addition endpoint: the row count on success, and a
/// soft zero on a storage failure — by the documented policy the call itself
/// does not fail, so a caller cannot tell "nothing to add" from "store
/// failed".
pub fn add_models_count(outcome: &Result<u64, StorageError>) -> (r: u64)
    ensures
        outcome matches Ok(rows) ==> r == rows,
        outcome is Err ==> r == 0,
{
    match outcome {
        Ok(rows) => *rows,
        Err(_) => 0,
    }
}

} // verus!
